//! Text values as the database sees them: a cell is either NULL or a string,
//! and strings are ordered by their UTF-8 encodings, byte by byte. That order
//! is the order of the strings code point by code point, which is what the
//! contracts of the store speak of.

use vstd::prelude::*;
use vstd::utf8::char_is_scalar;
use vstd::utf8::char_u32_cast;
use vstd::utf8::encode_scalar;
use vstd::utf8::encode_utf8;
use vstd::utf8::has_width_1_encoding;
use vstd::utf8::has_width_2_encoding;
use vstd::utf8::has_width_3_encoding;
use vstd::utf8::has_width_4_encoding;
use vstd::utf8::is_scalar;
use vstd::utf8::last_continuation_byte;
use vstd::utf8::leading_byte_width_1;
use vstd::utf8::leading_byte_width_2;
use vstd::utf8::leading_byte_width_3;
use vstd::utf8::leading_byte_width_4;
use vstd::utf8::second_last_continuation_byte;
use vstd::utf8::third_last_continuation_byte;

verus! {

/// The text of a cell, with NULL read as the empty string.
pub open spec fn text_of(cell: Option<Seq<char>>) -> Seq<char> {
    match cell {
        Some(s) => s,
        None => Seq::empty(),
    }
}

/// The numeric value of a character's code point.
pub open spec fn code(c: char) -> int {
    c as u32 as int
}

/// `a` sorts at or before `b`: at the first place where the two differ `a`
/// has the character with the smaller code, or `a` ends where `b` goes on.
/// By [`lemma_text_order_is_byte_order`] this is the order of the UTF-8
/// encodings byte by byte.
pub open spec fn text_le(a: Seq<char>, b: Seq<char>) -> bool
    decreases a.len(),
{
    if a.len() == 0 {
        true
    } else if b.len() == 0 {
        false
    } else if a[0] != b[0] {
        code(a[0]) < code(b[0])
    } else {
        text_le(a.drop_first(), b.drop_first())
    }
}

/// Two characters with one code are one character.
pub proof fn lemma_code_tells_apart(c: char, d: char)
    ensures
        code(c) == code(d) ==> c == d,
{
    char_u32_cast(c, c as u32);
    char_u32_cast(d, d as u32);
}

/// `a` sorts at or before `b` as a string of bytes: at the first place where
/// the two differ `a` has the smaller byte, or `a` ends where `b` goes on.
pub open spec fn bytes_le(a: Seq<u8>, b: Seq<u8>) -> bool
    decreases a.len(),
{
    if a.len() == 0 {
        true
    } else if b.len() == 0 {
        false
    } else if a[0] != b[0] {
        a[0] < b[0]
    } else {
        bytes_le(a.drop_first(), b.drop_first())
    }
}

/// Order of two cells, as the database orders them: NULL sorts before every
/// string, and two strings sort as their UTF-8 encodings do.
pub open spec fn cell_le(a: Option<Seq<char>>, b: Option<Seq<char>>) -> bool {
    match (a, b) {
        (None, _) => true,
        (Some(_), None) => false,
        (Some(x), Some(y)) => bytes_le(encode_utf8(x), encode_utf8(y)),
    }
}

/// `x` and `y` agree in their first `k` bytes, and at index `k` the byte of
/// `x` is the smaller one.
pub open spec fn parts_at(x: Seq<u8>, y: Seq<u8>, k: int) -> bool {
    &&& 0 <= k < x.len()
    &&& k < y.len()
    &&& forall|j: int| 0 <= j < k ==> x[j] == y[j]
    &&& x[k] < y[k]
}

/// Where `x` parts from `y` with the smaller byte, whatever follows the two
/// does not change their order.
pub proof fn lemma_parting_decides(x: Seq<u8>, y: Seq<u8>, k: int, p: Seq<u8>, q: Seq<u8>)
    requires
        parts_at(x, y, k),
    ensures
        bytes_le(x + p, y + q),
        !bytes_le(y + q, x + p),
    decreases k,
{
    if k > 0 {
        assert(x[0] == y[0]);
        assert forall|j: int| 0 <= j < k - 1 implies x.drop_first()[j] == y.drop_first()[j] by {
            assert(x[j + 1] == y[j + 1]);
        }
        lemma_parting_decides(x.drop_first(), y.drop_first(), k - 1, p, q);
        assert((x + p).drop_first() =~= x.drop_first() + p);
        assert((y + q).drop_first() =~= y.drop_first() + q);
    }
}

/// A prefix that two strings of bytes share does not change their order.
pub proof fn lemma_shared_prefix(x: Seq<u8>, p: Seq<u8>, q: Seq<u8>)
    ensures
        bytes_le(x + p, x + q) == bytes_le(p, q),
    decreases x.len(),
{
    if x.len() == 0 {
        assert(x + p =~= p);
        assert(x + q =~= q);
    } else {
        lemma_shared_prefix(x.drop_first(), p, q);
        assert((x + p).drop_first() =~= x.drop_first() + p);
        assert((x + q).drop_first() =~= x.drop_first() + q);
    }
}

/// The first byte of an encoding tells how many bytes it has: the ranges of
/// first bytes rise with the number of bytes.
proof fn lemma_leading_bytes(c: u32)
    by (bit_vector)
    requires
        is_scalar(c),
    ensures
        has_width_1_encoding(c) ==> leading_byte_width_1(c) <= 0x7F,
        has_width_2_encoding(c) ==> 0xC0 <= leading_byte_width_2(c) <= 0xDF,
        has_width_3_encoding(c) ==> 0xE0 <= leading_byte_width_3(c) <= 0xEF,
        has_width_4_encoding(c) ==> 0xF0 <= leading_byte_width_4(c),
{
}

/// Of two scalar values of one byte the smaller has the smaller byte.
proof fn lemma_order_width_1(c: u32, d: u32)
    by (bit_vector)
    requires
        has_width_1_encoding(c),
        has_width_1_encoding(d),
        c < d,
    ensures
        leading_byte_width_1(c) < leading_byte_width_1(d),
{
}

/// Of two scalar values of two bytes the smaller has the smaller byte where
/// the two encodings first differ.
proof fn lemma_order_width_2(c: u32, d: u32)
    by (bit_vector)
    requires
        has_width_2_encoding(c),
        has_width_2_encoding(d),
        c < d,
    ensures
        leading_byte_width_2(c) < leading_byte_width_2(d) || (leading_byte_width_2(c)
            == leading_byte_width_2(d) && last_continuation_byte(c) < last_continuation_byte(d)),
{
}

/// Of two scalar values of three bytes the smaller has the smaller byte
/// where the two encodings first differ.
proof fn lemma_order_width_3(c: u32, d: u32)
    by (bit_vector)
    requires
        has_width_3_encoding(c),
        has_width_3_encoding(d),
        c < d,
    ensures
        leading_byte_width_3(c) < leading_byte_width_3(d) || (leading_byte_width_3(c)
            == leading_byte_width_3(d) && (second_last_continuation_byte(c)
            < second_last_continuation_byte(d) || (second_last_continuation_byte(c)
            == second_last_continuation_byte(d) && last_continuation_byte(c)
            < last_continuation_byte(d)))),
{
}

/// Of two scalar values of four bytes the smaller has the smaller byte
/// where the two encodings first differ.
proof fn lemma_order_width_4(c: u32, d: u32)
    by (bit_vector)
    requires
        has_width_4_encoding(c),
        has_width_4_encoding(d),
        c < d,
    ensures
        leading_byte_width_4(c) < leading_byte_width_4(d) || (leading_byte_width_4(c)
            == leading_byte_width_4(d) && (third_last_continuation_byte(c)
            < third_last_continuation_byte(d) || (third_last_continuation_byte(c)
            == third_last_continuation_byte(d) && (second_last_continuation_byte(c)
            < second_last_continuation_byte(d) || (second_last_continuation_byte(c)
            == second_last_continuation_byte(d) && last_continuation_byte(c)
            < last_continuation_byte(d)))))),
{
}

/// Of two scalar values the smaller has the encoding that parts from the
/// other's with the smaller byte.
pub proof fn lemma_scalar_order(c: u32, d: u32) -> (k: int)
    requires
        is_scalar(c),
        is_scalar(d),
        c < d,
    ensures
        parts_at(encode_scalar(c), encode_scalar(d), k),
{
    lemma_leading_bytes(c);
    lemma_leading_bytes(d);
    let x = encode_scalar(c);
    let y = encode_scalar(d);
    if has_width_1_encoding(c) && has_width_1_encoding(d) {
        lemma_order_width_1(c, d);
        0
    } else if has_width_2_encoding(c) && has_width_2_encoding(d) {
        lemma_order_width_2(c, d);
        if x[0] < y[0] {
            0
        } else {
            1
        }
    } else if has_width_3_encoding(c) && has_width_3_encoding(d) {
        lemma_order_width_3(c, d);
        if x[0] < y[0] {
            0
        } else if x[1] < y[1] {
            1
        } else {
            2
        }
    } else if has_width_4_encoding(c) && has_width_4_encoding(d) {
        lemma_order_width_4(c, d);
        if x[0] < y[0] {
            0
        } else if x[1] < y[1] {
            1
        } else if x[2] < y[2] {
            2
        } else {
            3
        }
    } else {
        0
    }
}

/// The order of two strings code point by code point is the order of their
/// UTF-8 encodings byte by byte.
pub proof fn lemma_text_order_is_byte_order(a: Seq<char>, b: Seq<char>)
    ensures
        text_le(a, b) == bytes_le(encode_utf8(a), encode_utf8(b)),
    decreases a.len(),
{
    if a.len() > 0 && b.len() > 0 {
        let c = a[0] as u32;
        let d = b[0] as u32;
        char_is_scalar(a[0]);
        char_is_scalar(b[0]);
        let p = encode_utf8(a.drop_first());
        let q = encode_utf8(b.drop_first());
        lemma_text_order_is_byte_order(a.drop_first(), b.drop_first());
        if c == d {
            lemma_code_tells_apart(a[0], b[0]);
            lemma_shared_prefix(encode_scalar(c), p, q);
        } else if c < d {
            let k = lemma_scalar_order(c, d);
            lemma_parting_decides(encode_scalar(c), encode_scalar(d), k, p, q);
        } else {
            let k = lemma_scalar_order(d, c);
            lemma_parting_decides(encode_scalar(d), encode_scalar(c), k, q, p);
        }
    } else if a.len() > 0 {
        char_is_scalar(a[0]);
        assert(encode_scalar(a[0] as u32).len() > 0);
    }
}

} // verus!
