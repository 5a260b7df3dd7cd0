//! Laws of the store: what the operations of [`crate::database::Database`]
//! promise one by one, taken together. A law on records is stated once, of
//! the table of any kind of record; in a [`crate::vault::Vault`] the tables
//! are the fields `passwords`, `events` and `documents`, and adding,
//! updating and deleting are `insert`, [`revised`] and `remove` on them.

use vstd::prelude::*;
use vstd::seq_lib::seq_to_set_is_finite;
use crate::records::Record;
use crate::vault::lemma_vault_ext;
use crate::vault::lists;
use crate::vault::revised;
use crate::vault::Vault;

verus! {

/// Add, then list: a listing of the table to which a record has been added
/// holds that record at one place, and at no other.
pub proof fn law_added_is_listed_once<R: Record>(
    table: Map<Seq<char>, R>,
    added: R,
    listing: Seq<R>,
) -> (at: int)
    requires
        lists(table.insert(added.key(), added), listing),
    ensures
        0 <= at < listing.len(),
        listing[at] == added,
        forall|j: int| 0 <= j < listing.len() && #[trigger] listing[j] == added ==> j == at,
{
    let after = table.insert(added.key(), added);
    assert(after.contains_key(added.key()));
    let at = choose|i: int| 0 <= i < listing.len() && (#[trigger] listing[i]).key() == added.key();
    assert(after[listing[at].key()] == listing[at]);
    assert forall|j: int| 0 <= j < listing.len() && #[trigger] listing[j] == added implies j
        == at by {
        if j < at {
            assert(listing[j].key() != listing[at].key());
        } else if at < j {
            assert(listing[at].key() != listing[j].key());
        }
    }
    at
}

/// Two adds under different ids, in either order: they leave the same
/// table, and a listing of it holds each of the two records at one place,
/// and the two at different places.
pub proof fn law_two_adds_in_either_order<R: Record>(
    table: Map<Seq<char>, R>,
    first: R,
    second: R,
    listing: Seq<R>,
) -> (at: (int, int))
    requires
        first.key() != second.key(),
        lists(table.insert(first.key(), first).insert(second.key(), second), listing),
    ensures
        table.insert(first.key(), first).insert(second.key(), second) == table.insert(
            second.key(),
            second,
        ).insert(first.key(), first),
        0 <= at.0 < listing.len(),
        0 <= at.1 < listing.len(),
        at.0 != at.1,
        listing[at.0] == first,
        listing[at.1] == second,
        forall|j: int| 0 <= j < listing.len() && #[trigger] listing[j] == first ==> j == at.0,
        forall|j: int| 0 <= j < listing.len() && #[trigger] listing[j] == second ==> j == at.1,
{
    let one_way = table.insert(first.key(), first).insert(second.key(), second);
    let other_way = table.insert(second.key(), second).insert(first.key(), first);
    assert(one_way =~= other_way);
    let of_first = law_added_is_listed_once(table.insert(second.key(), second), first, listing);
    let of_second = law_added_is_listed_once(table.insert(first.key(), first), second, listing);
    (of_first, of_second)
}

/// An update under an id that the table does not hold changes nothing: the
/// table has the records it had, and as many.
pub proof fn law_update_of_absent_is_void<R: Record>(table: Map<Seq<char>, R>, given: R)
    requires
        !table.contains_key(given.key()),
    ensures
        revised(table, given) == table,
{
}

/// An update of a record that the table holds puts the given one in its
/// place, keeps the `created_at` that was stored, and touches no other.
pub proof fn law_update_of_stored<R: Record>(table: Map<Seq<char>, R>, given: R)
    requires
        table.contains_key(given.key()),
    ensures
        revised(table, given)[given.key()] == given.replacing(table[given.key()]),
        revised(table, given).dom() == table.dom(),
        forall|id: Seq<char>|
            id != given.key() && table.contains_key(id) ==> #[trigger] revised(table, given)[id]
                == table[id],
{
    assert(revised(table, given).dom() =~= table.dom());
}

/// Delete, then list: no listing of the table holds a record with the id
/// that was deleted.
pub proof fn law_deleted_is_not_listed<R: Record>(
    table: Map<Seq<char>, R>,
    id: Seq<char>,
    listing: Seq<R>,
)
    requires
        lists(table.remove(id), listing),
    ensures
        forall|i: int| 0 <= i < listing.len() ==> (#[trigger] listing[i]).key() != id,
{
    let after = table.remove(id);
    assert forall|i: int| 0 <= i < listing.len() implies (#[trigger] listing[i]).key() != id by {
        assert(after.contains_key(listing[i].key()));
    }
}

/// To delete twice is to delete once, and to delete what is not there is
/// to do nothing.
pub proof fn law_delete_is_idempotent<R: Record>(table: Map<Seq<char>, R>, id: Seq<char>)
    ensures
        table.remove(id).remove(id) == table.remove(id),
        !table.contains_key(id) ==> table.remove(id) == table,
{
    assert(table.remove(id).remove(id) =~= table.remove(id));
    if !table.contains_key(id) {
        assert(table.remove(id) =~= table);
    }
}

/// A listing has as many records as the table holds, which are finitely
/// many. An empty table has the empty listing.
pub proof fn law_listing_counts<R: Record>(table: Map<Seq<char>, R>, listing: Seq<R>)
    requires
        lists(table, listing),
    ensures
        table.dom().finite(),
        table.dom().len() == listing.len(),
{
    let ids = listing.map_values(|r: R| r.key());
    assert forall|i: int, j: int| 0 <= i < ids.len() && 0 <= j < ids.len() && i != j implies ids[i]
        != ids[j] by {
        if i < j {
            assert(listing[i].key() != listing[j].key());
        } else {
            assert(listing[j].key() != listing[i].key());
        }
    }
    assert forall|id: Seq<char>| ids.to_set().contains(id) <==> table.dom().contains(id) by {
        if ids.to_set().contains(id) {
            let i = choose|i: int| 0 <= i < ids.len() && ids[i] == id;
            assert(table.contains_key(listing[i].key()));
        }
        if table.contains_key(id) {
            let i = choose|i: int| 0 <= i < listing.len() && (#[trigger] listing[i]).key() == id;
            assert(ids[i] == id);
        }
    }
    assert(ids.to_set() =~= table.dom());
    ids.unique_seq_to_set();
    seq_to_set_is_finite(ids);
}

/// Write, then read: the row of a record can be read, and reads as that
/// record.
pub proof fn law_row_reads_back<R: Record>(given: R)
    ensures
        R::readable(given.cells()),
        R::of_row(given.key(), given.cells()) == given,
{
    given.lemma_written();
}

/// Set, set, get: of two values stored under one key the second is the one
/// that is found, and the store is as if the first had never been set.
pub proof fn law_setting_is_overwritten(
    before: Vault,
    key: Seq<char>,
    first: Seq<char>,
    second: Seq<char>,
)
    ensures
        before.with_setting(key, first).with_setting(key, second).setting(key) == Some(second),
        before.with_setting(key, first).with_setting(key, second) == before.with_setting(
            key,
            second,
        ),
{
    lemma_vault_ext(
        before.with_setting(key, first).with_setting(key, second),
        before.with_setting(key, second),
    );
}

/// Setting one key leaves the setting under every other key as it was.
pub proof fn law_setting_leaves_others(
    before: Vault,
    key: Seq<char>,
    value: Seq<char>,
    other: Seq<char>,
)
    requires
        other != key,
    ensures
        before.with_setting(key, value).setting(other) == before.setting(other),
{
}

} // verus!
