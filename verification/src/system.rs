//! A report on the host system, put together from what a probe of the
//! system found. The probe itself is the caller's business; nothing here
//! touches the store.

use vstd::prelude::*;

verus! {

/// Size and free space of one disk, in bytes.
#[derive(Debug, Clone, Copy, PartialEq, Eq)]
pub struct DiskSpace {
    pub total: u64,
    pub available: u64,
}

/// What a probe of the host found. A name that could not be found is `None`;
/// `cpu_brands` has the brand string of every CPU core, in the system's
/// order.
#[derive(Debug, Clone, PartialEq, Eq)]
pub struct HostProbe {
    pub os_name: Option<String>,
    pub os_version: Option<String>,
    pub kernel_version: Option<String>,
    pub hostname: Option<String>,
    pub cpu_brands: Vec<String>,
    pub total_memory: u64,
    pub used_memory: u64,
    pub disks: Vec<DiskSpace>,
}

/// The report on the host system.
#[derive(Debug, Clone, PartialEq, Eq)]
pub struct SystemInfo {
    pub os_name: String,
    pub os_version: String,
    pub kernel_version: String,
    pub hostname: String,
    pub cpu_name: String,
    pub cpu_cores: usize,
    pub total_memory: u64,
    pub used_memory: u64,
    pub total_disk: u64,
    pub used_disk: u64,
}

/// The text that stands for a name that could not be found.
pub open spec fn unknown() -> Seq<char> {
    "Unknown"@
}

/// A name, or [`unknown`] in its place.
pub open spec fn or_unknown(name: Option<String>) -> Seq<char> {
    match name {
        Some(s) => s@,
        None => unknown(),
    }
}

/// The sizes of the disks, added up.
pub open spec fn total_space(disks: Seq<DiskSpace>) -> int
    decreases disks.len(),
{
    if disks.len() == 0 {
        0
    } else {
        total_space(disks.drop_last()) + disks.last().total
    }
}

/// The free space of the disks, added up.
pub open spec fn available_space(disks: Seq<DiskSpace>) -> int
    decreases disks.len(),
{
    if disks.len() == 0 {
        0
    } else {
        available_space(disks.drop_last()) + disks.last().available
    }
}

/// The space in use on the disks: all of it less what is free, and zero
/// where more is reported free than there is.
pub open spec fn used_space(disks: Seq<DiskSpace>) -> int {
    if total_space(disks) >= available_space(disks) {
        total_space(disks) - available_space(disks)
    } else {
        0
    }
}

/// Both sums over the disks fit in 64 bits.
pub open spec fn countable(disks: Seq<DiskSpace>) -> bool {
    total_space(disks) <= u64::MAX && available_space(disks) <= u64::MAX
}

/// The sums over a prefix of the disks are at most the sums over all.
pub proof fn lemma_space_grows(disks: Seq<DiskSpace>, n: int)
    requires
        0 <= n <= disks.len(),
    ensures
        0 <= total_space(disks.take(n)) <= total_space(disks),
        0 <= available_space(disks.take(n)) <= available_space(disks),
    decreases disks.len() - n,
{
    if n == disks.len() {
        assert(disks.take(n) =~= disks);
        lemma_space_nonnegative(disks);
    } else {
        lemma_space_grows(disks, n + 1);
        assert(disks.take(n + 1).drop_last() =~= disks.take(n));
        lemma_space_nonnegative(disks.take(n));
    }
}

/// Neither sum is negative.
pub proof fn lemma_space_nonnegative(disks: Seq<DiskSpace>)
    ensures
        0 <= total_space(disks),
        0 <= available_space(disks),
    decreases disks.len(),
{
    if disks.len() > 0 {
        lemma_space_nonnegative(disks.drop_last());
    }
}

/// Total and free space of all disks together, or `None` where one of the
/// two sums does not fit in 64 bits.
pub fn disk_usage(disks: &Vec<DiskSpace>) -> (r: Option<(u64, u64)>)
    ensures
        r is Some <==> countable(disks@),
        r matches Some((total, available)) ==> total == total_space(disks@) && available
            == available_space(disks@),
{
    let mut total: u64 = 0;
    let mut available: u64 = 0;
    let mut i: usize = 0;
    while i < disks.len()
        invariant
            i <= disks.len(),
            total == total_space(disks@.take(i as int)),
            available == available_space(disks@.take(i as int)),
        decreases disks.len() - i,
    {
        proof {
            assert(disks@.take(i + 1).drop_last() =~= disks@.take(i as int));
            lemma_space_grows(disks@, i + 1);
        }
        total = match total.checked_add(disks[i].total) {
            Some(sum) => sum,
            None => { return None; },
        };
        available = match available.checked_add(disks[i].available) {
            Some(sum) => sum,
            None => { return None; },
        };
        i += 1;
    }
    assert(disks@.take(i as int) =~= disks@);
    Some((total, available))
}

/// The name, or the text `Unknown` where there is none.
pub fn name_or_unknown(name: Option<String>) -> (s: String)
    ensures
        s@ == or_unknown(name),
{
    match name {
        Some(s) => s,
        None => "Unknown".to_owned(),
    }
}

/// Puts the report together: names fall back to `Unknown`, the CPU name is
/// the brand of the first core, the core count is the number of cores, and
/// the disks are added up.
pub fn get_system_info(probe: HostProbe) -> (r: Result<SystemInfo, String>)
    requires
        countable(probe.disks@),
    ensures
        r matches Ok(info) && {
            &&& info.os_name@ == or_unknown(probe.os_name)
            &&& info.os_version@ == or_unknown(probe.os_version)
            &&& info.kernel_version@ == or_unknown(probe.kernel_version)
            &&& info.hostname@ == or_unknown(probe.hostname)
            &&& info.cpu_name@ == (if probe.cpu_brands.len() > 0 {
                probe.cpu_brands[0]@
            } else {
                unknown()
            })
            &&& info.cpu_cores == probe.cpu_brands.len()
            &&& info.total_memory == probe.total_memory
            &&& info.used_memory == probe.used_memory
            &&& info.total_disk == total_space(probe.disks@)
            &&& info.used_disk == used_space(probe.disks@)
        },
{
    let (total_disk, available) = disk_usage(&probe.disks).unwrap();
    let cpu_name = if probe.cpu_brands.len() > 0 {
        probe.cpu_brands[0].clone()
    } else {
        "Unknown".to_owned()
    };
    Ok(
        SystemInfo {
            os_name: name_or_unknown(probe.os_name),
            os_version: name_or_unknown(probe.os_version),
            kernel_version: name_or_unknown(probe.kernel_version),
            hostname: name_or_unknown(probe.hostname),
            cpu_name,
            cpu_cores: probe.cpu_brands.len(),
            total_memory: probe.total_memory,
            used_memory: probe.used_memory,
            total_disk,
            used_disk: total_disk.saturating_sub(available),
        },
    )
}

} // verus!
