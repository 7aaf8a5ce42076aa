//! Disk collector: applies the inclusion policy to the reported volumes and
//! derives a usage percentage for each one kept.
//!
//! A volume is kept when it has a total capacity above zero, its mount point
//! is not under the reserved system mount namespace, and no earlier eligible
//! volume carried the same device name (the same physical disk must not be
//! listed under multiple mount aliases).

use vstd::prelude::*;

use crate::model::{DiskStats, DiskStatsV};
use crate::monitor::RawDisk;
use crate::spec_usage_percent;
use crate::text::{chars_starts_with, str_eq, str_to_chars};
use crate::usage_centi_percent;

verus! {

/// A volume meets the size and mount-point conditions of the inclusion
/// policy.
pub open spec fn eligible(d: RawDisk) -> bool {
    d.total_bytes > 0 && !"/System/Volumes"@.is_prefix_of(d.mount_point@)
}

/// Some eligible volume before index `i` carries the name `name`.
pub open spec fn name_seen_before(disks: Seq<RawDisk>, i: int, name: Seq<char>) -> bool {
    exists|j: int| 0 <= j < i && #[trigger] eligible(disks[j]) && disks[j].name@ == name
}

/// The volume at index `i` is kept: it is eligible and its name was not
/// carried by any earlier eligible volume.
pub open spec fn included(disks: Seq<RawDisk>, i: int) -> bool {
    eligible(disks[i]) && !name_seen_before(disks, i, disks[i].name@)
}

/// Bytes in use on a volume: total minus available, saturated at zero.
pub open spec fn spec_used_bytes(d: RawDisk) -> u64 {
    if d.available_bytes <= d.total_bytes {
        (d.total_bytes - d.available_bytes) as u64
    } else {
        0
    }
}

/// The entry one kept volume contributes.
pub open spec fn spec_disk_stats(d: RawDisk) -> DiskStatsV {
    DiskStatsV {
        name: d.name@,
        mount_point: d.mount_point@,
        total_bytes: d.total_bytes,
        available_bytes: d.available_bytes,
        usage_percent: spec_usage_percent(spec_used_bytes(d), d.total_bytes),
    }
}

/// The entries of all kept volumes, in reporting order.
pub open spec fn spec_disk_list(disks: Seq<RawDisk>) -> Seq<DiskStatsV>
    decreases disks.len(),
{
    if disks.len() == 0 {
        Seq::empty()
    } else {
        spec_disk_list(disks.drop_last()) + (if included(disks, disks.len() - 1) {
            seq![spec_disk_stats(disks.last())]
        } else {
            Seq::empty()
        })
    }
}

/// Law: a kept volume's usage percentage is 0 when its capacity is 0 and
/// never exceeds 100% otherwise — the saturating subtraction keeps the used
/// bytes within the total, and the arithmetic does the rest without an
/// explicit clamp.
pub proof fn lemma_disk_percent_bounded(d: RawDisk)
    ensures
        d.total_bytes == 0 ==> spec_disk_stats(d).usage_percent == 0,
        spec_disk_stats(d).usage_percent <= 10000,
{
    crate::lemma_usage_percent_bounded(spec_used_bytes(d), d.total_bytes);
}

/// Whether any name in `seen` equals `name`.
fn contains_name(seen: &Vec<String>, name: &String) -> (r: bool)
    ensures
        r == exists|k: int| 0 <= k < seen@.len() && #[trigger] seen@[k]@ == name@,
{
    let n = seen.len();
    let mut i: usize = 0;
    while i < n
        invariant
            n == seen@.len(),
            i <= n,
            forall|k: int| 0 <= k < i ==> #[trigger] seen@[k]@ != name@,
        decreases n - i,
    {
        if str_eq(seen[i].as_str(), name.as_str()) {
            return true;
        }
        i = i + 1;
    }
    false
}

/// Builds the disk fragment of a snapshot: one entry per reported volume that
/// meets the inclusion policy, in reporting order, each with its usage
/// percentage derived (0 for a zero-capacity volume).
pub fn collect(disks: &Vec<RawDisk>) -> (r: Vec<DiskStats>)
    ensures
        r@.map_values(|d: DiskStats| d@) == spec_disk_list(disks@),
{
    let reserved = str_to_chars("/System/Volumes");
    let mut seen: Vec<String> = Vec::new();
    let mut out: Vec<DiskStats> = Vec::new();
    let n = disks.len();
    let mut i: usize = 0;
    while i < n
        invariant
            n == disks@.len(),
            i <= n,
            reserved@ == "/System/Volumes"@,
            out@.map_values(|d: DiskStats| d@) == spec_disk_list(disks@.take(i as int)),
            forall|k: int|
                0 <= k < seen@.len() ==> name_seen_before(disks@, i as int, #[trigger] seen@[k]@),
            forall|j: int|
                0 <= j < i && #[trigger] eligible(disks@[j]) ==> exists|k: int|
                    0 <= k < seen@.len() && #[trigger] seen@[k]@ == disks@[j].name@,
        decreases n - i,
    {
        let d = &disks[i];
        let ghost prefix = disks@.take(i as int);
        let ghost prefix1 = disks@.take(i + 1);
        proof {
            assert(prefix1.drop_last() =~= prefix);
            assert(prefix1.last() == disks@[i as int]);
        }
        let mount = str_to_chars(d.mount_point.as_str());
        let is_eligible = d.total_bytes > 0 && !chars_starts_with(&mount, &reserved);
        if is_eligible {
            let dup = contains_name(&seen, &d.name);
            if !dup {
                let used = if d.available_bytes <= d.total_bytes {
                    d.total_bytes - d.available_bytes
                } else {
                    0
                };
                let usage_percent = usage_centi_percent(used, d.total_bytes);
                let entry = DiskStats {
                    name: d.name.clone(),
                    mount_point: d.mount_point.clone(),
                    total_bytes: d.total_bytes,
                    available_bytes: d.available_bytes,
                    usage_percent,
                };
                proof {
                    assert(entry@ == spec_disk_stats(disks@[i as int]));
                    assert(included(disks@, i as int));
                }
                out.push(entry);
                proof {
                    assert(out@.map_values(|x: DiskStats| x@) =~= spec_disk_list(prefix)
                        + seq![spec_disk_stats(disks@[i as int])]);
                    lemma_disk_list_step(disks@, i as int);
                }
            } else {
                proof {
                    assert(!included(disks@, i as int));
                    lemma_disk_list_step(disks@, i as int);
                }
            }
            let ghost seen0 = seen@;
            seen.push(d.name.clone());
            proof {
                assert(eligible(disks@[i as int]));
                assert forall|k: int| 0 <= k < seen@.len() implies name_seen_before(
                    disks@,
                    i + 1,
                    #[trigger] seen@[k]@,
                ) by {
                    if k < seen0.len() {
                        assert(seen@[k] == seen0[k]);
                        assert(name_seen_before(disks@, i as int, seen0[k]@));
                        let j = choose|j: int|
                            0 <= j < i && #[trigger] eligible(disks@[j]) && disks@[j].name@
                                == seen0[k]@;
                        assert(eligible(disks@[j]) && disks@[j].name@ == seen@[k]@);
                    } else {
                        assert(seen@[k]@ == disks@[i as int].name@);
                    }
                }
                assert forall|j: int| 0 <= j < i + 1 && #[trigger] eligible(disks@[j])
                    implies exists|k: int|
                    0 <= k < seen@.len() && #[trigger] seen@[k]@ == disks@[j].name@ by {
                    if j < i {
                        let k = choose|k: int|
                            0 <= k < seen0.len() && #[trigger] seen0[k]@ == disks@[j].name@;
                        assert(seen@[k]@ == disks@[j].name@);
                    } else {
                        assert(seen@[seen@.len() - 1]@ == disks@[j].name@);
                    }
                }
            }
        } else {
            proof {
                assert(!included(disks@, i as int));
                lemma_disk_list_step(disks@, i as int);
            }
        }
        i = i + 1;
    }
    proof {
        assert(disks@.take(n as int) =~= disks@);
    }
    out
}

/// Extending the scanned prefix by one volume appends that volume's entry
/// exactly when it is kept.
proof fn lemma_disk_list_step(disks: Seq<RawDisk>, i: int)
    requires
        0 <= i < disks.len(),
    ensures
        spec_disk_list(disks.take(i + 1)) == spec_disk_list(disks.take(i)) + (if included(
            disks,
            i,
        ) {
            seq![spec_disk_stats(disks[i])]
        } else {
            Seq::<DiskStatsV>::empty()
        }),
{
    let prefix1 = disks.take(i + 1);
    assert(prefix1.drop_last() =~= disks.take(i));
    assert(prefix1.last() == disks[i]);
    assert(included(prefix1, i) == included(disks, i)) by {
        assert(forall|j: int| 0 <= j < i ==> prefix1[j] == disks[j]);
        assert(prefix1[i] == disks[i]);
        if name_seen_before(prefix1, i, prefix1[i].name@) {
            let j = choose|j: int|
                0 <= j < i && #[trigger] eligible(prefix1[j]) && prefix1[j].name@
                    == prefix1[i].name@;
            assert(eligible(disks[j]) && disks[j].name@ == disks[i].name@);
        }
        if name_seen_before(disks, i, disks[i].name@) {
            let j = choose|j: int|
                0 <= j < i && #[trigger] eligible(disks[j]) && disks[j].name@ == disks[i].name@;
            assert(eligible(prefix1[j]) && prefix1[j].name@ == prefix1[i].name@);
        }
    }
    if spec_disk_list(prefix1) == spec_disk_list(disks.take(i)) {
    }
}

} // verus!
