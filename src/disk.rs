use vstd::prelude::*;

use crate::usage::{percent_ratio, usage_percent, Ratio};

verus! {

/// Bytes per inode assumed when the inode count is estimated from the size.
pub const BYTES_PER_INODE: u64 = 4096;

/// What the platform reports for one mounted filesystem.
#[derive(Clone, Debug)]
pub struct DiskReading {
    pub mount_point: String,
    pub total_space: u64,
    pub available_space: u64,
}

/// The values written into the disk space gauges on one pass.
#[derive(Clone, Copy, Debug, PartialEq, Eq, Structural)]
pub struct DiskFigures {
    pub usage_percent: Ratio,
    pub total_bytes: u64,
    pub used_bytes: u64,
    pub available_bytes: u64,
    pub inodes_total: u64,
    pub inodes_used: u64,
}

pub open spec fn is_root_mount(mount: Seq<char>) -> bool {
    mount == seq!['/']
}

/// The disk to report on: the first one mounted at `/`, else the first one listed.
pub open spec fn chosen_disk(disks: Seq<DiskReading>) -> Option<int> {
    if exists|i: int| 0 <= i < disks.len() && is_root_mount(#[trigger] disks[i].mount_point@) {
        Some(
            choose|i: int|
                0 <= i < disks.len() && is_root_mount(disks[i].mount_point@) && forall|j: int|
                    0 <= j < i ==> !is_root_mount(#[trigger] disks[j].mount_point@),
        )
    } else if disks.len() > 0 {
        Some(0)
    } else {
        None
    }
}

/// Used space; a reading whose available space exceeds its total counts as empty.
pub open spec fn used_space(d: DiskReading) -> int {
    if d.available_space >= d.total_space {
        0
    } else {
        d.total_space - d.available_space
    }
}

/// The estimated inode counts: one inode per `BYTES_PER_INODE` bytes, and as large
/// a share of them in use as of the bytes (rounded down).
pub open spec fn inodes_total_of(d: DiskReading) -> int {
    d.total_space as int / BYTES_PER_INODE as int
}

pub open spec fn inodes_used_of(d: DiskReading) -> int {
    if d.total_space == 0 {
        0
    } else {
        inodes_total_of(d) * used_space(d) / d.total_space as int
    }
}

pub open spec fn figures_match(f: DiskFigures, d: DiskReading) -> bool {
    &&& f.usage_percent == percent_ratio(used_space(d), d.total_space as int)
    &&& f.usage_percent.wf()
    &&& (d.total_space == 0 ==> f.usage_percent.num == 0)
    &&& (d.total_space > 0 ==> f.usage_percent.equals(100 * used_space(d), d.total_space as int))
    &&& f.usage_percent.num <= 100 * f.usage_percent.den
    &&& f.total_bytes == d.total_space
    &&& f.used_bytes == used_space(d)
    &&& f.available_bytes == d.available_space
    &&& f.inodes_total == inodes_total_of(d)
    &&& f.inodes_used == inodes_used_of(d)
}

/// The values reported when no disk can be read: 45 of 100 GB in use.
pub open spec fn is_fallback(f: DiskFigures) -> bool {
    &&& f.usage_percent == Ratio { num: 45, den: 1 }
    &&& f.total_bytes == 100_000_000_000
    &&& f.used_bytes == 45_000_000_000
    &&& f.available_bytes == 55_000_000_000
    &&& f.inodes_total == 25_600_000
    &&& f.inodes_used == 11_520_000
}

pub fn is_root(mount: &String) -> (r: bool)
    ensures
        r == is_root_mount(mount@),
{
    proof {
        reveal_strlit("/");
    }
    let root = "/".to_owned();
    assert(root@ =~= seq!['/']);
    *mount == root
}

/// Index of the disk to report on: the first mounted at `/`, else the first listed.
pub fn select_disk(disks: &Vec<DiskReading>) -> (r: Option<usize>)
    ensures
        match r {
            Some(i) => i < disks.len() && chosen_disk(disks@) == Some(i as int),
            None => chosen_disk(disks@) is None,
        },
{
    let mut i: usize = 0;
    while i < disks.len()
        invariant
            i <= disks.len(),
            forall|j: int| 0 <= j < i ==> !is_root_mount(#[trigger] disks@[j].mount_point@),
        decreases disks.len() - i,
    {
        if is_root(&disks[i].mount_point) {
            let ghost ds = disks@;
            proof {
                assert(is_root_mount(ds[i as int].mount_point@));
                let c = choose|k: int|
                    0 <= k < ds.len() && is_root_mount(ds[k].mount_point@) && forall|j: int|
                        0 <= j < k ==> !is_root_mount(#[trigger] ds[j].mount_point@);
                assert(0 <= c < ds.len() && is_root_mount(ds[c].mount_point@));
                assert(c == i as int) by {
                    if c < i as int {
                        assert(!is_root_mount(ds[c].mount_point@));
                    } else if c > i as int {
                        assert(!is_root_mount(ds[i as int].mount_point@));
                    }
                }
            }
            return Some(i);
        }
        i += 1;
    }
    if disks.len() > 0 {
        Some(0)
    } else {
        None
    }
}

/// The gauge values derived from one disk reading.
pub fn disk_figures(d: &DiskReading) -> (r: DiskFigures)
    ensures
        figures_match(r, *d),
{
    let total = d.total_space;
    let used = total.saturating_sub(d.available_space);
    let inodes_total = total / BYTES_PER_INODE;
    let inodes_used: u64 = if total == 0 {
        0
    } else {
        assert((inodes_total as int) * (used as int) <= 0xffff_ffff_ffff_ffff * 0xffff_ffff_ffff_ffff)
            by (nonlinear_arith)
            requires
                inodes_total <= 0xffff_ffff_ffff_ffffu64,
                used <= 0xffff_ffff_ffff_ffffu64,
        ;
        let prod: u128 = (inodes_total as u128) * (used as u128);
        let q: u128 = prod / (total as u128);
        proof {
            assert(used <= total);
            assert(inodes_total <= total);
            assert(prod as int <= (total as int) * (used as int)) by (nonlinear_arith)
                requires
                    prod as int == inodes_total as int * used as int,
                    inodes_total <= total,
            ;
            assert(q <= used) by (nonlinear_arith)
                requires
                    q as int == prod as int / (total as int),
                    prod as int <= (total as int) * (used as int),
                    total > 0,
            ;
        }
        q as u64
    };
    DiskFigures {
        usage_percent: usage_percent(used, total),
        total_bytes: total,
        used_bytes: used,
        available_bytes: d.available_space,
        inodes_total,
        inodes_used,
    }
}

pub fn fallback_figures() -> (r: DiskFigures)
    ensures
        is_fallback(r),
{
    DiskFigures {
        usage_percent: Ratio { num: 45, den: 1 },
        total_bytes: 100_000_000_000,
        used_bytes: 45_000_000_000,
        available_bytes: 55_000_000_000,
        inodes_total: 25_600_000,
        inodes_used: 11_520_000,
    }
}

/// The disk space gauges for one pass: those of the chosen disk, or the fallback
/// values when the platform lists no disk.
pub fn collect_disk(disks: &Vec<DiskReading>) -> (r: DiskFigures)
    ensures
        match chosen_disk(disks@) {
            Some(i) => figures_match(r, disks@[i]),
            None => is_fallback(r),
        },
{
    match select_disk(disks) {
        Some(i) => disk_figures(&disks[i]),
        None => fallback_figures(),
    }
}

} // verus!
