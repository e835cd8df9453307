//! Diagnostics: whether the volume that holds a path has room enough. The
//! caller lists the mounted volumes; the verdict is decided here.

use vstd::prelude::*;
use crate::error::{Error, ErrorView};
use crate::hash::outcome_view;
use crate::text::{chars_start_with, str_chars};

verus! {

/// A mounted volume: where it is mounted, and how many bytes are free on it.
#[derive(Debug, Clone, PartialEq, Eq)]
pub struct DiskInfo {
    pub mount_point: String,
    pub available: u64,
}

/// Whether `i` is the first volume in the list whose mount point the path
/// begins with.
pub open spec fn is_first_mount(disks: Seq<DiskInfo>, path: Seq<char>, i: int) -> bool {
    &&& 0 <= i < disks.len()
    &&& disks[i].mount_point@.is_prefix_of(path)
    &&& forall|j: int| 0 <= j < i ==> !(#[trigger] disks[j]).mount_point@.is_prefix_of(path)
}

/// What the check yields: an objection exactly when the first volume that
/// holds the path has fewer free bytes than required. A path that no listed
/// volume holds is not objected to.
pub open spec fn disk_space_checked(
    disks: Seq<DiskInfo>,
    path: Seq<char>,
    required: u64,
    r: Result<(), ErrorView>,
) -> bool {
    match r {
        Ok(()) => forall|i: int| #[trigger]
            is_first_mount(disks, path, i) ==> disks[i].available >= required,
        Err(e) => exists|i: int| #[trigger]
            is_first_mount(disks, path, i) && disks[i].available < required && e == (
            ErrorView::InsufficientDiskSpace { available: disks[i].available, required }),
    }
}

/// Checks that the volume holding `path` has at least `required_bytes` free.
pub fn check_disk_space(disks: &Vec<DiskInfo>, path: &str, required_bytes: u64) -> (r: Result<
    (),
    Error,
>)
    ensures
        disk_space_checked(disks@, path@, required_bytes, outcome_view(r)),
{
    let p = str_chars(path);
    let mut i: usize = 0;
    while i < disks.len()
        invariant
            i <= disks@.len(),
            p@ == path@,
            forall|j: int| 0 <= j < i ==> !(#[trigger] disks@[j]).mount_point@.is_prefix_of(path@),
        decreases disks@.len() - i,
    {
        let m = str_chars(disks[i].mount_point.as_str());
        if chars_start_with(p.as_slice(), m.as_slice()) {
            proof {
                assert(is_first_mount(disks@, path@, i as int));
                assert forall|k: int| #[trigger] is_first_mount(disks@, path@, k) implies k == i by {
                    if k < i {
                        assert(!disks@[k].mount_point@.is_prefix_of(path@));
                    }
                }
            }
            let available = disks[i].available;
            if available >= required_bytes {
                return Ok(());
            }
            return Err(Error::InsufficientDiskSpace { available, required: required_bytes });
        }
        i += 1;
    }
    Ok(())
}

} // verus!
