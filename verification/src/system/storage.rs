//! Which disk a destination lies on, and what kind of target it is.
use vstd::prelude::*;
use vstd::string::*;
use crate::text::{seq_contains, seq_starts_with, str_contains, str_starts_with, to_lowercase, unicode_lowercase};

verus! {

broadcast use vstd::string::group_string_axioms;

/// A Google Drive remote rather than a local path.
pub open spec fn is_cloud_path(p: Seq<char>) -> bool {
    seq_starts_with(p, "gdrive:"@) || seq_starts_with(p, "gdrive,"@)
}

/// Whether a storage target is the Google Drive remote, which has no local
/// disk to inspect.
pub fn is_cloud_target(path: &str) -> (res: bool)
    ensures
        res == is_cloud_path(path@),
{
    str_starts_with(path, "gdrive:") || str_starts_with(path, "gdrive,")
}

/// What a storage inspection reports, but for the sizes in GiB.
pub struct StorageSummary {
    pub path: String,
    pub mount_point: String,
    pub total_bytes: u64,
    pub free_bytes: u64,
    pub file_system: String,
    pub is_writable: bool,
    pub is_fat32: bool,
    pub error: Option<String>,
}

/// The report for the Google Drive remote: a writable cloud target with no
/// local disk, no sizes, not FAT, no error.
pub fn cloud_storage_summary(path: &str) -> (res: StorageSummary)
    ensures
        res.path@ == path@,
        res.mount_point@ == "Google Drive (Cloud)"@,
        res.total_bytes == 0,
        res.free_bytes == 0,
        res.file_system@ == "Cloud"@,
        res.is_writable,
        !res.is_fat32,
        res.error is None,
{
    StorageSummary {
        path: path.to_string(),
        mount_point: String::from_str("Google Drive (Cloud)"),
        total_bytes: 0,
        free_bytes: 0,
        file_system: String::from_str("Cloud"),
        is_writable: true,
        is_fat32: false,
        error: None,
    }
}

/// A disk's mount point as the inspected path sees it.
pub struct MountCandidate {
    /// The path (as given, or resolved) lies under the mount point.
    pub contains_path: bool,
    /// The length of the mount point's path.
    pub mount_len: usize,
}

pub open spec fn eligible(c: MountCandidate) -> bool {
    c.contains_path && c.mount_len > 0
}

/// The disk a path lies on: among the mounts that contain it, the one with
/// the longest mount point, the first of equals; none if no mount (other
/// than an empty one) contains it.
pub open spec fn best_mount_spec(cs: Seq<MountCandidate>, r: Option<usize>) -> bool {
    match r {
        None => forall|j: int| 0 <= j < cs.len() ==> !eligible(#[trigger] cs[j]),
        Some(i) => {
            &&& i < cs.len()
            &&& eligible(cs[i as int])
            &&& forall|j: int| 0 <= j < cs.len() && #[trigger] cs[j].contains_path ==> cs[j].mount_len
                <= cs[i as int].mount_len
            &&& forall|j: int| 0 <= j < i && #[trigger] cs[j].contains_path ==> cs[j].mount_len
                < cs[i as int].mount_len
        },
    }
}

pub fn best_mount(cs: &Vec<MountCandidate>) -> (res: Option<usize>)
    ensures
        best_mount_spec(cs@, res),
{
    let mut best: Option<usize> = None;
    let mut best_len: usize = 0;
    let mut k: usize = 0;
    while k < cs.len()
        invariant
            k <= cs.len(),
            match best {
                None => best_len == 0 && forall|j: int| 0 <= j < k ==> !eligible(#[trigger] cs@[j]),
                Some(i) => {
                    &&& i < k
                    &&& eligible(cs@[i as int])
                    &&& best_len == cs@[i as int].mount_len
                    &&& forall|j: int| 0 <= j < k && #[trigger] cs@[j].contains_path ==> cs@[j].mount_len
                        <= best_len
                    &&& forall|j: int| 0 <= j < i && #[trigger] cs@[j].contains_path ==> cs@[j].mount_len
                        < best_len
                },
            },
        decreases cs.len() - k,
    {
        let c = &cs[k];
        if c.contains_path && c.mount_len > best_len {
            best = Some(k);
            best_len = c.mount_len;
        }
        k = k + 1;
    }
    best
}

/// A FAT file system (its name, in any letter case, mentions `fat`).
pub open spec fn is_fat_name(fs: Seq<char>) -> bool {
    seq_contains(unicode_lowercase(fs), "fat"@) || seq_contains(unicode_lowercase(fs), "vfat"@)
}

/// Whether a file-system name denotes FAT, whose 4 GiB file-size limit
/// matters for large media.
pub fn is_fat_filesystem(fs: &str) -> (res: bool)
    ensures
        res == is_fat_name(fs@),
{
    let lower = to_lowercase(fs);
    str_contains(lower.as_str(), "fat") || str_contains(lower.as_str(), "vfat")
}

} // verus!
