//! The canonical record for one visited filesystem node.

use vstd::prelude::*;

verus! {

/// A point in time, as a duration since the Unix epoch: whole seconds plus
/// the nanosecond remainder.
#[derive(Clone, Copy, PartialEq, Eq, Structural, Debug)]
pub struct Timestamp {
    pub secs: u64,
    pub nanos: u32,
}

/// Mathematical image of a `DirEntry`: every text field as a sequence of
/// characters.
pub ghost struct DirEntryView {
    pub path: Seq<char>,
    pub is_symlink: bool,
    pub is_dir: bool,
    pub is_file: bool,
    pub digest: Seq<char>,
    pub st_ctime: Option<Timestamp>,
    pub st_mtime: Option<Timestamp>,
    pub st_atime: Option<Timestamp>,
    pub st_size: u64,
    pub st_blksize: u64,
    pub st_blocks: u64,
    pub st_mode: u32,
    pub st_nlink: u64,
    pub st_uid: u32,
    pub st_gid: u32,
    pub st_ino: u64,
    pub st_dev: u64,
    pub st_rdev: u64,
}

/// One visited filesystem node: its path relative to the scan root, type
/// flags, optional content digest, timestamps and stat metadata.  Timestamps
/// are absent when the provider could not supply them; stat fields default to
/// zero (block size to 4096) in that case.
pub struct DirEntry {
    pub path: String,
    pub is_symlink: bool,
    pub is_dir: bool,
    pub is_file: bool,
    pub digest: String,
    /// Creation time, if available.
    pub st_ctime: Option<Timestamp>,
    /// Modification time, if available.
    pub st_mtime: Option<Timestamp>,
    /// Access time, if available.
    pub st_atime: Option<Timestamp>,
    /// Size of file / entry
    pub st_size: u64,
    /// File system block size
    pub st_blksize: u64,
    /// Number of used blocks on device / file system
    pub st_blocks: u64,
    /// File access mode / rights
    pub st_mode: u32,
    /// Number of hardlinks
    pub st_nlink: u64,
    /// User ID (Unix only)
    pub st_uid: u32,
    /// Group ID (Unix only)
    pub st_gid: u32,
    /// I-Node number (Unix only)
    pub st_ino: u64,
    /// Device number (Unix only)
    pub st_dev: u64,
    /// Device number (for character and block devices on Unix).
    pub st_rdev: u64,
}

impl View for DirEntry {
    type V = DirEntryView;

    open spec fn view(&self) -> DirEntryView {
        DirEntryView {
            path: self.path@,
            is_symlink: self.is_symlink,
            is_dir: self.is_dir,
            is_file: self.is_file,
            digest: self.digest@,
            st_ctime: self.st_ctime,
            st_mtime: self.st_mtime,
            st_atime: self.st_atime,
            st_size: self.st_size,
            st_blksize: self.st_blksize,
            st_blocks: self.st_blocks,
            st_mode: self.st_mode,
            st_nlink: self.st_nlink,
            st_uid: self.st_uid,
            st_gid: self.st_gid,
            st_ino: self.st_ino,
            st_dev: self.st_dev,
            st_rdev: self.st_rdev,
        }
    }
}

/// Whole seconds since the epoch of an optional timestamp; an absent one
/// counts as the epoch itself.  Clamped into `i64`.
pub open spec fn spec_time_secs(t: Option<Timestamp>) -> i64 {
    match t {
        Some(ts) => if ts.secs > i64::MAX as u64 {
            i64::MAX
        } else {
            ts.secs as i64
        },
        None => 0,
    }
}

impl DirEntry {
    /// Creation time in whole seconds since the epoch (0 when unavailable).
    pub fn ctime(&self) -> (r: i64)
        ensures
            r == spec_time_secs(self.st_ctime),
    {
        time_secs(&self.st_ctime)
    }

    /// Modification time in whole seconds since the epoch (0 when unavailable).
    pub fn mtime(&self) -> (r: i64)
        ensures
            r == spec_time_secs(self.st_mtime),
    {
        time_secs(&self.st_mtime)
    }

    /// Access time in whole seconds since the epoch (0 when unavailable).
    pub fn atime(&self) -> (r: i64)
        ensures
            r == spec_time_secs(self.st_atime),
    {
        time_secs(&self.st_atime)
    }

    /// Duplicates the entry; the copy has the same view.
    pub fn duplicate(&self) -> (r: DirEntry)
        ensures
            r@ == self@,
    {
        DirEntry {
            path: clone_string(&self.path),
            is_symlink: self.is_symlink,
            is_dir: self.is_dir,
            is_file: self.is_file,
            digest: clone_string(&self.digest),
            st_ctime: self.st_ctime,
            st_mtime: self.st_mtime,
            st_atime: self.st_atime,
            st_size: self.st_size,
            st_blksize: self.st_blksize,
            st_blocks: self.st_blocks,
            st_mode: self.st_mode,
            st_nlink: self.st_nlink,
            st_uid: self.st_uid,
            st_gid: self.st_gid,
            st_ino: self.st_ino,
            st_dev: self.st_dev,
            st_rdev: self.st_rdev,
        }
    }
}

fn time_secs(t: &Option<Timestamp>) -> (r: i64)
    ensures
        r == spec_time_secs(*t),
{
    match t {
        Some(ts) => if ts.secs > i64::MAX as u64 {
            i64::MAX
        } else {
            ts.secs as i64
        },
        None => 0,
    }
}

/// Copies a string; the copy has the same characters.
pub fn clone_string(s: &String) -> (r: String)
    ensures
        r@ == s@,
{
    s.clone()
}

} // verus!
