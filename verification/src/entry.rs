//! The entry normalizer: turns a raw directory-provider record into the
//! canonical `DirEntry` shape, with the path made relative to the scan root
//! and the content digest attached for regular files.

use vstd::prelude::*;

use crate::digest::{digest_of, digest_of_content};
use crate::direntry::{clone_string, DirEntry, DirEntryView, Timestamp};
use crate::scandir_result::{ScandirResult, ScandirResultView};

verus! {

/// Timing and size metadata of a raw record, absent field by field when the
/// provider could not supply it.
#[derive(Clone, Copy, PartialEq, Eq, Structural, Debug)]
pub struct FileMeta {
    pub created: Option<Timestamp>,
    pub modified: Option<Timestamp>,
    pub accessed: Option<Timestamp>,
    pub size: u64,
}

/// Unix stat metadata of a raw record.
#[derive(Clone, Copy, PartialEq, Eq, Structural, Debug)]
pub struct FileMetaExt {
    pub st_mode: u32,
    pub st_ino: u64,
    pub st_dev: u64,
    pub st_nlink: u64,
    pub st_blksize: u64,
    pub st_blocks: u64,
    pub st_uid: u32,
    pub st_gid: u32,
    pub st_rdev: u64,
}

/// What the directory-entry provider reports for one node, as plain values:
/// the absolute path of the containing directory, the node's name, its type
/// flags and its optional metadata.
pub struct RawEntry {
    pub parent_path: String,
    pub file_name: String,
    pub is_symlink: bool,
    pub is_dir: bool,
    pub is_file: bool,
    pub meta: Option<FileMeta>,
    pub meta_ext: Option<FileMetaExt>,
}

/// The character length of the root prefix that is stripped from every
/// reported path: the root path's own length, plus one for the separator
/// when the root does not already end in one.
pub open spec fn spec_root_path_len(root: Seq<char>) -> int {
    if root.len() > 0 && root[root.len() - 1] == '/' {
        root.len() as int
    } else {
        root.len() + 1int
    }
}

/// Character length of the root prefix stripped from reported paths.
pub fn get_root_path_len(root_path: &str) -> (r: usize)
    requires
        root_path@.len() < usize::MAX,
    ensures
        r == spec_root_path_len(root_path@),
{
    let n = root_path.unicode_len();
    if n > 0 && root_path.get_char(n - 1) == '/' {
        n
    } else {
        n + 1
    }
}

/// The reported path of a node, relative to the scan root: the containing
/// directory's path with the root prefix removed, joined to the node's name.
/// A containing directory not longer than the root prefix (the root itself,
/// or anything above it) contributes nothing, leaving the bare name.
pub open spec fn spec_rel_path(parent: Seq<char>, name: Seq<char>, rpl: int) -> Seq<char> {
    if parent.len() > rpl && rpl >= 0 {
        parent.subrange(rpl, parent.len() as int) + seq!['/'] + name
    } else {
        name
    }
}

/// The digest recorded for a node: regular files with readable content get
/// the content digest, everything else the empty string.
pub open spec fn spec_entry_digest(is_file: bool, content: Option<Seq<u8>>) -> Seq<char> {
    if is_file {
        match content {
            Some(c) => digest_of(c),
            None => Seq::empty(),
        }
    } else {
        Seq::empty()
    }
}

/// The canonical entry built from one visited node, over its plain
/// components: `spec_entry_view` pins every field of the emitted `DirEntry`.
pub open spec fn spec_entry_view(
    rpl: int,
    parent: Seq<char>,
    name: Seq<char>,
    is_symlink: bool,
    is_dir: bool,
    is_file: bool,
    meta: Option<FileMeta>,
    meta_ext: Option<FileMetaExt>,
    content: Option<Seq<u8>>,
) -> ScandirResultView {
    ScandirResultView::DirEntry(
        DirEntryView {
            path: spec_rel_path(parent, name, rpl),
            is_symlink,
            is_dir,
            is_file,
            digest: spec_entry_digest(is_file, content),
            st_ctime: match meta {
                Some(m) => m.created,
                None => None,
            },
            st_mtime: match meta {
                Some(m) => m.modified,
                None => None,
            },
            st_atime: match meta {
                Some(m) => m.accessed,
                None => None,
            },
            st_size: match meta {
                Some(m) => m.size,
                None => 0u64,
            },
            st_blksize: match meta {
                Some(_m) => match meta_ext {
                    Some(x) => x.st_blksize,
                    None => 4096u64,
                },
                None => 4096u64,
            },
            st_blocks: spec_ext_u64(meta, meta_ext, |x: FileMetaExt| x.st_blocks),
            st_mode: match meta {
                Some(_m) => match meta_ext {
                    Some(x) => x.st_mode,
                    None => 0u32,
                },
                None => 0u32,
            },
            st_nlink: spec_ext_u64(meta, meta_ext, |x: FileMetaExt| x.st_nlink),
            st_uid: match meta {
                Some(_m) => match meta_ext {
                    Some(x) => x.st_uid,
                    None => 0u32,
                },
                None => 0u32,
            },
            st_gid: match meta {
                Some(_m) => match meta_ext {
                    Some(x) => x.st_gid,
                    None => 0u32,
                },
                None => 0u32,
            },
            st_ino: spec_ext_u64(meta, meta_ext, |x: FileMetaExt| x.st_ino),
            st_dev: spec_ext_u64(meta, meta_ext, |x: FileMetaExt| x.st_dev),
            st_rdev: spec_ext_u64(meta, meta_ext, |x: FileMetaExt| x.st_rdev),
        },
    )
}

/// The canonical entry built from a raw record.
pub open spec fn spec_create_entry(
    rpl: int,
    e: RawEntry,
    content: Option<Seq<u8>>,
) -> ScandirResultView {
    spec_entry_view(
        rpl,
        e.parent_path@,
        e.file_name@,
        e.is_symlink,
        e.is_dir,
        e.is_file,
        e.meta,
        e.meta_ext,
        content,
    )
}

/// A stat field that defaults to zero: present only when both metadata
/// blocks are.
pub open spec fn spec_ext_u64(
    meta: Option<FileMeta>,
    meta_ext: Option<FileMetaExt>,
    f: spec_fn(FileMetaExt) -> u64,
) -> u64 {
    match meta {
        Some(_m) => match meta_ext {
            Some(x) => f(x),
            None => 0u64,
        },
        None => 0u64,
    }
}

/// The view of an optional content slice.
pub open spec fn spec_content(content: Option<&[u8]>) -> Option<Seq<u8>> {
    match content {
        Some(c) => Some(c@),
        None => None,
    }
}

/// Builds the relative path of a node from the provider's absolute parent
/// path, the node's name and the root prefix length.
fn rel_path(parent: &str, name: &String, root_path_len: usize) -> (r: String)
    ensures
        r@ == spec_rel_path(parent@, name@, root_path_len as int),
{
    let n = parent.unicode_len();
    if n > root_path_len {
        let mut p = String::from_str(parent.substring_char(root_path_len, n));
        p.append("/");
        p.append(name.as_str());
        proof {
            reveal_strlit("/");
            assert(("/")@ =~= seq!['/']);
        }
        p
    } else {
        clone_string(name)
    }
}

/// Normalizes one raw record into its canonical entry.  `content` is the
/// file's bytes when the node is a regular file the caller could read;
/// directories, symlinks and unreadable files get an empty digest, never an
/// error.  Every field of the result is pinned by `spec_create_entry`.
pub fn create_entry(root_path_len: usize, entry: &RawEntry, content: Option<&[u8]>) -> (r:
    ScandirResult)
    ensures
        r@ == spec_create_entry(root_path_len as int, *entry, spec_content(content)),
{
    let path = rel_path(entry.parent_path.as_str(), &entry.file_name, root_path_len);
    let digest: String = if entry.is_file {
        match content {
            Some(c) => digest_of_content(c),
            None => String::new(),
        }
    } else {
        String::new()
    };
    let meta = entry.meta;
    let meta_ext = if meta.is_some() {
        entry.meta_ext
    } else {
        None
    };
    let (st_ctime, st_mtime, st_atime, st_size) = match meta {
        Some(m) => (m.created, m.modified, m.accessed, m.size),
        None => (None, None, None, 0u64),
    };
    let (st_mode, st_ino, st_dev, st_nlink, st_blksize, st_blocks, st_uid, st_gid, st_rdev) =
        match meta_ext {
        Some(x) => (
            x.st_mode,
            x.st_ino,
            x.st_dev,
            x.st_nlink,
            x.st_blksize,
            x.st_blocks,
            x.st_uid,
            x.st_gid,
            x.st_rdev,
        ),
        None => (0u32, 0u64, 0u64, 0u64, 4096u64, 0u64, 0u32, 0u32, 0u64),
    };
    ScandirResult::DirEntry(
        DirEntry {
            path,
            is_symlink: entry.is_symlink,
            is_dir: entry.is_dir,
            is_file: entry.is_file,
            digest,
            st_ctime,
            st_mtime,
            st_atime,
            st_size,
            st_blksize,
            st_blocks,
            st_mode,
            st_nlink,
            st_uid,
            st_gid,
            st_ino,
            st_dev,
            st_rdev,
        },
    )
}

} // verus!
