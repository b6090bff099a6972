//! Immutable scan parameters.

use vstd::prelude::*;

verus! {

/// Scan configuration.  `root_path` is expected to be canonical and absolute;
/// the caller canonicalizes before constructing the value.  A `max_depth` or
/// `max_file_cnt` of `usize::MAX` means "unlimited"; the builder methods of
/// the scan controllers normalize a requested `0` to `usize::MAX`.
pub struct Options {
    pub root_path: String,
    pub sorted: bool,
    pub skip_hidden: bool,
    pub max_depth: usize,
    pub max_file_cnt: usize,
    pub dir_include: Option<Vec<String>>,
    pub dir_exclude: Option<Vec<String>>,
    pub file_include: Option<Vec<String>>,
    pub file_exclude: Option<Vec<String>>,
    pub case_sensitive: bool,
    pub follow_links: bool,
}

impl Options {
    /// Builds an `Options` value from every parameter, unchanged.
    pub fn new(
        root_path: String,
        sorted: bool,
        skip_hidden: bool,
        max_depth: usize,
        max_file_cnt: usize,
        dir_include: Option<Vec<String>>,
        dir_exclude: Option<Vec<String>>,
        file_include: Option<Vec<String>>,
        file_exclude: Option<Vec<String>>,
        case_sensitive: bool,
        follow_links: bool,
    ) -> (r: Options)
        ensures
            r.root_path == root_path,
            r.sorted == sorted,
            r.skip_hidden == skip_hidden,
            r.max_depth == max_depth,
            r.max_file_cnt == max_file_cnt,
            r.dir_include == dir_include,
            r.dir_exclude == dir_exclude,
            r.file_include == file_include,
            r.file_exclude == file_exclude,
            r.case_sensitive == case_sensitive,
            r.follow_links == follow_links,
    {
        Options {
            root_path,
            sorted,
            skip_hidden,
            max_depth,
            max_file_cnt,
            dir_include,
            dir_exclude,
            file_include,
            file_exclude,
            case_sensitive,
            follow_links,
        }
    }

    /// The defaults used by a freshly constructed scan controller: unlimited
    /// depth and file count, no filters, case-insensitive matching, hidden
    /// entries kept, symlinks not followed.
    pub open spec fn is_default_for(self, root_path: Seq<char>) -> bool {
        &&& self.root_path@ == root_path
        &&& !self.sorted
        &&& !self.skip_hidden
        &&& self.max_depth == usize::MAX
        &&& self.max_file_cnt == usize::MAX
        &&& self.dir_include is None
        &&& self.dir_exclude is None
        &&& self.file_include is None
        &&& self.file_exclude is None
        &&& !self.case_sensitive
        &&& !self.follow_links
    }

    /// The defaults, for a given root path.
    pub fn with_root(root_path: String) -> (r: Options)
        ensures
            r.is_default_for(root_path@),
            r.root_path == root_path,
    {
        Options {
            root_path,
            sorted: false,
            skip_hidden: false,
            max_depth: usize::MAX,
            max_file_cnt: usize::MAX,
            dir_include: None,
            dir_exclude: None,
            file_include: None,
            file_exclude: None,
            case_sensitive: false,
            follow_links: false,
        }
    }
}

} // verus!
