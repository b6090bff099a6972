//! Operation failures reported to the caller: misconfiguration and the busy
//! condition.  Per-node trouble never surfaces here; it flows through the
//! result stream instead.

use vstd::prelude::*;

use crate::direntry::clone_string;

verus! {

/// Which of the four pattern lists a bad pattern was found in.
#[derive(Clone, Copy, PartialEq, Eq, Structural, Debug)]
pub enum FilterList {
    DirInclude,
    DirExclude,
    FileInclude,
    FileExclude,
}

/// A failure of a scan operation: `Busy` when `start` is called while a
/// worker is still running; `InvalidPattern` when the filter compiler
/// rejects a glob pattern, naming the list and the pattern.
#[derive(Debug)]
pub enum ScanError {
    Busy,
    InvalidPattern { list: FilterList, pattern: String },
}

/// The label of a pattern list, as it appears in error messages.
pub open spec fn spec_list_label(l: FilterList) -> Seq<char> {
    match l {
        FilterList::DirInclude => "dir_include"@,
        FilterList::DirExclude => "dir_exclude"@,
        FilterList::FileInclude => "file_include"@,
        FilterList::FileExclude => "file_exclude"@,
    }
}

/// The message of an error.
pub open spec fn spec_error_message(e: ScanError) -> Seq<char> {
    match e {
        ScanError::Busy => "Busy"@,
        ScanError::InvalidPattern { list, pattern } => spec_list_label(list)
            + ": invalid pattern "@ + pattern@,
    }
}

impl ScanError {
    /// A human-readable description of the failure.
    pub fn message(&self) -> (r: String)
        ensures
            r@ == spec_error_message(*self),
    {
        match self {
            ScanError::Busy => String::from_str("Busy"),
            ScanError::InvalidPattern { list, pattern } => {
                let mut m = match list {
                    FilterList::DirInclude => String::from_str("dir_include"),
                    FilterList::DirExclude => String::from_str("dir_exclude"),
                    FilterList::FileInclude => String::from_str("file_include"),
                    FilterList::FileExclude => String::from_str("file_exclude"),
                };
                m.append(": invalid pattern ");
                m.append(pattern.as_str());
                m
            },
        }
    }

    /// Duplicates the error; the copy has the same shape and message.
    pub fn duplicate(&self) -> (r: ScanError)
        ensures
            r is Busy <==> self is Busy,
            self matches ScanError::InvalidPattern { list, pattern } ==> (
            r matches ScanError::InvalidPattern { list: l2, pattern: p2 } && l2 == list && p2@
                == pattern@),
    {
        match self {
            ScanError::Busy => ScanError::Busy,
            ScanError::InvalidPattern { list, pattern } => ScanError::InvalidPattern {
                list: *list,
                pattern: clone_string(pattern),
            },
        }
    }
}

} // verus!
