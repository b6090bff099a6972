//! Results of a digest scan: one per visited node, plus the aggregated,
//! partitioned result store.

use vstd::prelude::*;

use crate::direntry::{clone_string, DirEntry, DirEntryView};

verus! {

/// Mathematical image of a `ScandirResult`.
pub ghost enum ScandirResultView {
    DirEntry(DirEntryView),
    Error(Seq<char>, Seq<char>),
}

/// One item of the result stream: a visited node, or a provider error as a
/// `(path, message)` pair.
pub enum ScandirResult {
    DirEntry(DirEntry),
    Error((String, String)),
}

impl View for ScandirResult {
    type V = ScandirResultView;

    open spec fn view(&self) -> ScandirResultView {
        match self {
            ScandirResult::DirEntry(e) => ScandirResultView::DirEntry(e@),
            ScandirResult::Error(e) => ScandirResultView::Error(e.0@, e.1@),
        }
    }
}

/// The views of a sequence of results.
pub open spec fn result_views(s: Seq<ScandirResult>) -> Seq<ScandirResultView> {
    s.map_values(|r: ScandirResult| r@)
}

/// The views of a sequence of `(path, message)` error pairs.
pub open spec fn error_views(s: Seq<(String, String)>) -> Seq<(Seq<char>, Seq<char>)> {
    s.map_values(|e: (String, String)| (e.0@, e.1@))
}

impl ScandirResult {
    /// The content digest of an entry; for an error, its path member.
    pub fn digest(&self) -> (r: &String)
        ensures
            r@ == (match self@ {
                ScandirResultView::DirEntry(e) => e.digest,
                ScandirResultView::Error(p, _m) => p,
            }),
    {
        match self {
            Self::DirEntry(e) => &e.digest,
            Self::Error(e) => &e.0,
        }
    }

    /// The path the result speaks of.
    pub fn path(&self) -> (r: &String)
        ensures
            r@ == (match self@ {
                ScandirResultView::DirEntry(e) => e.path,
                ScandirResultView::Error(p, _m) => p,
            }),
    {
        match self {
            Self::DirEntry(e) => &e.path,
            Self::Error(e) => &e.0,
        }
    }

    /// The `(path, message)` pair of an error result, `None` for an entry.
    pub fn error(&self) -> (r: Option<&(String, String)>)
        ensures
            match self@ {
                ScandirResultView::Error(p, m) => {
                    &&& r is Some
                    &&& (r->0).0@ == p
                    &&& (r->0).1@ == m
                },
                ScandirResultView::DirEntry(_e) => r is None,
            },
    {
        match self {
            Self::Error(e) => Some(e),
            _ => None,
        }
    }

    /// Whether the result is a directory entry.
    pub fn is_dir(&self) -> (r: bool)
        ensures
            r == (match self@ {
                ScandirResultView::DirEntry(e) => e.is_dir,
                ScandirResultView::Error(_p, _m) => false,
            }),
    {
        match self {
            Self::DirEntry(e) => e.is_dir,
            Self::Error(_) => false,
        }
    }

    /// Whether the result is a regular-file entry.
    pub fn is_file(&self) -> (r: bool)
        ensures
            r == (match self@ {
                ScandirResultView::DirEntry(e) => e.is_file,
                ScandirResultView::Error(_p, _m) => false,
            }),
    {
        match self {
            Self::DirEntry(e) => e.is_file,
            Self::Error(_) => false,
        }
    }

    /// Whether the result is a symlink entry.
    pub fn is_symlink(&self) -> (r: bool)
        ensures
            r == (match self@ {
                ScandirResultView::DirEntry(e) => e.is_symlink,
                ScandirResultView::Error(_p, _m) => false,
            }),
    {
        match self {
            Self::DirEntry(e) => e.is_symlink,
            Self::Error(_) => false,
        }
    }

    /// The entry's owner id; 0 for an error result.
    pub fn uid(&self) -> (r: u32)
        ensures
            r == (match self@ {
                ScandirResultView::DirEntry(e) => e.st_uid,
                ScandirResultView::Error(_p, _m) => 0u32,
            }),
    {
        match self {
            Self::DirEntry(e) => e.st_uid,
            Self::Error(_) => 0,
        }
    }

    /// The entry's group id; 0 for an error result.
    pub fn gid(&self) -> (r: u32)
        ensures
            r == (match self@ {
                ScandirResultView::DirEntry(e) => e.st_gid,
                ScandirResultView::Error(_p, _m) => 0u32,
            }),
    {
        match self {
            Self::DirEntry(e) => e.st_gid,
            Self::Error(_) => 0,
        }
    }

    /// The entry's size; 0 for an error result.
    pub fn size(&self) -> (r: u64)
        ensures
            r == (match self@ {
                ScandirResultView::DirEntry(e) => e.st_size,
                ScandirResultView::Error(_p, _m) => 0u64,
            }),
    {
        match self {
            Self::DirEntry(e) => e.st_size,
            Self::Error(_) => 0,
        }
    }

    /// Duplicates the result; the copy has the same view.
    pub fn duplicate(&self) -> (r: ScandirResult)
        ensures
            r@ == self@,
    {
        match self {
            Self::DirEntry(e) => ScandirResult::DirEntry(e.duplicate()),
            Self::Error(e) => ScandirResult::Error((clone_string(&e.0), clone_string(&e.1))),
        }
    }
}

/// The aggregated view of a scan: successful results and provider errors,
/// disjoint, each in arrival order, growing only by appending.
pub struct ScandirResults {
    pub results: Vec<ScandirResult>,
    pub errors: Vec<(String, String)>,
}

impl ScandirResults {
    /// An empty store.
    pub fn new() -> (r: ScandirResults)
        ensures
            r.results@.len() == 0,
            r.errors@.len() == 0,
    {
        ScandirResults { results: Vec::new(), errors: Vec::new() }
    }

    /// Removes everything.
    pub fn clear(&mut self)
        ensures
            final(self).results@.len() == 0,
            final(self).errors@.len() == 0,
    {
        self.results.clear();
        self.errors.clear();
    }

    /// Whether both partitions are empty.
    pub fn is_empty(&self) -> (r: bool)
        ensures
            r == (self.results@.len() == 0 && self.errors@.len() == 0),
    {
        self.results.is_empty() && self.errors.is_empty()
    }

    /// The number of items over both partitions.
    pub fn len(&self) -> (r: usize)
        requires
            self.results@.len() + self.errors@.len() <= usize::MAX,
        ensures
            r == self.results@.len() + self.errors@.len(),
    {
        self.results.len() + self.errors.len()
    }

    /// Appends every item of `results` to this store, keeping order.
    pub fn extend(&mut self, results: &ScandirResults)
        ensures
            result_views(final(self).results@) == result_views(old(self).results@)
                + result_views(results.results@),
            error_views(final(self).errors@) == error_views(old(self).errors@)
                + error_views(results.errors@),
    {
        let mut i: usize = 0;
        while i < results.results.len()
            invariant
                i <= results.results@.len(),
                result_views(self.results@) == result_views(old(self).results@)
                    + result_views(results.results@.subrange(0, i as int)),
                self.errors@ == old(self).errors@,
            decreases results.results@.len() - i,
        {
            let dup = results.results[i].duplicate();
            proof {
                lemma_result_views_push(self.results@, dup);
                assert(result_views(results.results@.subrange(0, i as int)).push(
                    results.results@[i as int]@,
                ) =~= result_views(results.results@.subrange(0, i + 1)));
                assert(result_views(old(self).results@) + result_views(
                    results.results@.subrange(0, i as int),
                ).push(results.results@[i as int]@) =~= (result_views(old(self).results@)
                    + result_views(results.results@.subrange(0, i as int))).push(
                    results.results@[i as int]@,
                ));
            }
            self.results.push(dup);
            i = i + 1;
        }
        let mut j: usize = 0;
        while j < results.errors.len()
            invariant
                j <= results.errors@.len(),
                result_views(self.results@) == result_views(old(self).results@)
                    + result_views(results.results@.subrange(
                    0,
                    results.results@.len() as int,
                )),
                error_views(self.errors@) == error_views(old(self).errors@)
                    + error_views(results.errors@.subrange(0, j as int)),
            decreases results.errors@.len() - j,
        {
            let e = &results.errors[j];
            let dup = (clone_string(&e.0), clone_string(&e.1));
            proof {
                lemma_error_views_push(self.errors@, dup);
                assert(error_views(results.errors@.subrange(0, j as int)).push(
                    (results.errors@[j as int].0@, results.errors@[j as int].1@),
                ) =~= error_views(results.errors@.subrange(0, j + 1)));
                assert(error_views(old(self).errors@) + error_views(
                    results.errors@.subrange(0, j as int),
                ).push((results.errors@[j as int].0@, results.errors@[j as int].1@)) =~= (
                error_views(old(self).errors@) + error_views(
                    results.errors@.subrange(0, j as int),
                )).push((results.errors@[j as int].0@, results.errors@[j as int].1@)));
            }
            self.errors.push(dup);
            j = j + 1;
        }
        proof {
            assert(results.results@.subrange(0, results.results@.len() as int)
                =~= results.results@);
            assert(results.errors@.subrange(0, results.errors@.len() as int)
                =~= results.errors@);
        }
    }

    /// Duplicates the whole store; the copy has the same views.
    pub fn duplicate(&self) -> (r: ScandirResults)
        ensures
            result_views(r.results@) == result_views(self.results@),
            error_views(r.errors@) == error_views(self.errors@),
    {
        let mut r = ScandirResults::new();
        proof {
            assert(result_views(r.results@) =~= Seq::<ScandirResultView>::empty());
            assert(error_views(r.errors@) =~= Seq::<(Seq<char>, Seq<char>)>::empty());
            assert(result_views(r.results@) + result_views(self.results@)
                =~= result_views(self.results@));
            assert(error_views(r.errors@) + error_views(self.errors@)
                =~= error_views(self.errors@));
        }
        r.extend(self);
        r
    }
}

impl Default for ScandirResults {
    /// An empty store.
    fn default() -> (r: ScandirResults)
        ensures
            r.results@.len() == 0,
            r.errors@.len() == 0,
    {
        ScandirResults::new()
    }
}

/// Pushing a result onto a sequence appends its view to the sequence's views.
pub proof fn lemma_result_views_push(s: Seq<ScandirResult>, r: ScandirResult)
    ensures
        result_views(s.push(r)) == result_views(s).push(r@),
{
    assert(result_views(s.push(r)) =~= result_views(s).push(r@));
}

/// Pushing an error pair onto a sequence appends its view likewise.
pub proof fn lemma_error_views_push(s: Seq<(String, String)>, e: (String, String))
    ensures
        error_views(s.push(e)) == error_views(s).push((e.0@, e.1@)),
{
    assert(error_views(s.push(e)) =~= error_views(s).push((e.0@, e.1@)));
}

} // verus!
