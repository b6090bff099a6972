//! The digest-scan controller: lifecycle, result draining and aggregation.
//!
//! The controller owns the configuration and the aggregated result store
//! and decides every lifecycle step; the thread that walks the real
//! filesystem, the channel that carries results and the clock live with the
//! caller, who reports completion back and hands drained batches in.

use vstd::prelude::*;

use crate::errors::ScanError;
use crate::filter::{create_filter, list_texts, pattern_texts, spec_list_ok, Filter};
use crate::options::Options;
use crate::scandir_result::{
    error_views, result_views, ScandirResult, ScandirResults, ScandirResultView,
};
use crate::traversal::{scan_tree, spec_scan, TreeNode};

verus! {

/// Where a scan stands: constructed, worker alive, or done.
#[derive(Clone, Copy, PartialEq, Eq, Structural, Debug)]
pub enum ScanPhase {
    Idle,
    Running,
    Finished,
}

/// The successes of a result stream: every item that is not an error.
pub open spec fn spec_successes(s: Seq<ScandirResultView>) -> Seq<ScandirResultView> {
    s.filter(|v: ScandirResultView| !(v is Error))
}

/// The error payloads of a result stream, in order.
pub open spec fn spec_failures(s: Seq<ScandirResultView>) -> Seq<(Seq<char>, Seq<char>)> {
    s.filter(|v: ScandirResultView| v is Error).map_values(
        |v: ScandirResultView| (v->Error_0, v->Error_1),
    )
}

/// The digest-scan controller.  `start` compiles the filter and hands it to
/// the caller's worker; drained channel batches come back through
/// `results`, which routes errors and successes into disjoint lists.
pub struct Scandir {
    pub options: Options,
    pub store: bool,
    pub entries: ScandirResults,
    pub phase: ScanPhase,
    pub duration_micros: u64,
}

impl Scandir {
    /// A fresh controller over an already canonicalized root path, with the
    /// default configuration; `store` (default true) keeps drained results
    /// in the running store.
    pub fn new(root_path: String, store: Option<bool>) -> (r: Scandir)
        ensures
            r.options.is_default_for(root_path@),
            r.store == (match store {
                Some(b) => b,
                None => true,
            }),
            r.entries.results@.len() == 0,
            r.entries.errors@.len() == 0,
            r.phase is Idle,
            r.duration_micros == 0,
    {
        Scandir {
            options: Options::with_root(root_path),
            store: match store {
                Some(b) => b,
                None => true,
            },
            entries: ScandirResults::new(),
            phase: ScanPhase::Idle,
            duration_micros: 0,
        }
    }

    /// Return results in sorted order.
    pub fn sorted(self, sorted: bool) -> (r: Scandir)
        ensures
            r == (Scandir { options: Options { sorted, ..self.options }, ..self }),
    {
        Scandir { options: Options { sorted, ..self.options }, ..self }
    }

    /// Skip hidden entries.
    pub fn skip_hidden(self, skip_hidden: bool) -> (r: Scandir)
        ensures
            r == (Scandir { options: Options { skip_hidden, ..self.options }, ..self }),
    {
        Scandir { options: Options { skip_hidden, ..self.options }, ..self }
    }

    /// Set the maximum depth of entries yielded by the walk; `0` means
    /// unlimited.  The root's direct children have depth one.
    pub fn max_depth(self, depth: usize) -> (r: Scandir)
        ensures
            r.options.max_depth == (if depth == 0 {
                usize::MAX
            } else {
                depth
            }),
            r == (Scandir {
                options: Options { max_depth: r.options.max_depth, ..self.options },
                ..self
            }),
    {
        let d = if depth == 0 {
            usize::MAX
        } else {
            depth
        };
        Scandir { options: Options { max_depth: d, ..self.options }, ..self }
    }

    /// Set the maximum number of files to collect; `0` means unlimited.
    pub fn max_file_cnt(self, max_file_cnt: usize) -> (r: Scandir)
        ensures
            r.options.max_file_cnt == (if max_file_cnt == 0 {
                usize::MAX
            } else {
                max_file_cnt
            }),
            r == (Scandir {
                options: Options { max_file_cnt: r.options.max_file_cnt, ..self.options },
                ..self
            }),
    {
        let m = if max_file_cnt == 0 {
            usize::MAX
        } else {
            max_file_cnt
        };
        Scandir { options: Options { max_file_cnt: m, ..self.options }, ..self }
    }

    /// Set the directory include filter.
    pub fn dir_include(self, dir_include: Option<Vec<String>>) -> (r: Scandir)
        ensures
            r == (Scandir { options: Options { dir_include, ..self.options }, ..self }),
    {
        Scandir { options: Options { dir_include, ..self.options }, ..self }
    }

    /// Set the directory exclude filter.
    pub fn dir_exclude(self, dir_exclude: Option<Vec<String>>) -> (r: Scandir)
        ensures
            r == (Scandir { options: Options { dir_exclude, ..self.options }, ..self }),
    {
        Scandir { options: Options { dir_exclude, ..self.options }, ..self }
    }

    /// Set the file include filter.
    pub fn file_include(self, file_include: Option<Vec<String>>) -> (r: Scandir)
        ensures
            r == (Scandir { options: Options { file_include, ..self.options }, ..self }),
    {
        Scandir { options: Options { file_include, ..self.options }, ..self }
    }

    /// Set the file exclude filter.
    pub fn file_exclude(self, file_exclude: Option<Vec<String>>) -> (r: Scandir)
        ensures
            r == (Scandir { options: Options { file_exclude, ..self.options }, ..self }),
    {
        Scandir { options: Options { file_exclude, ..self.options }, ..self }
    }

    /// Set case-sensitive filename filtering.
    pub fn case_sensitive(self, case_sensitive: bool) -> (r: Scandir)
        ensures
            r == (Scandir { options: Options { case_sensitive, ..self.options }, ..self }),
    {
        Scandir { options: Options { case_sensitive, ..self.options }, ..self }
    }

    /// Set whether symlinks are followed.
    pub fn follow_links(self, follow_links: bool) -> (r: Scandir)
        ensures
            r == (Scandir { options: Options { follow_links, ..self.options }, ..self }),
    {
        Scandir { options: Options { follow_links, ..self.options }, ..self }
    }

    /// Empties the result store and resets the measured duration.
    pub fn clear(&mut self)
        ensures
            final(self).entries.results@.len() == 0,
            final(self).entries.errors@.len() == 0,
            final(self).duration_micros == 0,
            final(self).options == old(self).options,
            final(self).store == old(self).store,
            final(self).phase == old(self).phase,
    {
        self.entries.clear();
        self.duration_micros = 0;
    }

    /// Records the wall-clock time the worker ran for, reported by the
    /// caller when the worker completes.
    pub fn note_duration(&mut self, micros: u64)
        ensures
            final(self).duration_micros == micros,
            final(self).options == old(self).options,
            final(self).store == old(self).store,
            final(self).entries == old(self).entries,
            final(self).phase == old(self).phase,
    {
        self.duration_micros = micros;
    }

    /// The worker's wall-clock running time in microseconds: the default
    /// zero until the completed worker's time has been recorded.
    pub fn duration(&self) -> (r: u64)
        ensures
            r == self.duration_micros,
    {
        self.duration_micros
    }

    /// Whether the worker is alive.
    pub fn busy(&self) -> (r: bool)
        ensures
            r == (self.phase is Running),
    {
        matches!(self.phase, ScanPhase::Running)
    }

    /// Whether the scan has completed (naturally or by `stop`).
    pub fn finished(&self) -> (r: bool)
        ensures
            r == (self.phase is Finished),
    {
        matches!(self.phase, ScanPhase::Finished)
    }

    /// The configuration.
    pub fn options(&self) -> (r: &Options)
        ensures
            r == &self.options,
    {
        &self.options
    }

    /// Begins a scan: refused with a busy error — everything unchanged —
    /// while a worker is alive.  The filter is compiled first, so a bad
    /// pattern fails fast, naming list and pattern, before any worker could
    /// start and with nothing cleaned up: the controller, its result store
    /// included, stays exactly as it was.  Only on success is the store
    /// reset; the controller is then Running and the caller receives the
    /// compiled filter for its worker.
    pub fn start(&mut self) -> (r: Result<Option<Filter>, ScanError>)
        ensures
            old(self).phase is Running ==> (r matches Err(e) && e is Busy && *final(self) == *old(
                self,
            )),
            r is Err ==> *final(self) == *old(self),
            !(old(self).phase is Running) ==> {
                &&& final(self).options == old(self).options
                &&& final(self).store == old(self).store
                &&& (r is Ok <==> {
                    &&& spec_list_ok(list_texts(old(self).options.dir_include))
                    &&& spec_list_ok(list_texts(old(self).options.dir_exclude))
                    &&& spec_list_ok(list_texts(old(self).options.file_include))
                    &&& spec_list_ok(list_texts(old(self).options.file_exclude))
                })
                &&& (r is Ok ==> final(self).phase is Running
                    && final(self).entries.results@.len() == 0
                    && final(self).entries.errors@.len() == 0
                    && final(self).duration_micros == 0)
                &&& (r is Err ==> !(r->Err_0 is Busy))
                &&& (r matches Ok(of) ==> match of {
                    None => {
                        &&& list_texts(old(self).options.dir_include).len() == 0
                        &&& list_texts(old(self).options.dir_exclude).len() == 0
                        &&& list_texts(old(self).options.file_include).len() == 0
                        &&& list_texts(old(self).options.file_exclude).len() == 0
                    },
                    Some(f) => {
                        &&& pattern_texts(f.dir_include@) == list_texts(
                            old(self).options.dir_include,
                        )
                        &&& pattern_texts(f.dir_exclude@) == list_texts(
                            old(self).options.dir_exclude,
                        )
                        &&& pattern_texts(f.file_include@) == list_texts(
                            old(self).options.file_include,
                        )
                        &&& pattern_texts(f.file_exclude@) == list_texts(
                            old(self).options.file_exclude,
                        )
                        &&& f.case_sensitive == old(self).options.case_sensitive
                    },
                })
            },
    {
        if self.busy() {
            return Err(ScanError::Busy);
        }
        let filter = match create_filter(&self.options) {
            Ok(f) => f,
            Err(e) => {
                return Err(e);
            },
        };
        self.clear();
        self.phase = ScanPhase::Running;
        Ok(filter)
    }

    /// Records that the worker completed naturally; the caller blocks on
    /// the join itself.  Returns whether there was a worker to join.
    pub fn join(&mut self) -> (r: bool)
        ensures
            r == (old(self).phase is Running),
            final(self).phase == (if old(self).phase is Running {
                ScanPhase::Finished
            } else {
                old(self).phase
            }),
            final(self).options == old(self).options,
            final(self).store == old(self).store,
            final(self).entries == old(self).entries,
            final(self).duration_micros == old(self).duration_micros,
    {
        if self.busy() {
            self.phase = ScanPhase::Finished;
            true
        } else {
            false
        }
    }

    /// Records that the worker was told to stop and joined.  The store
    /// keeps whatever partial results were already drained; whatever is
    /// still buffered remains for the next drain.  Returns whether there
    /// was a worker to stop.
    pub fn stop(&mut self) -> (r: bool)
        ensures
            r == (old(self).phase is Running),
            final(self).phase == (if old(self).phase is Running {
                ScanPhase::Finished
            } else {
                old(self).phase
            }),
            final(self).options == old(self).options,
            final(self).store == old(self).store,
            final(self).entries == old(self).entries,
            final(self).duration_micros == old(self).duration_micros,
    {
        self.join()
    }

    /// Routes one drained channel batch: every error item goes to the error
    /// list, every other item to the success list, order kept.  With
    /// `store` set the batch is also appended to the running store.  With
    /// `only_new` the batch alone is returned, else the full accumulated
    /// history.
    pub fn results(&mut self, fetched: Vec<ScandirResult>, only_new: bool) -> (r: ScandirResults)
        ensures
            final(self).options == old(self).options,
            final(self).store == old(self).store,
            final(self).phase == old(self).phase,
            final(self).duration_micros == old(self).duration_micros,
            ({
                let batch_ok = spec_successes(result_views(fetched@));
                let batch_err = spec_failures(result_views(fetched@));
                &&& (old(self).store ==> result_views(final(self).entries.results@)
                    == result_views(old(self).entries.results@) + batch_ok && error_views(
                    final(self).entries.errors@,
                ) == error_views(old(self).entries.errors@) + batch_err)
                &&& (!old(self).store ==> final(self).entries == old(self).entries)
                &&& (if !only_new && old(self).store {
                    result_views(r.results@) == result_views(final(self).entries.results@)
                        && error_views(r.errors@) == error_views(final(self).entries.errors@)
                } else {
                    result_views(r.results@) == batch_ok && error_views(r.errors@) == batch_err
                })
            }),
    {
        let ghost orig = fetched@;
        let mut rest = fetched;
        let mut batch = ScandirResults::new();
        proof {
            reveal(Seq::filter);
            assert(result_views(orig).subrange(0, 0) =~= Seq::<ScandirResultView>::empty());
            assert(result_views(batch.results@) =~= spec_successes(
                result_views(orig).subrange(0, 0),
            ));
            assert(error_views(batch.errors@) =~= spec_failures(
                result_views(orig).subrange(0, 0),
            ));
        }
        let ghost mut done: int = 0;
        while rest.len() > 0
            invariant
                0 <= done <= orig.len(),
                rest@ =~= orig.subrange(done, orig.len() as int),
                result_views(batch.results@) == spec_successes(
                    result_views(orig).subrange(0, done),
                ),
                error_views(batch.errors@) == spec_failures(result_views(orig).subrange(0, done)),
            decreases rest@.len(),
        {
            let item = rest.remove(0);
            proof {
                assert(item == orig[done]);
                reveal(Seq::filter);
                let views = result_views(orig);
                let pre = views.subrange(0, done);
                let cur = views.subrange(0, done + 1);
                assert(cur.drop_last() =~= pre);
                assert(cur.last() == orig[done]@);
                assert(spec_successes(cur) == if !(orig[done]@ is Error) {
                    spec_successes(pre).push(orig[done]@)
                } else {
                    spec_successes(pre)
                });
                assert(views.subrange(0, done).filter(|v: ScandirResultView| v is Error).push(
                    orig[done]@,
                ).map_values(|v: ScandirResultView| (v->Error_0, v->Error_1)) =~= spec_failures(
                    pre,
                ).push((orig[done]@->Error_0, orig[done]@->Error_1)));
                assert(spec_failures(cur) == if orig[done]@ is Error {
                    spec_failures(pre).push((orig[done]@->Error_0, orig[done]@->Error_1))
                } else {
                    spec_failures(pre)
                });
            }
            match item {
                ScandirResult::Error(e) => {
                    proof {
                        crate::scandir_result::lemma_error_views_push(batch.errors@, e);
                    }
                    batch.errors.push(e);
                },
                other => {
                    proof {
                        crate::scandir_result::lemma_result_views_push(batch.results@, other);
                    }
                    batch.results.push(other);
                },
            }
            proof {
                done = done + 1;
            }
        }
        proof {
            assert(result_views(orig).subrange(0, orig.len() as int) =~= result_views(orig));
        }
        if self.store {
            self.entries.extend(&batch);
        }
        if !only_new && self.store {
            return self.entries.duplicate();
        }
        batch
    }

    /// Routes a drained batch and returns its successes only.
    pub fn entries(&mut self, fetched: Vec<ScandirResult>, only_new: bool) -> (r: Vec<
        ScandirResult,
    >)
        ensures
            final(self).options == old(self).options,
            final(self).store == old(self).store,
            final(self).phase == old(self).phase,
            (if !only_new && old(self).store {
                result_views(r@) == result_views(final(self).entries.results@)
            } else {
                result_views(r@) == spec_successes(result_views(fetched@))
            }),
    {
        self.results(fetched, only_new).results
    }

    /// Routes a drained batch and returns its error pairs only.
    pub fn errors(&mut self, fetched: Vec<ScandirResult>, only_new: bool) -> (r: Vec<
        (String, String),
    >)
        ensures
            final(self).options == old(self).options,
            final(self).store == old(self).store,
            final(self).phase == old(self).phase,
            (if !only_new && old(self).store {
                error_views(r@) == error_views(final(self).entries.errors@)
            } else {
                error_views(r@) == spec_failures(result_views(fetched@))
            }),
    {
        self.results(fetched, only_new).errors
    }

    /// Whether anything is available: items still buffered in the channel
    /// (`pending`, reported by the caller), or — unless `only_new` — items
    /// already in the store.
    pub fn has_results(&self, pending: usize, only_new: bool) -> (r: bool)
        ensures
            r == (pending > 0 || (!only_new && (self.entries.results@.len() > 0
                || self.entries.errors@.len() > 0))),
    {
        if pending > 0 {
            return true;
        }
        if only_new {
            return false;
        }
        !self.entries.is_empty()
    }

    /// How many results are available: the buffered ones, plus — unless
    /// `only_new` — the stored ones.
    pub fn results_cnt(&self, pending: usize, only_new: bool) -> (r: usize)
        requires
            self.entries.results@.len() + self.entries.errors@.len() + pending <= usize::MAX,
        ensures
            r == (if only_new {
                pending as int
            } else {
                self.entries.results@.len() + self.entries.errors@.len() + pending
            }),
    {
        if only_new {
            pending
        } else {
            self.entries.len() + pending
        }
    }

    /// Whether any entries are available: like `has_results`, over the
    /// buffered count the caller reports and the store.
    pub fn has_entries(&self, pending: usize, only_new: bool) -> (r: bool)
        ensures
            r == (pending > 0 || (!only_new && (self.entries.results@.len() > 0
                || self.entries.errors@.len() > 0))),
    {
        self.has_results(pending, only_new)
    }

    /// How many entries are available: the buffered ones, plus — unless
    /// `only_new` — the stored ones.
    pub fn entries_cnt(&self, pending: usize, only_new: bool) -> (r: usize)
        requires
            self.entries.results@.len() + self.entries.errors@.len() + pending <= usize::MAX,
        ensures
            r == (if only_new {
                pending as int
            } else {
                self.entries.results@.len() + self.entries.errors@.len() + pending
            }),
    {
        self.results_cnt(pending, only_new)
    }

    /// Whether any provider errors have been stored.
    pub fn has_errors(&self) -> (r: bool)
        ensures
            r == (self.entries.errors@.len() > 0),
    {
        self.entries.errors.len() > 0
    }

    /// How many provider errors have been stored.
    pub fn errors_cnt(&self) -> (r: usize)
        ensures
            r == self.entries.errors@.len(),
    {
        self.entries.errors.len()
    }

    /// Runs a whole scan over an in-memory tree synchronously.  When Idle
    /// it starts (filter compilation included, failing fast on a bad
    /// pattern), walks the tree, routes every emitted result and finishes.
    /// When a worker is already running it simply joins — records the
    /// completion — and when already finished nothing is re-run; in both
    /// cases the full accumulated result set is returned as it stands.
    pub fn collect(&mut self, root: &TreeNode) -> (r: Result<ScandirResults, ScanError>)
        requires
            old(self).options.root_path@.len() < usize::MAX,
        ensures
            old(self).phase is Running ==> (r matches Ok(rs) && {
                &&& final(self).phase is Finished
                &&& final(self).options == old(self).options
                &&& final(self).store == old(self).store
                &&& final(self).entries == old(self).entries
                &&& final(self).duration_micros == old(self).duration_micros
                &&& result_views(rs.results@) == result_views(old(self).entries.results@)
                &&& error_views(rs.errors@) == error_views(old(self).entries.errors@)
            }),
            old(self).phase is Finished ==> (r matches Ok(rs) && *final(self) == *old(self)
                && result_views(rs.results@) == result_views(old(self).entries.results@)
                && error_views(rs.errors@) == error_views(old(self).entries.errors@)),
            old(self).phase is Idle ==> {
                &&& (r is Ok <==> {
                    &&& spec_list_ok(list_texts(old(self).options.dir_include))
                    &&& spec_list_ok(list_texts(old(self).options.dir_exclude))
                    &&& spec_list_ok(list_texts(old(self).options.file_include))
                    &&& spec_list_ok(list_texts(old(self).options.file_exclude))
                })
                &&& (r is Err ==> *final(self) == *old(self))
                &&& (r matches Ok(rs) ==> {
                    &&& final(self).phase is Finished
                    &&& exists|f: Option<Filter>|
                        {
                            let stream = #[trigger] spec_scan(*root, old(self).options, f);
                            &&& (match f {
                                None => {
                                    &&& list_texts(old(self).options.dir_include).len() == 0
                                    &&& list_texts(old(self).options.dir_exclude).len() == 0
                                    &&& list_texts(old(self).options.file_include).len() == 0
                                    &&& list_texts(old(self).options.file_exclude).len() == 0
                                },
                                Some(ff) => {
                                    &&& pattern_texts(ff.dir_include@) == list_texts(
                                        old(self).options.dir_include,
                                    )
                                    &&& pattern_texts(ff.dir_exclude@) == list_texts(
                                        old(self).options.dir_exclude,
                                    )
                                    &&& pattern_texts(ff.file_include@) == list_texts(
                                        old(self).options.file_include,
                                    )
                                    &&& pattern_texts(ff.file_exclude@) == list_texts(
                                        old(self).options.file_exclude,
                                    )
                                    &&& ff.case_sensitive == old(self).options.case_sensitive
                                },
                            })
                            &&& result_views(rs.results@) == spec_successes(stream)
                            &&& error_views(rs.errors@) == spec_failures(stream)
                        }
                })
            },
    {
        if self.busy() {
            self.join();
            return Ok(self.entries.duplicate());
        }
        if self.finished() {
            return Ok(self.entries.duplicate());
        }
        let filter = match self.start() {
            Ok(f) => f,
            Err(e) => {
                return Err(e);
            },
        };
        let stream = scan_tree(root, &self.options, &filter);
        let ghost f = filter;
        let rs = self.results(stream, false);
        self.join();
        proof {
            assert(result_views(rs.results@) == spec_successes(
                spec_scan(*root, old(self).options, f),
            ));
        }
        Ok(rs)
    }
}

} // verus!
