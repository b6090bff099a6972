//! The filter compiler and the per-entry inclusion test.
//!
//! Glob syntax itself is the pattern crate's business; the library treats a
//! compiled pattern as an opaque value that keeps its source text and
//! matches keys as a function of that text, the key and case sensitivity.

use vstd::prelude::*;

use crate::entry::RawEntry;
use crate::errors::{FilterList, ScanError};
use crate::direntry::clone_string;
use crate::options::Options;

verus! {

#[verifier::external_type_specification]
#[verifier::external_body]
pub struct ExPattern(glob_sl::Pattern);

#[verifier::external_type_specification]
#[verifier::external_body]
pub struct ExPatternError(glob_sl::PatternError);

/// The source text a compiled pattern was made from.
pub uninterp spec fn pattern_text(p: glob_sl::Pattern) -> Seq<char>;

/// Whether the pattern crate accepts this pattern text.
pub uninterp spec fn glob_pattern_ok(pat: Seq<char>) -> bool;

/// What matching a key against a compiled pattern returns: a function of
/// the pattern text, the key, and case sensitivity.
pub uninterp spec fn glob_match(pat: Seq<char>, key: Seq<char>, case_sensitive: bool) -> bool;

/// Relies on glob_sl::Pattern::new: compilation succeeds or fails on the
/// pattern text alone, and the compiled pattern keeps that text (it is what
/// `as_str` later returns).
pub assume_specification[ glob_sl::Pattern::new ](pattern: &str) -> (r: Result<
    glob_sl::Pattern,
    glob_sl::PatternError,
>)
    ensures
        r is Ok <==> glob_pattern_ok(pattern@),
        r is Ok ==> pattern_text(r->Ok_0) == pattern@,
;

/// Relies on glob_sl::Pattern::as_str: it returns the original pattern text.
pub assume_specification[ glob_sl::Pattern::as_str ](p: &glob_sl::Pattern) -> (r: &str)
    ensures
        r@ == pattern_text(*p),
;

/// Relies on glob_sl::Pattern::matches_with: the outcome is a function of
/// the pattern text, the key and the options; the engine always passes the
/// default options apart from case sensitivity.
#[verifier::external_body]
fn matches_key(p: &glob_sl::Pattern, key: &str, case_sensitive: bool) -> (r: bool)
    ensures
        r == glob_match(pattern_text(*p), key@, case_sensitive),
{
    p.matches_with(
        key,
        glob_sl::MatchOptions {
            case_sensitive,
            require_literal_separator: false,
            require_literal_leading_dot: false,
            follow_links: false,
        },
    )
}

/// Compiled include/exclude pattern lists for directories and files, plus
/// the shared case-sensitivity choice.  Built once per scan start, read-only
/// afterwards.
pub struct Filter {
    pub dir_include: Vec<glob_sl::Pattern>,
    pub dir_exclude: Vec<glob_sl::Pattern>,
    pub file_include: Vec<glob_sl::Pattern>,
    pub file_exclude: Vec<glob_sl::Pattern>,
    pub case_sensitive: bool,
}

/// The source texts of a compiled pattern list.
pub open spec fn pattern_texts(ps: Seq<glob_sl::Pattern>) -> Seq<Seq<char>> {
    ps.map_values(|p: glob_sl::Pattern| pattern_text(p))
}

/// The texts of an optional raw pattern list; an absent list is empty.
pub open spec fn list_texts(l: Option<Vec<String>>) -> Seq<Seq<char>> {
    match l {
        Some(v) => v@.map_values(|s: String| s@),
        None => Seq::empty(),
    }
}

/// Whether every pattern text in a list compiles.
pub open spec fn spec_list_ok(l: Seq<Seq<char>>) -> bool {
    forall|i: int| 0 <= i < l.len() ==> glob_pattern_ok(l[i])
}

/// The index of the first pattern in the list that does not compile.
pub open spec fn spec_first_bad_idx(l: Seq<Seq<char>>) -> int
    decreases l.len(),
{
    if l.len() == 0 {
        0
    } else if !glob_pattern_ok(l[0]) {
        0
    } else {
        1 + spec_first_bad_idx(l.drop_first())
    }
}

///`spec_first_bad_idx` finds exactly the first bad pattern.
pub proof fn lemma_first_bad_idx(l: Seq<Seq<char>>, i: int)
    requires
        0 <= i < l.len(),
        !glob_pattern_ok(l[i]),
        forall|j: int| 0 <= j < i ==> glob_pattern_ok(l[j]),
    ensures
        spec_first_bad_idx(l) == i,
    decreases i,
{
    if i > 0 {
        lemma_first_bad_idx(l.drop_first(), i - 1);
    }
}

/// Whether a pattern text ends in the recursive-wildcard suffix.
pub open spec fn spec_ends_recursive(pat: Seq<char>) -> bool {
    pat.len() >= 2 && pat[pat.len() - 1] == '*' && pat[pat.len() - 2] == '*'
}

/// Whether a key ends in the path separator.
pub open spec fn spec_ends_slash(key: Seq<char>) -> bool {
    key.len() > 0 && key[key.len() - 1] == '/'
}

/// Whether one pattern accepts the key.  A pattern ending in the
/// recursive-wildcard suffix is also tried against the key with a trailing
/// separator appended, so that a bare directory name matches a recursive
/// `dir` pattern ending in two wildcard stars.
pub open spec fn spec_pattern_hits(pat: Seq<char>, key: Seq<char>, case_sensitive: bool) -> bool {
    ||| glob_match(pat, key, case_sensitive)
    ||| (spec_ends_recursive(pat) && !spec_ends_slash(key) && glob_match(
        pat,
        key + seq!['/'],
        case_sensitive,
    ))
}

/// Whether any pattern of the list accepts the key.
pub open spec fn spec_any_hit(pats: Seq<Seq<char>>, key: Seq<char>, case_sensitive: bool) -> bool {
    exists|i: int| 0 <= i < pats.len() && spec_pattern_hits(pats[i], key, case_sensitive)
}

/// The matching rule for one list: an empty list (or an empty key) returns
/// the list's default — `false` for exclude lists, `true` for include lists
/// — otherwise whether any pattern accepts the key.
pub open spec fn spec_list_match(
    pats: Seq<Seq<char>>,
    key: Seq<char>,
    case_sensitive: bool,
    empty: bool,
) -> bool {
    if pats.len() == 0 || key.len() == 0 {
        empty
    } else {
        spec_any_hit(pats, key, case_sensitive)
    }
}

/// A directory is kept iff it is not excluded and the include list (empty
/// meaning "everything") accepts its path.
pub open spec fn spec_keep_dir(f: Filter, key: Seq<char>) -> bool {
    &&& !spec_list_match(pattern_texts(f.dir_exclude@), key, f.case_sensitive, false)
    &&& spec_list_match(pattern_texts(f.dir_include@), key, f.case_sensitive, true)
}

/// A file is kept iff it is not excluded and the include list (empty
/// meaning "everything") accepts its name.
pub open spec fn spec_keep_file(f: Filter, name: Seq<char>) -> bool {
    &&& !spec_list_match(pattern_texts(f.file_exclude@), name, f.case_sensitive, false)
    &&& spec_list_match(pattern_texts(f.file_include@), name, f.case_sensitive, true)
}

/// Joining a directory path and a name with the path separator, without
/// doubling a separator the directory already ends in.
pub open spec fn spec_join_path(dir: Seq<char>, name: Seq<char>) -> Seq<char> {
    if dir.len() == 0 {
        name
    } else if dir[dir.len() - 1] == '/' {
        dir + name
    } else {
        dir + seq!['/'] + name
    }
}

/// Whether a raw child entry survives filtering: directories are judged by
/// their full path against the directory lists, everything else by its bare
/// name against the file lists; no filter keeps everything.
pub open spec fn spec_keep_entry(f: Option<Filter>, e: RawEntry) -> bool {
    match f {
        None => true,
        Some(f) => if e.is_dir {
            spec_keep_dir(f, spec_join_path(e.parent_path@, e.file_name@))
        } else {
            spec_keep_file(f, e.file_name@)
        },
    }
}

/// The children of a directory that survive filtering, in order.
pub open spec fn spec_filter_children(children: Seq<RawEntry>, f: Option<Filter>) -> Seq<
    RawEntry,
> {
    children.filter(|e: RawEntry| spec_keep_entry(f, e))
}

fn ends_recursive(s: &str) -> (r: bool)
    ensures
        r == spec_ends_recursive(s@),
{
    let n = s.unicode_len();
    n >= 2 && s.get_char(n - 1) == '*' && s.get_char(n - 2) == '*'
}

fn ends_slash(s: &str) -> (r: bool)
    ensures
        r == spec_ends_slash(s@),
{
    let n = s.unicode_len();
    n > 0 && s.get_char(n - 1) == '/'
}

/// Joins a directory path and a name with the path separator.
pub fn join_path(dir: &str, name: &str) -> (r: String)
    ensures
        r@ == spec_join_path(dir@, name@),
{
    if dir.is_empty() {
        String::from_str(name)
    } else if ends_slash(dir) {
        let mut p = String::from_str(dir);
        p.append(name);
        p
    } else {
        let mut p = String::from_str(dir);
        p.append("/");
        p.append(name);
        proof {
            reveal_strlit("/");
            assert(("/")@ =~= seq!['/']);
        }
        p
    }
}

/// Tests a key against one compiled pattern list; `empty` is the result for
/// an empty list or an empty key.
pub fn filter_direntry(
    key: &str,
    filter: &Vec<glob_sl::Pattern>,
    case_sensitive: bool,
    empty: bool,
) -> (r: bool)
    ensures
        r == spec_list_match(pattern_texts(filter@), key@, case_sensitive, empty),
{
    if filter.len() == 0 || key.is_empty() {
        return empty;
    }
    let key_not_slashed = !ends_slash(key);
    let mut i: usize = 0;
    while i < filter.len()
        invariant
            i <= filter@.len(),
            filter@.len() > 0,
            key@.len() > 0,
            key_not_slashed == !spec_ends_slash(key@),
            forall|j: int|
                0 <= j < i ==> !spec_pattern_hits(
                    pattern_texts(filter@)[j],
                    key@,
                    case_sensitive,
                ),
        decreases filter@.len() - i,
    {
        let p = &filter[i];
        if ends_recursive(p.as_str()) && key_not_slashed {
            let mut k2 = String::from_str(key);
            k2.append("/");
            proof {
                reveal_strlit("/");
                assert(("/")@ =~= seq!['/']);
            }
            if matches_key(p, k2.as_str(), case_sensitive) {
                proof {
                    assert(k2@ =~= key@ + seq!['/']);
                    assert(spec_pattern_hits(
                        pattern_texts(filter@)[i as int],
                        key@,
                        case_sensitive,
                    ));
                }
                return true;
            }
        }
        if matches_key(p, key, case_sensitive) {
            proof {
                assert(spec_pattern_hits(pattern_texts(filter@)[i as int], key@, case_sensitive));
            }
            return true;
        }
        i = i + 1;
    }
    proof {
        assert(forall|j: int|
            0 <= j < pattern_texts(filter@).len() ==> !spec_pattern_hits(
                #[trigger] pattern_texts(filter@)[j],
                key@,
                case_sensitive,
            ));
        assert(!spec_any_hit(pattern_texts(filter@), key@, case_sensitive));
    }
    false
}

/// Decides whether a directory at `key` is descended into.
pub fn filter_dir(key: &str, filter: &Filter) -> (r: bool)
    ensures
        r == spec_keep_dir(*filter, key@),
{
    if filter_direntry(key, &filter.dir_exclude, filter.case_sensitive, false) {
        return false;
    }
    filter_direntry(key, &filter.dir_include, filter.case_sensitive, true)
}

/// Decides whether a file named `name` is admitted.
pub fn filter_file(name: &str, filter: &Filter) -> (r: bool)
    ensures
        r == spec_keep_file(*filter, name@),
{
    if filter_direntry(name, &filter.file_exclude, filter.case_sensitive, false) {
        return false;
    }
    filter_direntry(name, &filter.file_include, filter.case_sensitive, true)
}

/// Keeps exactly the children that survive filtering, in order: excluded
/// directories are pruned before descent, rejected files dropped.
pub fn filter_children(children: Vec<RawEntry>, filter: &Option<Filter>) -> (kept: Vec<RawEntry>)
    ensures
        kept@ == spec_filter_children(children@, *filter),
{
    let ghost orig = children@;
    let mut rest = children;
    let mut kept: Vec<RawEntry> = Vec::new();
    proof {
        reveal(Seq::filter);
        assert(orig.subrange(0, 0) =~= Seq::<RawEntry>::empty());
        assert(kept@ =~= spec_filter_children(orig.subrange(0, 0), *filter));
    }
    let ghost mut done: int = 0;
    while rest.len() > 0
        invariant
            0 <= done <= orig.len(),
            rest@ =~= orig.subrange(done, orig.len() as int),
            kept@ == spec_filter_children(orig.subrange(0, done), *filter),
        decreases rest@.len(),
    {
        let e = rest.remove(0);
        let keep = match filter {
            None => true,
            Some(f) => if e.is_dir {
                let key = join_path(e.parent_path.as_str(), e.file_name.as_str());
                filter_dir(key.as_str(), f)
            } else {
                filter_file(e.file_name.as_str(), f)
            },
        };
        proof {
            assert(e == orig[done]);
            assert(keep == spec_keep_entry(*filter, e));
            reveal(Seq::filter);
            let pre = orig.subrange(0, done);
            let cur = orig.subrange(0, done + 1);
            assert(cur.drop_last() =~= pre);
            assert(cur.last() == orig[done]);
            assert(spec_filter_children(cur, *filter) == if spec_keep_entry(*filter, orig[done]) {
                spec_filter_children(pre, *filter).push(orig[done])
            } else {
                spec_filter_children(pre, *filter)
            });
        }
        if keep {
            kept.push(e);
        }
        proof {
            done = done + 1;
        }
    }
    proof {
        assert(orig.subrange(0, orig.len() as int) =~= orig);
    }
    kept
}

/// Compiles the four pattern lists of the configuration.  All lists empty
/// (or absent) yields `Ok(None)`: traversal then skips filtering.  The
/// first pattern that does not compile fails the whole attempt, naming its
/// list and its text; this happens before any traversal starts.
pub fn create_filter(options: &Options) -> (r: Result<Option<Filter>, ScanError>)
    ensures
        r is Ok <==> {
            &&& spec_list_ok(list_texts(options.dir_include))
            &&& spec_list_ok(list_texts(options.dir_exclude))
            &&& spec_list_ok(list_texts(options.file_include))
            &&& spec_list_ok(list_texts(options.file_exclude))
        },
        r matches Ok(None) ==> {
            &&& list_texts(options.dir_include).len() == 0
            &&& list_texts(options.dir_exclude).len() == 0
            &&& list_texts(options.file_include).len() == 0
            &&& list_texts(options.file_exclude).len() == 0
        },
        r matches Ok(Some(f)) ==> {
            &&& pattern_texts(f.dir_include@) == list_texts(options.dir_include)
            &&& pattern_texts(f.dir_exclude@) == list_texts(options.dir_exclude)
            &&& pattern_texts(f.file_include@) == list_texts(options.file_include)
            &&& pattern_texts(f.file_exclude@) == list_texts(options.file_exclude)
            &&& f.case_sensitive == options.case_sensitive
            &&& list_texts(options.dir_include).len() + list_texts(options.dir_exclude).len()
                + list_texts(options.file_include).len() + list_texts(
                options.file_exclude,
            ).len() > 0
        },
        r matches Err(e) ==> (e matches ScanError::InvalidPattern {
            list,
            pattern,
        } && {
            let texts = spec_failing_list_texts(*options, list);
            &&& list == spec_first_bad_list(*options)
            &&& pattern@ == texts[spec_first_bad_idx(texts)]
        }),
{
    let dir_include = match compile_named_list(&options.dir_include, FilterList::DirInclude) {
        Ok(v) => v,
        Err(e) => {
            return Err(e);
        },
    };
    let dir_exclude = match compile_named_list(&options.dir_exclude, FilterList::DirExclude) {
        Ok(v) => v,
        Err(e) => {
            return Err(e);
        },
    };
    let file_include = match compile_named_list(&options.file_include, FilterList::FileInclude) {
        Ok(v) => v,
        Err(e) => {
            return Err(e);
        },
    };
    let file_exclude = match compile_named_list(&options.file_exclude, FilterList::FileExclude) {
        Ok(v) => v,
        Err(e) => {
            return Err(e);
        },
    };
    if dir_include.len() == 0 && dir_exclude.len() == 0 && file_include.len() == 0
        && file_exclude.len() == 0 {
        Ok(None)
    } else {
        Ok(
            Some(
                Filter {
                    dir_include,
                    dir_exclude,
                    file_include,
                    file_exclude,
                    case_sensitive: options.case_sensitive,
                },
            ),
        )
    }
}

/// The first list, in compilation order, holding a pattern that does not
/// compile.
pub open spec fn spec_first_bad_list(o: Options) -> FilterList {
    if !spec_list_ok(list_texts(o.dir_include)) {
        FilterList::DirInclude
    } else if !spec_list_ok(list_texts(o.dir_exclude)) {
        FilterList::DirExclude
    } else if !spec_list_ok(list_texts(o.file_include)) {
        FilterList::FileInclude
    } else {
        FilterList::FileExclude
    }
}

/// The texts of the configuration list a failure report names.
pub open spec fn spec_failing_list_texts(o: Options, l: FilterList) -> Seq<Seq<char>> {
    match l {
        FilterList::DirInclude => list_texts(o.dir_include),
        FilterList::DirExclude => list_texts(o.dir_exclude),
        FilterList::FileInclude => list_texts(o.file_include),
        FilterList::FileExclude => list_texts(o.file_exclude),
    }
}

fn compile_named_list(l: &Option<Vec<String>>, which: FilterList) -> (r: Result<
    Vec<glob_sl::Pattern>,
    ScanError,
>)
    ensures
        r is Ok <==> spec_list_ok(list_texts(*l)),
        r matches Ok(ps) ==> pattern_texts(ps@) == list_texts(*l),
        r matches Err(e) ==> (e matches ScanError::InvalidPattern {
            list,
            pattern,
        } && list == which && pattern@ == list_texts(*l)[spec_first_bad_idx(list_texts(*l))]),
{
    match l {
        None => {
            let r: Vec<glob_sl::Pattern> = Vec::new();
            proof {
                assert(pattern_texts(r@) =~= list_texts(*l));
            }
            Ok(r)
        },
        Some(v) => {
            let mut out: Vec<glob_sl::Pattern> = Vec::new();
            let mut i: usize = 0;
            while i < v.len()
                invariant
                    *l == Some(*v),
                    i <= v@.len(),
                    out@.len() == i,
                    forall|j: int| 0 <= j < i ==> glob_pattern_ok(#[trigger] v@[j]@),
                    forall|j: int| 0 <= j < i ==> pattern_text(#[trigger] out@[j]) == v@[j]@,
                decreases v@.len() - i,
            {
                match glob_sl::Pattern::new(v[i].as_str()) {
                    Ok(p) => {
                        out.push(p);
                    },
                    Err(_e) => {
                        proof {
                            let texts = list_texts(*l);
                            assert(texts =~= v@.map_values(|s: String| s@));
                            assert(forall|j: int|
                                0 <= j < i ==> #[trigger] texts[j] == v@[j]@ && glob_pattern_ok(
                                    texts[j],
                                ));
                            assert(!glob_pattern_ok(texts[i as int]));
                            lemma_first_bad_idx(texts, i as int);
                            assert(!spec_list_ok(texts));
                        }
                        return Err(
                            ScanError::InvalidPattern {
                                list: which,
                                pattern: clone_string(&v[i]),
                            },
                        );
                    },
                }
                i = i + 1;
            }
            proof {
                assert(pattern_texts(out@) =~= list_texts(*l));
                assert(forall|j: int|
                    0 <= j < list_texts(*l).len() ==> glob_pattern_ok(
                        #[trigger] list_texts(*l)[j],
                    ));
            }
            Ok(out)
        },
    }
}

} // verus!
