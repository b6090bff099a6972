//! The traversal engine, as a verified walk over a directory tree.
//!
//! The operating system's walker delivers directory listings; this module
//! pins what the engine does with them: hidden-entry skipping, filter
//! pruning before descent, depth and file-count limits, entry emission and
//! failure isolation.  `spec_scan` is the mathematical model; `scan_tree`
//! computes it over an in-memory tree, and the per-directory pieces
//! (`filter_children`, `create_entry`) are shared with the threaded walker.

use vstd::prelude::*;

use crate::direntry::clone_string;
use crate::entry::{
    get_root_path_len, spec_root_path_len, create_entry, spec_entry_view,
    FileMeta, FileMetaExt, RawEntry,
};
use crate::filter::{
    filter_dir, filter_file, join_path, spec_join_path, spec_keep_dir, spec_keep_file, Filter,
};
use crate::options::Options;
use crate::scandir_result::{
    lemma_result_views_push, result_views, ScandirResult, ScandirResultView,
};

verus! {

broadcast use vstd::seq::axiom_seq_index_decreases;

/// One child reported while listing a directory: a node, or the provider's
/// failure to read it, as a `(path, message)` pair.
pub enum TreeEdge {
    Node(TreeNode),
    ReadError(String, String),
}

/// One filesystem node of an in-memory tree: its name, type flags,
/// metadata, content (`None` when unreadable) and children (empty unless it
/// is a directory that was listed).
pub struct TreeNode {
    pub name: String,
    pub is_dir: bool,
    pub is_file: bool,
    pub is_symlink: bool,
    pub meta: Option<FileMeta>,
    pub meta_ext: Option<FileMetaExt>,
    pub content: Option<Vec<u8>>,
    pub children: Vec<TreeEdge>,
}

/// The read-only context of one walk: configuration, compiled filter, root
/// prefix length.
pub ghost struct WalkCfg {
    pub opts: Options,
    pub filter: Option<Filter>,
    pub rpl: int,
}

/// The walk context for given configuration, filter and root prefix length.
pub open spec fn cfg_of(opts: Options, filter: Option<Filter>, rpl: int) -> WalkCfg {
    WalkCfg { opts, filter, rpl }
}

/// A name the walker treats as hidden.
pub open spec fn spec_is_hidden(name: Seq<char>) -> bool {
    name.len() > 0 && name[0] == '.'
}

/// Whether a tree node survives filtering: directories by their full path
/// against the directory lists, everything else by bare name against the
/// file lists.
pub open spec fn spec_keep_node(f: Option<Filter>, parent: Seq<char>, n: TreeNode) -> bool {
    match f {
        None => true,
        Some(f) => if n.is_dir {
            spec_keep_dir(f, spec_join_path(parent, n.name@))
        } else {
            spec_keep_file(f, n.name@)
        },
    }
}

/// The content of a node, if it was readable.
pub open spec fn spec_tree_content(n: TreeNode) -> Option<Seq<u8>> {
    match n.content {
        Some(c) => Some(c@),
        None => None,
    }
}

/// Whether the walker descends into a directory node: symlinked
/// directories only when links are followed.
pub open spec fn spec_descends(opts: Options, n: TreeNode) -> bool {
    n.is_dir && (!n.is_symlink || opts.follow_links)
}

/// What the walk of one reported child emits, and the file counter after
/// it.  A provider error becomes one `Error` result; a hidden or filtered
/// node is skipped entirely, its subtree with it; a kept directory is
/// emitted and, within the depth limit, descended into; a kept non-directory
/// is emitted only while the file budget `cnt < max_file_cnt` has room,
/// and then counts against it.
pub open spec fn spec_scan_edge(
    edge: TreeEdge,
    parent: Seq<char>,
    depth: int,
    cfg: WalkCfg,
    cnt: int,
) -> (Seq<ScandirResultView>, int)
    decreases edge, 0int,
{
    match edge {
        TreeEdge::ReadError(p, m) => (seq![ScandirResultView::Error(p@, m@)], cnt),
        TreeEdge::Node(n) => {
            if cfg.opts.skip_hidden && spec_is_hidden(n.name@) {
                (Seq::empty(), cnt)
            } else if !spec_keep_node(cfg.filter, parent, n) {
                (Seq::empty(), cnt)
            } else if n.is_dir {
                let entry = spec_entry_view(
                    cfg.rpl,
                    parent,
                    n.name@,
                    n.is_symlink,
                    n.is_dir,
                    n.is_file,
                    n.meta,
                    n.meta_ext,
                    None,
                );
                if depth < cfg.opts.max_depth && spec_descends(cfg.opts, n) {
                    let sub = spec_scan_edges(
                        n.children@,
                        0,
                        spec_join_path(parent, n.name@),
                        depth + 1,
                        cfg,
                        cnt,
                    );
                    (seq![entry] + sub.0, sub.1)
                } else {
                    (seq![entry], cnt)
                }
            } else {
                if cnt < cfg.opts.max_file_cnt {
                    (
                        seq![
                            spec_entry_view(
                                cfg.rpl,
                                parent,
                                n.name@,
                                n.is_symlink,
                                n.is_dir,
                                n.is_file,
                                n.meta,
                                n.meta_ext,
                                spec_tree_content(n),
                            ),
                        ],
                        cnt + 1,
                    )
                } else {
                    (Seq::empty(), cnt)
                }
            }
        },
    }
}

/// What the walk of a directory listing from child `i` on emits, and the
/// file counter after it.
pub open spec fn spec_scan_edges(
    edges: Seq<TreeEdge>,
    i: int,
    parent: Seq<char>,
    depth: int,
    cfg: WalkCfg,
    cnt: int,
) -> (Seq<ScandirResultView>, int)
    decreases edges, edges.len() - i,
{
    if i < 0 || i >= edges.len() {
        (Seq::empty(), cnt)
    } else {
        let head = spec_scan_edge(edges[i], parent, depth, cfg, cnt);
        let tail = spec_scan_edges(edges, i + 1, parent, depth, cfg, head.1);
        (head.0 + tail.0, tail.1)
    }
}

/// What a whole scan emits.  A root that is not a directory yields exactly
/// one entry and nothing else — no traversal, no filtering, no counting.
/// Otherwise the walk starts with the root's listed children at depth one;
/// the root directory itself is not emitted.
pub open spec fn spec_scan(root: TreeNode, opts: Options, filter: Option<Filter>) -> Seq<
    ScandirResultView,
> {
    let rpl = spec_root_path_len(opts.root_path@);
    if !root.is_dir {
        seq![
            spec_entry_view(
                rpl,
                Seq::empty(),
                root.name@,
                root.is_symlink,
                root.is_dir,
                root.is_file,
                root.meta,
                root.meta_ext,
                spec_tree_content(root),
            ),
        ]
    } else if opts.max_depth >= 1 {
        spec_scan_edges(root.children@, 0, opts.root_path@, 1, cfg_of(opts, filter, rpl), 0).0
    } else {
        Seq::empty()
    }
}

/// Whether a result is a non-directory entry — what the file budget counts.
pub open spec fn spec_is_nondir_entry(v: ScandirResultView) -> bool {
    match v {
        ScandirResultView::DirEntry(e) => !e.is_dir,
        ScandirResultView::Error(_p, _m) => false,
    }
}

/// How many results of the sequence are non-directory entries.
pub open spec fn spec_count_nondir(s: Seq<ScandirResultView>) -> int
    decreases s.len(),
{
    if s.len() == 0 {
        0
    } else {
        (if spec_is_nondir_entry(s[0]) {
            1int
        } else {
            0int
        }) + spec_count_nondir(s.drop_first())
    }
}

/// The non-directory count distributes over concatenation.
pub proof fn lemma_count_nondir_add(a: Seq<ScandirResultView>, b: Seq<ScandirResultView>)
    ensures
        spec_count_nondir(a + b) == spec_count_nondir(a) + spec_count_nondir(b),
    decreases a.len(),
{
    if a.len() == 0 {
        assert(a + b =~= b);
    } else {
        assert((a + b)[0] == a[0]);
        assert((a + b).drop_first() =~= a.drop_first() + b);
        lemma_count_nondir_add(a.drop_first(), b);
    }
}

/// The non-directory count of a single result.
pub proof fn lemma_count_nondir_single(v: ScandirResultView)
    ensures
        spec_count_nondir(seq![v]) == if spec_is_nondir_entry(v) {
            1int
        } else {
            0int
        },
{
    assert(seq![v].drop_first() =~= Seq::<ScandirResultView>::empty());
    assert(spec_count_nondir(Seq::<ScandirResultView>::empty()) == 0);
}

/// Walking one child moves the file counter up by exactly the number of
/// non-directory entries it emits, and never past the budget.
pub proof fn lemma_edge_cnt(edge: TreeEdge, parent: Seq<char>, depth: int, cfg: WalkCfg, cnt: int)
    requires
        cnt <= cfg.opts.max_file_cnt,
    ensures
        ({
            let r = spec_scan_edge(edge, parent, depth, cfg, cnt);
            &&& cnt <= r.1 <= cfg.opts.max_file_cnt
            &&& r.1 - cnt == spec_count_nondir(r.0)
        }),
    decreases edge, 0int,
{
    let r = spec_scan_edge(edge, parent, depth, cfg, cnt);
    match edge {
        TreeEdge::ReadError(p, m) => {
            lemma_count_nondir_single(ScandirResultView::Error(p@, m@));
        },
        TreeEdge::Node(n) => {
            if cfg.opts.skip_hidden && spec_is_hidden(n.name@) {
            } else if !spec_keep_node(cfg.filter, parent, n) {
            } else if n.is_dir {
                let entry = spec_entry_view(
                    cfg.rpl,
                    parent,
                    n.name@,
                    n.is_symlink,
                    n.is_dir,
                    n.is_file,
                    n.meta,
                    n.meta_ext,
                    None,
                );
                lemma_count_nondir_single(entry);
                if depth < cfg.opts.max_depth && spec_descends(cfg.opts, n) {
                    let sub = spec_scan_edges(
                        n.children@,
                        0,
                        spec_join_path(parent, n.name@),
                        depth + 1,
                        cfg,
                        cnt,
                    );
                    lemma_edges_cnt(
                        n.children@,
                        0,
                        spec_join_path(parent, n.name@),
                        depth + 1,
                        cfg,
                        cnt,
                    );
                    lemma_count_nondir_add(seq![entry], sub.0);
                }
            } else {
                if cnt < cfg.opts.max_file_cnt {
                    lemma_count_nondir_single(r.0[0]);
                    assert(r.0 =~= seq![r.0[0]]);
                }
            }
        },
    }
}

/// Walking a listing from child `i` on moves the file counter up by
/// exactly the number of non-directory entries it emits, and never past the
/// budget.
pub proof fn lemma_edges_cnt(
    edges: Seq<TreeEdge>,
    i: int,
    parent: Seq<char>,
    depth: int,
    cfg: WalkCfg,
    cnt: int,
)
    requires
        cnt <= cfg.opts.max_file_cnt,
    ensures
        ({
            let r = spec_scan_edges(edges, i, parent, depth, cfg, cnt);
            &&& cnt <= r.1 <= cfg.opts.max_file_cnt
            &&& r.1 - cnt == spec_count_nondir(r.0)
        }),
    decreases edges, edges.len() - i,
{
    if i < 0 || i >= edges.len() {
        assert(spec_count_nondir(Seq::<ScandirResultView>::empty()) == 0);
    } else {
        let head = spec_scan_edge(edges[i], parent, depth, cfg, cnt);
        lemma_edge_cnt(edges[i], parent, depth, cfg, cnt);
        let tail = spec_scan_edges(edges, i + 1, parent, depth, cfg, head.1);
        lemma_edges_cnt(edges, i + 1, parent, depth, cfg, head.1);
        lemma_count_nondir_add(head.0, tail.0);
    }
}

/// Law: with `max_file_cnt` set to `n`, a scan of a directory tree yields
/// at most `n` non-directory entries, however large the tree.
pub proof fn lemma_max_file_cnt(root: TreeNode, opts: Options, filter: Option<Filter>)
    requires
        root.is_dir,
    ensures
        spec_count_nondir(spec_scan(root, opts, filter)) <= opts.max_file_cnt,
{
    let rpl = spec_root_path_len(opts.root_path@);
    if opts.max_depth >= 1 {
        lemma_edges_cnt(root.children@, 0, opts.root_path@, 1, cfg_of(opts, filter, rpl), 0);
    } else {
        assert(spec_count_nondir(Seq::<ScandirResultView>::empty()) == 0);
    }
}

/// Law: a root that is not a directory yields exactly one result — the
/// root's own entry — with no traversal behind it.
pub proof fn lemma_root_file_single(root: TreeNode, opts: Options, filter: Option<Filter>)
    requires
        !root.is_dir,
    ensures
        spec_scan(root, opts, filter).len() == 1,
        spec_scan(root, opts, filter)[0] == spec_entry_view(
            spec_root_path_len(opts.root_path@),
            Seq::empty(),
            root.name@,
            root.is_symlink,
            root.is_dir,
            root.is_file,
            root.meta,
            root.meta_ext,
            spec_tree_content(root),
        ),
{
}

/// Whether the walk skips a reported child entirely — a hidden node while
/// hidden entries are skipped, or one the filter rejects; an excluded
/// directory in particular.  A skipped child emits nothing and is never
/// descended into.
pub open spec fn spec_edge_skipped(edge: TreeEdge, parent: Seq<char>, cfg: WalkCfg) -> bool {
    edge matches TreeEdge::Node(n) && ((cfg.opts.skip_hidden && spec_is_hidden(n.name@))
        || !spec_keep_node(cfg.filter, parent, n))
}

/// The walk depends only on the listing's suffix: two listings equal from
/// their respective starting points on are walked alike.
pub proof fn lemma_scan_suffix_eq(
    e1: Seq<TreeEdge>,
    i1: int,
    e2: Seq<TreeEdge>,
    i2: int,
    parent: Seq<char>,
    depth: int,
    cfg: WalkCfg,
    cnt: int,
)
    requires
        0 <= i1 <= e1.len(),
        0 <= i2 <= e2.len(),
        e1.subrange(i1, e1.len() as int) == e2.subrange(i2, e2.len() as int),
    ensures
        spec_scan_edges(e1, i1, parent, depth, cfg, cnt) == spec_scan_edges(
            e2,
            i2,
            parent,
            depth,
            cfg,
            cnt,
        ),
    decreases e1.len() - i1,
{
    let s1 = e1.subrange(i1, e1.len() as int);
    let s2 = e2.subrange(i2, e2.len() as int);
    assert(s1.len() == s2.len());
    if i1 >= e1.len() {
        assert(i2 >= e2.len());
    } else {
        assert(s1[0] == e1[i1]);
        assert(s2[0] == e2[i2]);
        assert(e1[i1] == e2[i2]);
        let head = spec_scan_edge(e1[i1], parent, depth, cfg, cnt);
        assert forall|j: int| 0 <= j < e1.len() - i1 - 1 implies #[trigger] e1.subrange(
            i1 + 1,
            e1.len() as int,
        )[j] == e2.subrange(i2 + 1, e2.len() as int)[j] by {
            assert(s1[j + 1] == e1[i1 + 1 + j]);
            assert(s2[j + 1] == e2[i2 + 1 + j]);
        }
        assert(e1.subrange(i1 + 1, e1.len() as int) =~= e2.subrange(i2 + 1, e2.len() as int));
        lemma_scan_suffix_eq(e1, i1 + 1, e2, i2 + 1, parent, depth, cfg, head.1);
    }
}

/// A skipped child, wherever it stands in the listing, contributes nothing:
/// the walk of the listing equals the walk of the listing with that child —
/// its whole subtree with it — removed.
pub proof fn lemma_pruned_edge_no_contribution(
    edges: Seq<TreeEdge>,
    i: int,
    k: int,
    parent: Seq<char>,
    depth: int,
    cfg: WalkCfg,
    cnt: int,
)
    requires
        0 <= i <= k < edges.len(),
        spec_edge_skipped(edges[k], parent, cfg),
    ensures
        spec_scan_edges(edges, i, parent, depth, cfg, cnt) == spec_scan_edges(
            edges.remove(k),
            i,
            parent,
            depth,
            cfg,
            cnt,
        ),
    decreases k - i,
{
    let er = edges.remove(k);
    assert(er =~= edges.subrange(0, k) + edges.subrange(k + 1, edges.len() as int));
    assert(er.len() == edges.len() - 1);
    if i == k {
        assert(spec_scan_edge(edges[i], parent, depth, cfg, cnt) == (
            Seq::<ScandirResultView>::empty(),
            cnt,
        ));
        assert(edges.subrange(i + 1, edges.len() as int) =~= er.subrange(i, er.len() as int));
        lemma_scan_suffix_eq(edges, i + 1, er, i, parent, depth, cfg, cnt);
        let tail = spec_scan_edges(edges, i + 1, parent, depth, cfg, cnt);
        assert(Seq::<ScandirResultView>::empty() + tail.0 =~= tail.0);
    } else {
        assert(er[i] == edges[i]);
        let head = spec_scan_edge(edges[i], parent, depth, cfg, cnt);
        lemma_pruned_edge_no_contribution(edges, i + 1, k, parent, depth, cfg, head.1);
    }
}

/// Law: a directory the filter excludes contributes zero entries to the
/// result set, nested descendants included — a scan of a tree equals the
/// scan of the same tree with the excluded directory's whole subtree
/// removed.  The same holds for any child the walk skips.
pub proof fn lemma_excluded_dir_contributes_nothing(
    root1: TreeNode,
    root2: TreeNode,
    k: int,
    opts: Options,
    filter: Option<Filter>,
)
    requires
        root1.is_dir,
        root2.is_dir,
        0 <= k < root1.children@.len(),
        spec_edge_skipped(
            root1.children@[k],
            opts.root_path@,
            cfg_of(opts, filter, spec_root_path_len(opts.root_path@)),
        ),
        root2.children@ == root1.children@.remove(k),
    ensures
        spec_scan(root1, opts, filter) == spec_scan(root2, opts, filter),
{
    let rpl = spec_root_path_len(opts.root_path@);
    if opts.max_depth >= 1 {
        lemma_pruned_edge_no_contribution(
            root1.children@,
            0,
            k,
            opts.root_path@,
            1,
            cfg_of(opts, filter, rpl),
            0,
        );
    }
}

/// The per-result decision of the walker's polling loop, one call per
/// yielded node: returns the updated file count and whether the walk goes
/// on.  A stop request, observed here once per unit of work, ends the walk
/// at once — nothing further is scheduled; a non-directory node counts
/// against the file budget and ends the walk once the budget is exceeded
/// (zero meaning unlimited, as the raw configuration has it).
pub fn traversal_step(
    file_cnt: usize,
    is_dir: bool,
    stop_requested: bool,
    max_file_cnt: usize,
) -> (r: (usize, bool))
    requires
        file_cnt < usize::MAX,
    ensures
        stop_requested ==> r == (file_cnt, false),
        !stop_requested && is_dir ==> r == (file_cnt, true),
        !stop_requested && !is_dir ==> r.0 == file_cnt + 1 && r.1 == !(max_file_cnt > 0 && r.0
            > max_file_cnt),
{
    if stop_requested {
        (file_cnt, false)
    } else if is_dir {
        (file_cnt, true)
    } else {
        let c = file_cnt + 1;
        (c, !(max_file_cnt > 0 && c > max_file_cnt))
    }
}

fn is_hidden_name(name: &str) -> (r: bool)
    ensures
        r == spec_is_hidden(name@),
{
    let n = name.unicode_len();
    n > 0 && name.get_char(0) == '.'
}

/// Walks the children of one directory from index `i` on, emitting into
/// `out` and counting admitted files in `cnt`; computes exactly what
/// `spec_scan_edges` says.
fn walk_edges(
    edges: &Vec<TreeEdge>,
    i: usize,
    parent: &String,
    depth: usize,
    opts: &Options,
    filter: &Option<Filter>,
    rpl: usize,
    cnt: &mut usize,
    out: &mut Vec<ScandirResult>,
)
    requires
        i <= edges@.len(),
        *old(cnt) <= opts.max_file_cnt,
    ensures
        ({
            let r = spec_scan_edges(
                edges@,
                i as int,
                parent@,
                depth as int,
                cfg_of(*opts, *filter, rpl as int),
                *old(cnt) as int,
            );
            &&& *final(cnt) == r.1
            &&& *final(cnt) <= opts.max_file_cnt
            &&& result_views(final(out)@) == result_views(old(out)@) + r.0
        }),
    decreases edges@, edges@.len() - i,
{
    let ghost cfg = cfg_of(*opts, *filter, rpl as int);
    let ghost c0 = *cnt as int;
    if i >= edges.len() {
        proof {
            assert(result_views(out@) + Seq::<ScandirResultView>::empty() =~= result_views(
                out@,
            ));
        }
        return ;
    }
    let ghost head = spec_scan_edge(edges@[i as int], parent@, depth as int, cfg, c0);
    proof {
        lemma_edge_cnt(edges@[i as int], parent@, depth as int, cfg, c0);
    }
    let ghost out0 = out@;
    match &edges[i] {
        TreeEdge::ReadError(p, m) => {
            let e = ScandirResult::Error((clone_string(p), clone_string(m)));
            proof {
                lemma_result_views_push(out@, e);
            }
            out.push(e);
            proof {
                assert(result_views(out@) =~= result_views(out0) + head.0);
            }
        },
        TreeEdge::Node(n) => {
            let skip_hidden = opts.skip_hidden && is_hidden_name(n.name.as_str());
            if !skip_hidden {
                let keep = match filter {
                    None => true,
                    Some(f) => if n.is_dir {
                        let key = join_path(parent.as_str(), n.name.as_str());
                        filter_dir(key.as_str(), f)
                    } else {
                        filter_file(n.name.as_str(), f)
                    },
                };
                proof {
                    assert(keep == spec_keep_node(*filter, parent@, *n));
                }
                if keep {
                    if n.is_dir {
                        let raw = RawEntry {
                            parent_path: clone_string(parent),
                            file_name: clone_string(&n.name),
                            is_symlink: n.is_symlink,
                            is_dir: n.is_dir,
                            is_file: n.is_file,
                            meta: n.meta,
                            meta_ext: n.meta_ext,
                        };
                        let e = create_entry(rpl, &raw, None);
                        proof {
                            lemma_result_views_push(out@, e);
                        }
                        out.push(e);
                        if depth < opts.max_depth && (!n.is_symlink || opts.follow_links) {
                            let sub_parent = join_path(parent.as_str(), n.name.as_str());
                            proof {
                                assert(decreases_to!(edges@ => edges@[i as int]));
                                assert(edges@[i as int]->Node_0 == *n);
                                assert(decreases_to!(edges@[i as int] => n.children@));
                            }
                            walk_edges(
                                &n.children,
                                0,
                                &sub_parent,
                                depth + 1,
                                opts,
                                filter,
                                rpl,
                                cnt,
                                out,
                            );
                        }
                        proof {
                            assert(result_views(out@) =~= result_views(out0) + head.0);
                        }
                    } else {
                        if *cnt < opts.max_file_cnt {
                            let raw = RawEntry {
                                parent_path: clone_string(parent),
                                file_name: clone_string(&n.name),
                                is_symlink: n.is_symlink,
                                is_dir: n.is_dir,
                                is_file: n.is_file,
                                meta: n.meta,
                                meta_ext: n.meta_ext,
                            };
                            let content = match &n.content {
                                Some(c) => Some(c.as_slice()),
                                None => None,
                            };
                            let e = create_entry(rpl, &raw, content);
                            proof {
                                lemma_result_views_push(out@, e);
                            }
                            out.push(e);
                            *cnt = *cnt + 1;
                            proof {
                                assert(result_views(out@) =~= result_views(out0) + head.0);
                            }
                        }
                    }
                }
            }
        },
    }
    proof {
        assert(*cnt as int == head.1);
        assert(result_views(out@) == result_views(out0) + head.0);
    }
    let ghost mid = out@;
    proof {
        assert(decreases_to!(edges@.len() - i as int => edges@.len() - (i + 1)));
    }
    walk_edges(edges, i + 1, parent, depth, opts, filter, rpl, cnt, out);
    proof {
        let tail = spec_scan_edges(edges@, i + 1, parent@, depth as int, cfg, head.1);
        assert(result_views(out@) =~= result_views(out0) + (head.0 + tail.0));
    }
}

/// Runs a whole scan over an in-memory tree rooted at the configuration's
/// root path, and returns the emitted result stream: exactly `spec_scan`.
/// A non-directory root yields its single entry; a directory root is walked
/// with pruning, depth limit and file budget as configured.
pub fn scan_tree(root: &TreeNode, opts: &Options, filter: &Option<Filter>) -> (r: Vec<
    ScandirResult,
>)
    requires
        opts.root_path@.len() < usize::MAX,
    ensures
        result_views(r@) == spec_scan(*root, *opts, *filter),
        !root.is_dir ==> r@.len() == 1,
{
    let rpl = get_root_path_len(opts.root_path.as_str());
    let mut out: Vec<ScandirResult> = Vec::new();
    if !root.is_dir {
        let raw = RawEntry {
            parent_path: String::new(),
            file_name: clone_string(&root.name),
            is_symlink: root.is_symlink,
            is_dir: root.is_dir,
            is_file: root.is_file,
            meta: root.meta,
            meta_ext: root.meta_ext,
        };
        let content = match &root.content {
            Some(c) => Some(c.as_slice()),
            None => None,
        };
        let e = create_entry(rpl, &raw, content);
        proof {
            lemma_result_views_push(out@, e);
        }
        out.push(e);
        proof {
            assert(result_views(out@) =~= spec_scan(*root, *opts, *filter));
        }
        return out;
    }
    if opts.max_depth >= 1 {
        let mut cnt: usize = 0;
        walk_edges(&root.children, 0, &opts.root_path, 1, opts, filter, rpl, &mut cnt, &mut out);
        proof {
            assert(result_views(out@) =~= spec_scan(*root, *opts, *filter));
        }
    } else {
        proof {
            assert(result_views(out@) =~= spec_scan(*root, *opts, *filter));
        }
    }
    out
}

} // verus!
