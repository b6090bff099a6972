use android_collector::filter::create_filter;
use android_collector::options::Options;
use android_collector::scandir::Scandir;
use android_collector::scandir_result::ScandirResult;
use android_collector::traversal::{scan_tree, traversal_step, TreeEdge, TreeNode};

fn file(name: &str, content: &[u8]) -> TreeNode {
    TreeNode {
        name: name.to_string(),
        is_dir: false,
        is_file: true,
        is_symlink: false,
        meta: None,
        meta_ext: None,
        content: Some(content.to_vec()),
        children: Vec::new(),
    }
}

fn dir(name: &str, children: Vec<TreeEdge>) -> TreeNode {
    TreeNode {
        name: name.to_string(),
        is_dir: true,
        is_file: false,
        is_symlink: false,
        meta: None,
        meta_ext: None,
        content: None,
        children,
    }
}

fn node(n: TreeNode) -> TreeEdge {
    TreeEdge::Node(n)
}

fn opts(root: &str) -> Options {
    Options::new(
        root.to_string(),
        false,
        false,
        usize::MAX,
        usize::MAX,
        None,
        None,
        None,
        None,
        false,
        false,
    )
}

fn paths(results: &[ScandirResult]) -> Vec<String> {
    results.iter().map(|r| r.path().clone()).collect()
}

#[test]
fn root_file_yields_exactly_one_result() {
    let root = file("lonely.txt", b"abc");
    let o = opts("/data/lonely.txt");
    let out = scan_tree(&root, &o, &None);
    assert_eq!(out.len(), 1);
    assert_eq!(out[0].path(), "lonely.txt");
    assert!(out[0].is_file());
    assert_eq!(
        out[0].digest(),
        "ba7816bf8f01cfea414140de5dae2223b00361a396177a9cb410ff61f20015ad"
    );
}

#[test]
fn walk_emits_directories_and_files_with_relative_paths() {
    let root = dir(
        "data",
        vec![
            node(file("a.txt", b"a")),
            node(dir("sub", vec![node(file("b.txt", b"b"))])),
        ],
    );
    let o = opts("/data");
    let out = scan_tree(&root, &o, &None);
    assert_eq!(paths(&out), vec!["a.txt", "sub", "sub/b.txt"]);
    assert!(out[1].is_dir());
    assert_eq!(out[1].digest(), "");
}

#[test]
fn excluded_directory_contributes_zero_entries_even_nested() {
    let skipped = dir(
        "skip",
        vec![
            node(file("inner.txt", b"x")),
            node(dir("deeper", vec![node(file("deepest.txt", b"y"))])),
        ],
    );
    let kept_tree = vec![node(file("a.txt", b"a")), node(dir("keep", vec![node(file("k", b"k"))]))];
    let mut with_excluded = kept_tree.clone_shallow();
    with_excluded.insert(1, node(skipped));
    let root_with = dir("data", with_excluded);
    let root_without = dir("data", kept_tree.clone_shallow());

    let o = opts("/data").clone_with_dir_exclude(vec!["/data/skip/**".to_string()]);
    let f = create_filter(&o).unwrap();
    let out_with = scan_tree(&root_with, &o, &f);
    let out_without = scan_tree(&root_without, &o, &f);
    assert_eq!(paths(&out_with), paths(&out_without));
    for p in paths(&out_with) {
        assert!(!p.starts_with("skip"));
    }
}

// small helpers for building the same subtree twice
trait CloneShallow {
    fn clone_shallow(&self) -> Vec<TreeEdge>;
}

impl CloneShallow for Vec<TreeEdge> {
    fn clone_shallow(&self) -> Vec<TreeEdge> {
        self.iter().map(clone_edge).collect()
    }
}

fn clone_edge(e: &TreeEdge) -> TreeEdge {
    match e {
        TreeEdge::Node(n) => TreeEdge::Node(TreeNode {
            name: n.name.clone(),
            is_dir: n.is_dir,
            is_file: n.is_file,
            is_symlink: n.is_symlink,
            meta: n.meta,
            meta_ext: n.meta_ext,
            content: n.content.clone(),
            children: n.children.clone_shallow(),
        }),
        TreeEdge::ReadError(p, m) => TreeEdge::ReadError(p.clone(), m.clone()),
    }
}

trait WithDirExclude {
    fn clone_with_dir_exclude(self, ex: Vec<String>) -> Options;
}

impl WithDirExclude for Options {
    fn clone_with_dir_exclude(self, ex: Vec<String>) -> Options {
        Options { dir_exclude: Some(ex), ..self }
    }
}

#[test]
fn max_file_cnt_caps_non_directory_entries() {
    let root = dir(
        "data",
        vec![
            node(file("f1", b"1")),
            node(file("f2", b"2")),
            node(dir("sub", vec![node(file("f3", b"3")), node(file("f4", b"4"))])),
            node(file("f5", b"5")),
        ],
    );
    let mut o = opts("/data");
    o.max_file_cnt = 2;
    let out = scan_tree(&root, &o, &None);
    let nondir = out.iter().filter(|r| !r.is_dir()).count();
    assert_eq!(nondir, 2);
    // directory bookkeeping still completes
    assert!(out.iter().any(|r| r.is_dir()));
}

#[test]
fn max_depth_stops_descent() {
    let root = dir(
        "data",
        vec![node(dir("sub", vec![node(file("deep.txt", b"d"))]))],
    );
    let mut o = opts("/data");
    o.max_depth = 1;
    let out = scan_tree(&root, &o, &None);
    assert_eq!(paths(&out), vec!["sub"]);
}

#[test]
fn skip_hidden_drops_dotted_names() {
    let root = dir(
        "data",
        vec![
            node(file(".secret", b"s")),
            node(dir(".git", vec![node(file("conf", b"c"))])),
            node(file("seen", b"s")),
        ],
    );
    let mut o = opts("/data");
    o.skip_hidden = true;
    let out = scan_tree(&root, &o, &None);
    assert_eq!(paths(&out), vec!["seen"]);
}

#[test]
fn provider_errors_become_error_results_and_are_routed() {
    let root = dir(
        "data",
        vec![
            node(file("ok", b"o")),
            TreeEdge::ReadError("/data/broken".to_string(), "permission denied".to_string()),
        ],
    );
    let o = opts("/data");
    let stream = scan_tree(&root, &o, &None);
    assert_eq!(stream.len(), 2);
    assert!(stream[1].error().is_some());

    let mut ctrl = Scandir::new("/data".to_string(), None);
    let rs = ctrl.results(stream, true);
    assert_eq!(rs.results.len(), 1);
    assert_eq!(rs.errors.len(), 1);
    assert_eq!(rs.errors[0].0, "/data/broken");
    assert_eq!(rs.errors[0].1, "permission denied");
}

#[test]
fn unreadable_file_degrades_to_empty_digest_not_error() {
    let mut f = file("locked", b"");
    f.content = None;
    let root = dir("data", vec![node(f)]);
    let o = opts("/data");
    let out = scan_tree(&root, &o, &None);
    assert_eq!(out.len(), 1);
    assert_eq!(out[0].digest(), "");
    assert!(out[0].error().is_none());
}

#[test]
fn symlinked_directory_not_descended_without_follow_links() {
    let mut link = dir("link", vec![node(file("inside", b"i"))]);
    link.is_symlink = true;
    let root = dir("data", vec![node(link)]);
    let o = opts("/data");
    let out = scan_tree(&root, &o, &None);
    assert_eq!(paths(&out), vec!["link"]);
    let mut o2 = opts("/data");
    o2.follow_links = true;
    let root2 = dir("data", {
        let mut l = dir("link", vec![node(file("inside", b"i"))]);
        l.is_symlink = true;
        vec![node(l)]
    });
    let out2 = scan_tree(&root2, &o2, &None);
    assert_eq!(paths(&out2), vec!["link", "link/inside"]);
}

#[test]
fn traversal_step_stops_at_once_on_a_stop_request() {
    // a stop request ends the walk immediately, whatever the node
    assert_eq!(traversal_step(5, false, true, 100), (5, false));
    assert_eq!(traversal_step(0, true, true, 0), (0, false));
    // directories never consume the budget
    assert_eq!(traversal_step(5, true, false, 6), (5, true));
    // the file that exceeds the budget ends the walk
    assert_eq!(traversal_step(5, false, false, 6), (6, true));
    assert_eq!(traversal_step(6, false, false, 6), (7, false));
    // zero means unlimited in the raw configuration
    assert_eq!(traversal_step(1000, false, false, 0), (1001, true));
}
