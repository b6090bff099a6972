use android_collector::errors::ScanError;
use android_collector::scan_result::{build_scan_entry, ScanResult as YaraScanResult};
use android_collector::scan::Scan;
use android_collector::scandir::Scandir;
use android_collector::scandir_result::{ScandirResult, ScandirResults};
use android_collector::traversal::{TreeEdge, TreeNode};

fn file(name: &str, content: &[u8]) -> TreeNode {
    TreeNode {
        name: name.to_string(),
        is_dir: false,
        is_file: true,
        is_symlink: false,
        meta: None,
        meta_ext: None,
        content: Some(content.to_vec()),
        children: Vec::new(),
    }
}

fn dir(name: &str, children: Vec<TreeEdge>) -> TreeNode {
    TreeNode {
        name: name.to_string(),
        is_dir: true,
        is_file: false,
        is_symlink: false,
        meta: None,
        meta_ext: None,
        content: None,
        children,
    }
}

#[test]
fn new_controller_has_defaults_and_is_idle() {
    let s = Scandir::new("/data".to_string(), None);
    assert!(!s.busy());
    assert!(!s.finished());
    let o = s.options();
    assert_eq!(o.root_path, "/data");
    assert_eq!(o.max_depth, usize::MAX);
    assert_eq!(o.max_file_cnt, usize::MAX);
    assert!(!o.sorted);
    assert!(!o.skip_hidden);
    assert!(!o.case_sensitive);
    assert!(!o.follow_links);
    assert!(o.dir_include.is_none());
}

#[test]
fn builders_normalize_zero_to_unlimited() {
    let s = Scandir::new("/data".to_string(), None).max_depth(0).max_file_cnt(0);
    assert_eq!(s.options().max_depth, usize::MAX);
    assert_eq!(s.options().max_file_cnt, usize::MAX);
    let s2 = Scandir::new("/data".to_string(), None).max_depth(3).max_file_cnt(7);
    assert_eq!(s2.options().max_depth, 3);
    assert_eq!(s2.options().max_file_cnt, 7);
}

#[test]
fn start_while_running_fails_busy_and_leaves_the_scan_alone() {
    let mut s = Scandir::new("/data".to_string(), None);
    let filter = s.start().unwrap();
    assert!(filter.is_none());
    assert!(s.busy());
    // a second start fails with the busy error and changes nothing
    match s.start() {
        Err(ScanError::Busy) => {}
        _ => panic!("expected the busy error"),
    }
    assert!(s.busy());
    assert!(!s.finished());
}

#[test]
fn start_with_bad_pattern_fails_fast_and_stays_idle() {
    let mut s = Scandir::new("/data".to_string(), None)
        .dir_exclude(Some(vec!["bad/**tail".to_string()]));
    // results already in the store survive the failed attempt untouched
    s.results(
        vec![ScandirResult::Error(("kept".to_string(), "m".to_string()))],
        true,
    );
    match s.start() {
        Err(ScanError::InvalidPattern { pattern, .. }) => {
            assert_eq!(pattern, "bad/**tail");
        }
        _ => panic!("expected an invalid-pattern error"),
    }
    assert!(!s.busy());
    assert!(!s.finished());
    assert_eq!(s.errors_cnt(), 1);
}

#[test]
fn join_and_stop_report_whether_a_worker_existed() {
    let mut s = Scandir::new("/data".to_string(), None);
    assert!(!s.join());
    assert!(!s.stop());
    s.start().unwrap();
    assert!(s.stop());
    assert!(s.finished());
    assert!(!s.stop());
}

#[test]
fn results_partitions_and_accumulates() {
    let mut s = Scandir::new("/data".to_string(), None);
    s.start().unwrap();
    let batch1 = vec![
        ScandirResult::Error(("p1".to_string(), "m1".to_string())),
    ];
    let r1 = s.results(batch1, true);
    assert_eq!(r1.results.len(), 0);
    assert_eq!(r1.errors.len(), 1);
    assert!(s.has_errors());
    assert_eq!(s.errors_cnt(), 1);
    // with only_new = false the full history is returned
    let r2 = s.results(Vec::new(), false);
    assert_eq!(r2.errors.len(), 1);
    assert_eq!(r2.errors[0].0, "p1");
    assert_eq!(s.results_cnt(0, false), 1);
    assert!(s.has_results(0, false));
    assert!(!s.has_results(0, true));
    assert!(s.has_results(3, true));
}

#[test]
fn store_false_keeps_no_history() {
    let mut s = Scandir::new("/data".to_string(), Some(false));
    s.start().unwrap();
    let batch = vec![ScandirResult::Error(("p".to_string(), "m".to_string()))];
    let r = s.results(batch, true);
    assert_eq!(r.errors.len(), 1);
    assert_eq!(s.errors_cnt(), 0);
}

#[test]
fn collect_runs_a_whole_tree_scan() {
    let root = dir(
        "data",
        vec![
            TreeEdge::Node(file("a.txt", b"abc")),
            TreeEdge::ReadError("/data/x".to_string(), "io".to_string()),
        ],
    );
    let mut s = Scandir::new("/data".to_string(), None);
    let rs = s.collect(&root).unwrap();
    assert!(s.finished());
    assert_eq!(rs.results.len(), 1);
    assert_eq!(rs.errors.len(), 1);
    assert_eq!(rs.results[0].path(), "a.txt");
}

#[test]
fn collect_on_a_finished_scan_returns_the_store_without_rescanning() {
    let root = dir("data", vec![TreeEdge::Node(file("a.txt", b"abc"))]);
    let mut s = Scandir::new("/data".to_string(), None);
    let first = s.collect(&root).unwrap();
    assert_eq!(first.results.len(), 1);
    // a second collect does not re-run the scan; the store is returned as is
    let empty_root = dir("data", Vec::new());
    let second = s.collect(&empty_root).unwrap();
    assert_eq!(second.results.len(), 1);
    assert_eq!(second.results[0].path(), "a.txt");
}

#[test]
fn collect_while_running_joins_and_returns_the_store() {
    let root = dir("data", Vec::new());
    let mut s = Scandir::new("/data".to_string(), None);
    s.start().unwrap();
    // results drained so far stand in the store
    s.results(
        vec![ScandirResult::Error(("p".to_string(), "m".to_string()))],
        true,
    );
    let rs = s.collect(&root).unwrap();
    assert!(s.finished());
    assert_eq!(rs.errors.len(), 1);
    assert_eq!(rs.errors[0].0, "p");
    assert_eq!(rs.results.len(), 0);
}

#[test]
fn duration_defaults_to_zero_and_resets_on_start() {
    let mut s = Scandir::new("/data".to_string(), None);
    assert_eq!(s.duration(), 0);
    s.note_duration(1500);
    assert_eq!(s.duration(), 1500);
    s.start().unwrap();
    // a new scan starts from the default value again
    assert_eq!(s.duration(), 0);
}

#[test]
fn store_extend_clear_and_len() {
    let mut a = ScandirResults::new();
    assert!(a.is_empty());
    let mut b = ScandirResults::new();
    b.errors.push(("p".to_string(), "m".to_string()));
    a.extend(&b);
    a.extend(&b);
    assert_eq!(a.len(), 2);
    assert!(!a.is_empty());
    a.clear();
    assert!(a.is_empty());
    assert_eq!(a.len(), 0);
}

#[test]
fn scan_controller_mirrors_the_lifecycle() {
    let mut s = Scan::new("/data".to_string(), "/rules.yarc".to_string(), None);
    assert_eq!(s.rule_path(), "/rules.yarc");
    assert!(!s.busy());
    s.start().unwrap();
    assert!(s.busy());
    assert!(matches!(s.start(), Err(ScanError::Busy)));
    assert!(s.join());
    assert!(s.finished());
}

#[test]
fn scan_controller_routes_batches() {
    let mut s = Scan::new("/data".to_string(), "/rules.yarc".to_string(), None);
    s.start().unwrap();
    let batch = vec![
        build_scan_entry("/data/f".to_string(), None),
        YaraScanResult::Error(("/data/g".to_string(), "io".to_string())),
    ];
    let r = s.results(batch, true);
    assert_eq!(r.results.len(), 1);
    assert_eq!(r.errors.len(), 1);
    assert_eq!(r.results[0].path(), "/data/f");
    assert_eq!(s.errors_cnt(), 1);
}
