use android_collector::entry::RawEntry;
use android_collector::errors::{FilterList, ScanError};
use android_collector::filter::{
    create_filter, filter_children, filter_dir, filter_direntry, filter_file, join_path,
};
use android_collector::options::Options;

fn opts_with(
    dir_include: Option<Vec<String>>,
    dir_exclude: Option<Vec<String>>,
    file_include: Option<Vec<String>>,
    file_exclude: Option<Vec<String>>,
    case_sensitive: bool,
) -> Options {
    Options::new(
        "/data".to_string(),
        false,
        false,
        usize::MAX,
        usize::MAX,
        dir_include,
        dir_exclude,
        file_include,
        file_exclude,
        case_sensitive,
        false,
    )
}

#[test]
fn all_lists_empty_means_no_filter() {
    let o = opts_with(None, None, Some(Vec::new()), None, false);
    let f = create_filter(&o).unwrap();
    assert!(f.is_none());
}

#[test]
fn bad_pattern_fails_fast_naming_list_and_pattern() {
    let o = opts_with(
        Some(vec!["ok*".to_string()]),
        Some(vec!["a/**b".to_string()]),
        None,
        None,
        false,
    );
    match create_filter(&o) {
        Err(ScanError::InvalidPattern { list, pattern }) => {
            assert_eq!(list, FilterList::DirExclude);
            assert_eq!(pattern, "a/**b");
        }
        _ => panic!("expected an invalid-pattern error"),
    }
    let msg = match create_filter(&o) {
        Err(e) => e.message(),
        Ok(_) => panic!(),
    };
    assert_eq!(msg, "dir_exclude: invalid pattern a/**b");
}

#[test]
fn busy_error_message() {
    assert_eq!(ScanError::Busy.message(), "Busy");
}

#[test]
fn filter_direntry_empty_list_returns_default() {
    let o = opts_with(Some(vec!["*.txt".to_string()]), None, None, None, false);
    let f = create_filter(&o).unwrap().unwrap();
    // empty exclude list: default false; include list matches
    assert!(!filter_direntry("foo.txt", &f.dir_exclude, f.case_sensitive, false));
    assert!(filter_direntry("foo.txt", &f.dir_include, f.case_sensitive, true));
    assert!(!filter_direntry("foo.rs", &f.dir_include, f.case_sensitive, true));
    // an empty key also returns the default
    assert!(filter_direntry("", &f.dir_include, f.case_sensitive, true));
}

#[test]
fn case_insensitive_matching_by_default() {
    let o = opts_with(None, None, Some(vec!["*.txt".to_string()]), None, false);
    let f = create_filter(&o).unwrap().unwrap();
    assert!(filter_file("FOO.TXT", &f));
    let o2 = opts_with(None, None, Some(vec!["*.txt".to_string()]), None, true);
    let f2 = create_filter(&o2).unwrap().unwrap();
    assert!(!filter_file("FOO.TXT", &f2));
    assert!(filter_file("foo.txt", &f2));
}

#[test]
fn recursive_wildcard_matches_the_bare_directory_name() {
    let o = opts_with(None, Some(vec!["/data/skip/**".to_string()]), None, None, false);
    let f = create_filter(&o).unwrap().unwrap();
    // the bare directory name, no trailing separator, is still excluded
    assert!(!filter_dir("/data/skip", &f));
    assert!(!filter_dir("/data/skip/inner", &f));
    assert!(filter_dir("/data/keep", &f));
}

#[test]
fn join_path_inserts_one_separator() {
    assert_eq!(join_path("/data", "x"), "/data/x");
    assert_eq!(join_path("/data/", "x"), "/data/x");
    assert_eq!(join_path("", "x"), "x");
}

fn child(parent: &str, name: &str, is_dir: bool) -> RawEntry {
    RawEntry {
        parent_path: parent.to_string(),
        file_name: name.to_string(),
        is_symlink: false,
        is_dir,
        is_file: !is_dir,
        meta: None,
        meta_ext: None,
    }
}

#[test]
fn filter_children_prunes_excluded_directories_and_rejected_files() {
    let o = opts_with(
        None,
        Some(vec!["/data/skip/**".to_string()]),
        None,
        Some(vec!["*.log".to_string()]),
        false,
    );
    let f = create_filter(&o).unwrap();
    let children = vec![
        child("/data", "skip", true),
        child("/data", "keep", true),
        child("/data", "a.log", false),
        child("/data", "a.txt", false),
    ];
    let kept = filter_children(children, &f);
    let names: Vec<&str> = kept.iter().map(|e| e.file_name.as_str()).collect();
    assert_eq!(names, vec!["keep", "a.txt"]);
}

#[test]
fn no_filter_keeps_everything() {
    let children = vec![child("/data", "a", true), child("/data", "b", false)];
    let kept = filter_children(children, &None);
    assert_eq!(kept.len(), 2);
}
