use android_collector::digest::digest_of_content;
use android_collector::direntry::Timestamp;
use android_collector::entry::{create_entry, get_root_path_len, FileMeta, RawEntry};
use android_collector::scandir_result::ScandirResult;

#[test]
fn digest_of_empty_content_is_the_known_vector() {
    let d = digest_of_content(&[]);
    assert_eq!(
        d,
        "e3b0c44298fc1c149afbf4c8996fb92427ae41e4649b934ca495991b7852b855"
    );
}

#[test]
fn digest_of_abc_is_the_known_vector() {
    let d = digest_of_content(b"abc");
    assert_eq!(
        d,
        "ba7816bf8f01cfea414140de5dae2223b00361a396177a9cb410ff61f20015ad"
    );
}

#[test]
fn hashing_same_content_twice_is_deterministic() {
    let a = digest_of_content(b"some file content");
    let b = digest_of_content(b"some file content");
    assert_eq!(a, b);
    assert_eq!(a.len(), 64);
}

#[test]
fn root_path_len_counts_the_separator() {
    assert_eq!(get_root_path_len("/data"), 6);
    assert_eq!(get_root_path_len("/data/"), 6);
    assert_eq!(get_root_path_len("/"), 1);
    assert_eq!(get_root_path_len(""), 1);
}

fn raw(parent: &str, name: &str, is_dir: bool, is_file: bool) -> RawEntry {
    RawEntry {
        parent_path: parent.to_string(),
        file_name: name.to_string(),
        is_symlink: false,
        is_dir,
        is_file,
        meta: None,
        meta_ext: None,
    }
}

#[test]
fn create_entry_relativizes_the_path() {
    let e = raw("/data/sub", "file.txt", false, true);
    let r = create_entry(get_root_path_len("/data"), &e, Some(b"abc"));
    match r {
        ScandirResult::DirEntry(d) => {
            assert_eq!(d.path, "sub/file.txt");
            assert!(d.is_file);
            assert!(!d.is_dir);
            assert_eq!(
                d.digest,
                "ba7816bf8f01cfea414140de5dae2223b00361a396177a9cb410ff61f20015ad"
            );
        }
        ScandirResult::Error(_) => panic!("expected an entry"),
    }
}

#[test]
fn create_entry_direct_child_has_bare_name() {
    let e = raw("/data", "file.txt", false, true);
    let r = create_entry(get_root_path_len("/data"), &e, None);
    assert_eq!(r.path(), "file.txt");
    // unreadable file: empty digest, still a normal entry
    assert_eq!(r.digest(), "");
    assert!(r.error().is_none());
}

#[test]
fn create_entry_fills_metadata_and_defaults() {
    let mut e = raw("/data", "f", false, true);
    e.meta = Some(FileMeta {
        created: Some(Timestamp { secs: 100, nanos: 5 }),
        modified: Some(Timestamp { secs: 200, nanos: 0 }),
        accessed: None,
        size: 42,
    });
    let r = create_entry(6, &e, None);
    match r {
        ScandirResult::DirEntry(d) => {
            assert_eq!(d.st_size, 42);
            assert_eq!(d.st_blksize, 4096); // default when no extended metadata
            assert_eq!(d.st_mode, 0);
            assert_eq!(d.ctime(), 100);
            assert_eq!(d.mtime(), 200);
            assert_eq!(d.atime(), 0);
        }
        ScandirResult::Error(_) => panic!("expected an entry"),
    }
}
