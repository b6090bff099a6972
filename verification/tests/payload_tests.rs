use android_collector::report::{to_androidqf_file_info, AndroidQFProcessInfo};
use android_collector::direntry::{DirEntry, Timestamp};
use android_collector::scan_result::{
    build_scan_entry, pattern_json_of, patterns_to_json, rules_to_json, RawPatternMatch,
    RawRuleMatch, ScanResult,
};
use android_collector::scandir_result::ScandirResult;

fn raw_match(identifier: &str, offset: usize, data: &[u8], xor_key: Option<u8>) -> RawPatternMatch {
    RawPatternMatch {
        identifier: identifier.to_string(),
        offset,
        data: data.to_vec(),
        xor_key,
    }
}

#[test]
fn match_payload_carries_offset_and_exact_preview() {
    // a rule matching "AAAA" at a known offset in the scanned file
    let p = pattern_json_of(&raw_match("$a", 37, b"AAAA", None), 1024);
    assert_eq!(p.identifier, "$a");
    assert_eq!(p.offset, 37);
    assert_eq!(p.matched, "AAAA");
    assert!(p.xor_key.is_none());
    assert!(p.plaintext.is_none());
}

#[test]
fn preview_is_capped_with_an_explicit_more_bytes_suffix() {
    let p = pattern_json_of(&raw_match("$a", 0, b"ABCDEFGHIJ", None), 4);
    assert_eq!(p.matched, "ABCD ... 6 more bytes");
}

#[test]
fn preview_escapes_non_printable_bytes() {
    let p = pattern_json_of(&raw_match("$a", 0, b"a\n\x00\\\"'\x7f", None), 1024);
    assert_eq!(p.matched, "a\\n\\x00\\\\\\\"\\'\\x7f");
}

#[test]
fn recovered_xor_key_adds_a_decoded_preview() {
    // "aaaa" XOR 0x20 is "AAAA"
    let p = pattern_json_of(&raw_match("$a", 5, b"aaaa", Some(0x20)), 1024);
    assert_eq!(p.xor_key, Some(0x20));
    assert_eq!(p.plaintext.as_deref(), Some("AAAA"));
    assert_eq!(p.matched, "aaaa");
}

#[test]
fn decoded_preview_is_capped_without_suffix() {
    let p = pattern_json_of(&raw_match("$a", 0, b"aaaaaaaa", Some(0x20)), 4);
    assert_eq!(p.matched, "aaaa ... 4 more bytes");
    assert_eq!(p.plaintext.as_deref(), Some("AAAA"));
}

#[test]
fn patterns_to_json_keeps_order() {
    let v = vec![raw_match("$a", 1, b"x", None), raw_match("$b", 2, b"y", None)];
    let out = patterns_to_json(&v, 1024);
    assert_eq!(out.len(), 2);
    assert_eq!(out[0].identifier, "$a");
    assert_eq!(out[1].identifier, "$b");
}

fn one_rule() -> RawRuleMatch {
    RawRuleMatch {
        identifier: "suspicious".to_string(),
        namespace: "default".to_string(),
        meta_json: "{}".to_string(),
        tags: vec!["mal".to_string()],
        patterns: vec![raw_match("$a", 37, b"AAAA", None)],
    }
}

#[test]
fn rules_to_json_fills_every_member() {
    let out = rules_to_json(&vec![one_rule()]);
    assert_eq!(out.len(), 1);
    assert_eq!(out[0].identifier, "suspicious");
    assert_eq!(out[0].namespace.as_deref(), Some("default"));
    assert_eq!(out[0].meta.as_deref(), Some("{}"));
    assert_eq!(out[0].tags.as_ref().unwrap(), &vec!["mal".to_string()]);
    let strings = out[0].strings.as_ref().unwrap();
    assert_eq!(strings[0].offset, 37);
    assert_eq!(strings[0].matched, "AAAA");
}

#[test]
fn scan_entry_counts_matching_rules() {
    let rules = vec![one_rule()];
    let e = build_scan_entry("/data/f".to_string(), Some(&rules));
    match e {
        ScanResult::YaraEntry(y) => {
            assert_eq!(y.path, "/data/f");
            assert_eq!(y.count, 1);
            assert_eq!(y.rules.len(), 1);
        }
        ScanResult::Error(_) => panic!("expected an entry"),
    }
}

#[test]
fn unscanned_node_gets_zero_matches_not_an_error() {
    let e = build_scan_entry("/data/dir".to_string(), None);
    match e {
        ScanResult::YaraEntry(y) => {
            assert_eq!(y.count, 0);
            assert!(y.rules.is_empty());
        }
        ScanResult::Error(_) => panic!("expected an entry"),
    }
    let e2 = build_scan_entry("/x".to_string(), None);
    assert!(e2.error().is_none());
    assert_eq!(e2.path(), "/x");
}

#[test]
fn androidqf_file_record_is_flat_and_defaulted() {
    let d = DirEntry {
        path: "sub/f".to_string(),
        is_symlink: false,
        is_dir: false,
        is_file: true,
        digest: "cafe".to_string(),
        st_ctime: Some(Timestamp { secs: 10, nanos: 999_999_999 }),
        st_mtime: None,
        st_atime: Some(Timestamp { secs: 30, nanos: 0 }),
        st_size: 5,
        st_blksize: 4096,
        st_blocks: 1,
        st_mode: 0o644,
        st_nlink: 1,
        st_uid: 1000,
        st_gid: 1001,
        st_ino: 7,
        st_dev: 1,
        st_rdev: 0,
    };
    let m = to_androidqf_file_info(&ScandirResult::DirEntry(d));
    assert_eq!(m.path, "sub/f");
    assert_eq!(m.size, 5);
    assert_eq!(m.user_id, 1000);
    assert_eq!(m.group_id, 1001);
    assert_eq!(m.changed_time, 10); // fractional part dropped
    assert_eq!(m.modified_time, 0); // unavailable maps to zero
    assert_eq!(m.access_time, 30);
    assert_eq!(m.sha256, "cafe");
    assert_eq!(m.mode, "");
    assert_eq!(m.user_name, "");
    assert_eq!(m.group_name, "");
    assert_eq!(m.error, "");
    assert_eq!(m.sha1, "");
    assert_eq!(m.sha512, "");
    assert_eq!(m.md5, "");
}

#[test]
fn androidqf_process_record_keeps_every_field() {
    let p = AndroidQFProcessInfo::new(
        1,
        1000,
        0,
        1,
        1,
        "init".to_string(),
        20,
        "S".to_string(),
        3,
        4,
        "/bin/init".to_string(),
        vec!["init".to_string()],
        vec!["\"PATH\"=\"/bin\"".to_string()],
        "/".to_string(),
    );
    assert_eq!(p.pid, 1);
    assert_eq!(p.uid, 1000);
    assert_eq!(p.filename, "init");
    assert_eq!(p.state, "S");
    assert_eq!(p.context, "");
    assert_eq!(p.previous_context, "");
    assert_eq!(p.command_line, vec!["init".to_string()]);
    assert_eq!(p.cwd, "/");
}
