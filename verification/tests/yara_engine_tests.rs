use android_collector::scan_result::{
    build_scan_entry, RawPatternMatch, RawRuleMatch, ScanResult,
};

fn raw_rules_of(scan_results: &yara_x::ScanResults) -> Vec<RawRuleMatch> {
    scan_results
        .matching_rules()
        .map(|rule| RawRuleMatch {
            identifier: rule.identifier().to_string(),
            namespace: rule.namespace().to_string(),
            meta_json: rule.metadata().into_json().to_string(),
            tags: rule
                .tags()
                .map(|t| t.identifier().to_string())
                .collect::<Vec<_>>(),
            patterns: rule
                .patterns()
                .flat_map(|pattern| {
                    let identifier = pattern.identifier().to_owned();
                    pattern.matches().map(move |m| RawPatternMatch {
                        identifier: identifier.clone(),
                        offset: m.range().start,
                        data: m.data().to_vec(),
                        xor_key: m.xor_key(),
                    })
                })
                .collect(),
        })
        .collect()
}

#[test]
fn rule_matching_four_a_reports_exact_offset_and_preview() {
    let rules = yara_x::compile(
        r#"rule four_a { strings: $a = "AAAA" condition: $a }"#,
    )
    .unwrap();
    let mut scanner = yara_x::Scanner::new(&rules);
    // "AAAA" begins at byte offset 8 of the scanned data
    let data = b"01234567AAAA1234";
    let outcome = scanner.scan(data).unwrap();
    let raws = raw_rules_of(&outcome);
    assert_eq!(raws.len(), 1);

    let entry = build_scan_entry("/data/fixture".to_string(), Some(&raws));
    match entry {
        ScanResult::YaraEntry(y) => {
            assert_eq!(y.count, 1);
            assert_eq!(y.rules[0].identifier, "four_a");
            let strings = y.rules[0].strings.as_ref().unwrap();
            assert_eq!(strings.len(), 1);
            assert_eq!(strings[0].identifier, "$a");
            assert_eq!(strings[0].offset, 8);
            assert_eq!(strings[0].matched, "AAAA");
        }
        ScanResult::Error(_) => panic!("expected an entry"),
    }
}

#[test]
fn unmatched_data_yields_zero_matching_rules() {
    let rules = yara_x::compile(
        r#"rule four_a { strings: $a = "AAAA" condition: $a }"#,
    )
    .unwrap();
    let mut scanner = yara_x::Scanner::new(&rules);
    let outcome = scanner.scan(b"nothing here").unwrap();
    let raws = raw_rules_of(&outcome);
    assert!(raws.is_empty());
}
