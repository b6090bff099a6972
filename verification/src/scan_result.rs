//! Results of a signature scan, and the construction of the match payload:
//! byte-escaping, the length-capped preview with its "more bytes" suffix,
//! and the de-obfuscated preview when an XOR key was recovered.
//!
//! What the matching engine reports for one file arrives as plain values
//! (`RawRuleMatch`, `RawPatternMatch`); this module pins exactly what the
//! emitted payload holds for them.

use vstd::prelude::*;

use crate::digest::hex_digit;
use crate::direntry::clone_string;
use crate::scandir_result::error_views;

verus! {

/// The cap on match previews, in bytes.
pub const STRING_LIMIT: usize = 1024;

/// One sub-pattern occurrence as the matching engine reports it: the
/// sub-pattern identifier, the byte offset of the occurrence, the matched
/// bytes, and the recovered XOR key if the engine found one.
pub struct RawPatternMatch {
    pub identifier: String,
    pub offset: usize,
    pub data: Vec<u8>,
    pub xor_key: Option<u8>,
}

/// One matching rule as the engine reports it: identifier, namespace, its
/// metadata already rendered as JSON text, its tags, and every sub-pattern
/// occurrence.
pub struct RawRuleMatch {
    pub identifier: String,
    pub namespace: String,
    pub meta_json: String,
    pub tags: Vec<String>,
    pub patterns: Vec<RawPatternMatch>,
}

/// Mathematical image of a `PatternJson`.
pub ghost struct PatternJsonView {
    pub identifier: Seq<char>,
    pub offset: usize,
    pub matched: Seq<char>,
    pub xor_key: Option<u8>,
    pub plaintext: Option<Seq<char>>,
}

/// One sub-pattern occurrence of the emitted payload: identifier, byte
/// offset, escaped length-capped preview, and — when an XOR key was
/// recovered — the key and the de-obfuscated preview.
pub struct PatternJson {
    pub identifier: String,
    pub offset: usize,
    pub matched: String,
    pub xor_key: Option<u8>,
    pub plaintext: Option<String>,
}

impl View for PatternJson {
    type V = PatternJsonView;

    open spec fn view(&self) -> PatternJsonView {
        PatternJsonView {
            identifier: self.identifier@,
            offset: self.offset,
            matched: self.matched@,
            xor_key: self.xor_key,
            plaintext: match self.plaintext {
                Some(ref p) => Some(p@),
                None => None,
            },
        }
    }
}

/// Mathematical image of a `RuleJson`.
pub ghost struct RuleJsonView {
    pub identifier: Seq<char>,
    pub namespace: Option<Seq<char>>,
    pub meta: Option<Seq<char>>,
    pub tags: Option<Seq<Seq<char>>>,
    pub strings: Option<Seq<PatternJsonView>>,
}

/// One matching rule of the emitted payload.
pub struct RuleJson {
    pub identifier: String,
    pub namespace: Option<String>,
    pub meta: Option<String>,
    pub tags: Option<Vec<String>>,
    pub strings: Option<Vec<PatternJson>>,
}

/// The views of a sequence of strings.
pub open spec fn string_views(s: Seq<String>) -> Seq<Seq<char>> {
    s.map_values(|x: String| x@)
}

/// The views of a sequence of pattern payloads.
pub open spec fn pattern_json_views(s: Seq<PatternJson>) -> Seq<PatternJsonView> {
    s.map_values(|x: PatternJson| x@)
}

impl View for RuleJson {
    type V = RuleJsonView;

    open spec fn view(&self) -> RuleJsonView {
        RuleJsonView {
            identifier: self.identifier@,
            namespace: match self.namespace {
                Some(ref n) => Some(n@),
                None => None,
            },
            meta: match self.meta {
                Some(ref m) => Some(m@),
                None => None,
            },
            tags: match self.tags {
                Some(ref t) => Some(string_views(t@)),
                None => None,
            },
            strings: match self.strings {
                Some(ref s) => Some(pattern_json_views(s@)),
                None => None,
            },
        }
    }
}

/// The views of a sequence of rule payloads.
pub open spec fn rule_json_views(s: Seq<RuleJson>) -> Seq<RuleJsonView> {
    s.map_values(|x: RuleJson| x@)
}

/// Mathematical image of a `ScanResult`.
pub ghost enum ScanResultView {
    YaraEntry { path: Seq<char>, count: int, rules: Seq<RuleJsonView> },
    Error(Seq<char>, Seq<char>),
}

/// Mathematical image of a `YaraEntry`.
pub ghost struct YaraEntryView {
    pub path: Seq<char>,
    pub count: int,
    pub rules: Seq<RuleJsonView>,
}

/// One visited node of a signature scan: its absolute path, how many rules
/// matched, and the payload for each.
pub struct YaraEntry {
    pub path: String,
    pub count: usize,
    pub rules: Vec<RuleJson>,
}

impl View for YaraEntry {
    type V = YaraEntryView;

    open spec fn view(&self) -> YaraEntryView {
        YaraEntryView { path: self.path@, count: self.count as int, rules: rule_json_views(self.rules@) }
    }
}

/// One item of the signature-scan result stream.
pub enum ScanResult {
    YaraEntry(YaraEntry),
    Error((String, String)),
}

impl View for ScanResult {
    type V = ScanResultView;

    open spec fn view(&self) -> ScanResultView {
        match self {
            ScanResult::YaraEntry(e) => ScanResultView::YaraEntry {
                path: e.path@,
                count: e.count as int,
                rules: rule_json_views(e.rules@),
            },
            ScanResult::Error(e) => ScanResultView::Error(e.0@, e.1@),
        }
    }
}

/// The views of a sequence of scan results.
pub open spec fn scan_result_views(s: Seq<ScanResult>) -> Seq<ScanResultView> {
    s.map_values(|r: ScanResult| r@)
}

impl ScanResult {
    /// The path the result speaks of.
    pub fn path(&self) -> (r: &String)
        ensures
            r@ == (match self@ {
                ScanResultView::YaraEntry { path, count, rules } => path,
                ScanResultView::Error(p, _m) => p,
            }),
    {
        match self {
            Self::YaraEntry(e) => &e.path,
            Self::Error(e) => &e.0,
        }
    }

    /// The `(path, message)` pair of an error result, `None` for an entry.
    pub fn error(&self) -> (r: Option<&(String, String)>)
        ensures
            match self@ {
                ScanResultView::Error(p, m) => {
                    &&& r is Some
                    &&& (r->0).0@ == p
                    &&& (r->0).1@ == m
                },
                ScanResultView::YaraEntry { path, count, rules } => r is None,
            },
    {
        match self {
            Self::Error(e) => Some(e),
            _ => None,
        }
    }
}

/// What escaping one byte yields: tab, carriage return, newline, backslash
/// and both quotes as two-character escapes, printable ASCII as itself, and
/// everything else as a two-digit hex escape.
pub open spec fn spec_escape_byte(b: u8) -> Seq<char> {
    if b == 9 {
        seq!['\\', 't']
    } else if b == 13 {
        seq!['\\', 'r']
    } else if b == 10 {
        seq!['\\', 'n']
    } else if b == 92 {
        seq!['\\', '\\']
    } else if b == 39 {
        seq!['\\', '\'']
    } else if b == 34 {
        seq!['\\', '"']
    } else if 32 <= b && b <= 126 {
        seq![b as char]
    } else {
        seq!['\\', 'x', hex_digit(b / 16), hex_digit(b % 16)]
    }
}

/// What escaping a byte sequence yields.
pub open spec fn spec_escape_bytes(s: Seq<u8>) -> Seq<char>
    decreases s.len(),
{
    if s.len() == 0 {
        Seq::empty()
    } else {
        spec_escape_byte(s[0]) + spec_escape_bytes(s.drop_first())
    }
}

/// Escaping appends per byte.
pub proof fn lemma_escape_bytes_push(s: Seq<u8>, b: u8)
    ensures
        spec_escape_bytes(s.push(b)) == spec_escape_bytes(s) + spec_escape_byte(b),
    decreases s.len(),
{
    if s.len() == 0 {
        assert(s.push(b)[0] == b);
        assert(s.push(b).drop_first() =~= Seq::<u8>::empty());
        assert(spec_escape_bytes(Seq::<u8>::empty()) == Seq::<char>::empty());
        assert(spec_escape_bytes(s.push(b)) == spec_escape_byte(b) + Seq::<char>::empty());
        assert(spec_escape_bytes(s) + spec_escape_byte(b) =~= spec_escape_byte(b));
        assert(spec_escape_byte(b) + Seq::<char>::empty() =~= spec_escape_byte(b));
    } else {
        assert(s.push(b)[0] == s[0]);
        assert(s.push(b).drop_first() =~= s.drop_first().push(b));
        lemma_escape_bytes_push(s.drop_first(), b);
        assert(spec_escape_byte(s[0]) + (spec_escape_bytes(s.drop_first()) + spec_escape_byte(b))
            =~= (spec_escape_byte(s[0]) + spec_escape_bytes(s.drop_first())) + spec_escape_byte(
            b,
        ));
    }
}

/// The decimal rendering of a non-negative number.
pub open spec fn spec_dec_digits(n: int) -> Seq<char>
    decreases n,
{
    if n < 0 {
        Seq::empty()
    } else if n < 10 {
        seq![hex_digit(n as u8)]
    } else {
        spec_dec_digits(n / 10) + seq![hex_digit((n % 10) as u8)]
    }
}

/// The bytes XOR-ed with a key.
pub open spec fn spec_xor(s: Seq<u8>, k: u8) -> Seq<u8> {
    s.map_values(|b: u8| b ^ k)
}

/// The part of the matched bytes a preview shows.
pub open spec fn spec_shown(data: Seq<u8>, limit: int) -> Seq<u8> {
    if data.len() <= limit {
        data
    } else {
        data.subrange(0, limit)
    }
}

/// The escaped, length-capped preview of the matched bytes, with the
/// explicit "more bytes" suffix when the cap truncated it.
pub open spec fn spec_preview(data: Seq<u8>, limit: int) -> Seq<char> {
    if data.len() <= limit {
        spec_escape_bytes(data)
    } else {
        spec_escape_bytes(data.subrange(0, limit)) + " ... "@ + spec_dec_digits(
            data.len() - limit,
        ) + " more bytes"@
    }
}

/// The full payload for one sub-pattern occurrence: identifier and offset
/// as reported, the capped escaped preview, and — only when an XOR key was
/// recovered — the key and the de-obfuscated capped preview (which carries
/// no suffix).
pub open spec fn spec_pattern_json(raw: RawPatternMatch, limit: int) -> PatternJsonView {
    PatternJsonView {
        identifier: raw.identifier@,
        offset: raw.offset,
        matched: spec_preview(raw.data@, limit),
        xor_key: raw.xor_key,
        plaintext: match raw.xor_key {
            Some(k) => Some(spec_escape_bytes(spec_xor(spec_shown(raw.data@, limit), k))),
            None => None,
        },
    }
}

/// The payloads for a list of occurrences, in order.
pub open spec fn spec_patterns_json(raws: Seq<RawPatternMatch>, limit: int) -> Seq<
    PatternJsonView,
> {
    raws.map_values(|raw: RawPatternMatch| spec_pattern_json(raw, limit))
}

/// The payload for one matching rule: identifier, namespace, metadata and
/// tags as reported, and the occurrence payloads capped at `STRING_LIMIT`.
pub open spec fn spec_rule_json(raw: RawRuleMatch) -> RuleJsonView {
    RuleJsonView {
        identifier: raw.identifier@,
        namespace: Some(raw.namespace@),
        meta: Some(raw.meta_json@),
        tags: Some(string_views(raw.tags@)),
        strings: Some(spec_patterns_json(raw.patterns@, STRING_LIMIT as int)),
    }
}

/// The payloads for all matching rules, in order.
pub open spec fn spec_rules_json(raws: Seq<RawRuleMatch>) -> Seq<RuleJsonView> {
    raws.map_values(|raw: RawRuleMatch| spec_rule_json(raw))
}

/// The entry emitted for one visited node: the reported rule payloads and
/// their number; a node that was not scanned (a directory, a symlink, an
/// unreadable or unparseable file) gets zero matches and no payload — never
/// an error.
pub open spec fn spec_scan_entry(path: Seq<char>, matched: Option<Seq<RawRuleMatch>>) -> ScanResultView {
    match matched {
        Some(rs) => ScanResultView::YaraEntry {
            path: path,
            count: rs.len() as int,
            rules: spec_rules_json(rs),
        },
        None => ScanResultView::YaraEntry { path: path, count: 0, rules: Seq::empty() },
    }
}

/// Relies on String::push of std: it appends exactly the one character.
#[verifier::external_body]
fn push_char(s: &mut String, c: char)
    ensures
        final(s)@ == old(s)@.push(c),
{
    s.push(c);
}

fn hex_digit_char(n: u8) -> (c: char)
    requires
        n < 16,
    ensures
        c == hex_digit(n),
{
    if n < 10 {
        (48u8 + n) as char
    } else {
        (97u8 + (n - 10)) as char
    }
}

/// Escapes the first `limit` bytes (all of them if fewer) of `data`.
fn escape_prefix(data: &[u8], limit: usize) -> (r: String)
    ensures
        r@ == spec_escape_bytes(spec_shown(data@, limit as int)),
{
    let end = if data.len() <= limit {
        data.len()
    } else {
        limit
    };
    let mut out = String::new();
    let mut i: usize = 0;
    proof {
        assert(spec_shown(data@, limit as int) =~= data@.subrange(0, end as int));
        assert(data@.subrange(0, 0) =~= Seq::<u8>::empty());
    }
    while i < end
        invariant
            i <= end <= data@.len(),
            out@ == spec_escape_bytes(data@.subrange(0, i as int)),
        decreases end - i,
    {
        let b = data[i];
        proof {
            assert(data@.subrange(0, i + 1) =~= data@.subrange(0, i as int).push(b));
            lemma_escape_bytes_push(data@.subrange(0, i as int), b);
        }
        escape_byte_into(&mut out, b);
        i = i + 1;
    }
    proof {
        assert(data@.subrange(0, end as int) =~= spec_shown(data@, limit as int));
    }
    out
}

fn escape_byte_into(out: &mut String, b: u8)
    ensures
        final(out)@ == old(out)@ + spec_escape_byte(b),
{
    if b == 9 {
        out.append("\\t");
        proof {
            reveal_strlit("\\t");
            assert(old(out)@ + ("\\t")@ =~= old(out)@ + spec_escape_byte(b));
        }
    } else if b == 13 {
        out.append("\\r");
        proof {
            reveal_strlit("\\r");
            assert(old(out)@ + ("\\r")@ =~= old(out)@ + spec_escape_byte(b));
        }
    } else if b == 10 {
        out.append("\\n");
        proof {
            reveal_strlit("\\n");
            assert(old(out)@ + ("\\n")@ =~= old(out)@ + spec_escape_byte(b));
        }
    } else if b == 92 {
        out.append("\\\\");
        proof {
            reveal_strlit("\\\\");
            assert(old(out)@ + ("\\\\")@ =~= old(out)@ + spec_escape_byte(b));
        }
    } else if b == 39 {
        out.append("\\'");
        proof {
            reveal_strlit("\\'");
            assert(old(out)@ + ("\\'")@ =~= old(out)@ + spec_escape_byte(b));
        }
    } else if b == 34 {
        out.append("\\\"");
        proof {
            reveal_strlit("\\\"");
            assert(old(out)@ + ("\\\"")@ =~= old(out)@ + spec_escape_byte(b));
        }
    } else if 32 <= b && b <= 126 {
        push_char(out, b as char);
        proof {
            assert(old(out)@.push(b as char) =~= old(out)@ + spec_escape_byte(b));
        }
    } else {
        push_char(out, '\\');
        push_char(out, 'x');
        let h = hex_digit_char(b / 16);
        push_char(out, h);
        let l = hex_digit_char(b % 16);
        push_char(out, l);
        proof {
            assert(old(out)@.push('\\').push('x').push(hex_digit(b / 16)).push(hex_digit(b % 16))
                =~= old(out)@ + spec_escape_byte(b));
        }
    }
}

/// Appends the decimal rendering of `n`.
fn dec_into(out: &mut String, n: u64)
    ensures
        final(out)@ == old(out)@ + spec_dec_digits(n as int),
    decreases n,
{
    if n < 10 {
        let c = hex_digit_char(n as u8);
        push_char(out, c);
        proof {
            assert(old(out)@.push(hex_digit(n as u8)) =~= old(out)@ + spec_dec_digits(n as int));
        }
    } else {
        proof {
            assert(n / 10 < n) by (nonlinear_arith)
                requires
                    n >= 10,
            ;
        }
        dec_into(out, n / 10);
        let c = hex_digit_char((n % 10) as u8);
        push_char(out, c);
        proof {
            assert((old(out)@ + spec_dec_digits((n / 10) as int)).push(
                hex_digit((n % 10) as u8),
            ) =~= old(out)@ + spec_dec_digits(n as int));
        }
    }
}

/// Builds the payload for one sub-pattern occurrence: escaped preview
/// capped at `limit` bytes with the explicit "more bytes" suffix when
/// truncated, and the XOR-decoded preview when a key was recovered.  The
/// offset and the preview correspond exactly to the reported byte range.
pub fn pattern_json_of(raw: &RawPatternMatch, limit: usize) -> (r: PatternJson)
    ensures
        r@ == spec_pattern_json(*raw, limit as int),
{
    let mut matched = escape_prefix(raw.data.as_slice(), limit);
    if raw.data.len() > limit {
        matched.append(" ... ");
        let extra = raw.data.len() - limit;
        dec_into(&mut matched, extra as u64);
        matched.append(" more bytes");
        proof {
            assert(matched@ =~= spec_preview(raw.data@, limit as int));
        }
    } else {
        proof {
            assert(matched@ =~= spec_preview(raw.data@, limit as int));
        }
    }
    let plaintext = match raw.xor_key {
        Some(k) => {
            let decoded = xor_prefix(raw.data.as_slice(), limit, k);
            Some(escape_prefix(decoded.as_slice(), decoded.len()))
        },
        None => None,
    };
    proof {
        match raw.xor_key {
            Some(k) => {
                assert(spec_shown(spec_xor(spec_shown(raw.data@, limit as int), k), spec_xor(
                    spec_shown(raw.data@, limit as int),
                    k,
                ).len() as int) =~= spec_xor(spec_shown(raw.data@, limit as int), k));
            },
            None => {},
        }
    }
    PatternJson {
        identifier: clone_string(&raw.identifier),
        offset: raw.offset,
        matched,
        xor_key: raw.xor_key,
        plaintext,
    }
}

fn xor_prefix(data: &[u8], limit: usize, k: u8) -> (r: Vec<u8>)
    ensures
        r@ == spec_xor(spec_shown(data@, limit as int), k),
{
    let end = if data.len() <= limit {
        data.len()
    } else {
        limit
    };
    let mut out: Vec<u8> = Vec::new();
    let mut i: usize = 0;
    while i < end
        invariant
            i <= end <= data@.len(),
            out@ == spec_xor(data@.subrange(0, i as int), k),
        decreases end - i,
    {
        let b = data[i] ^ k;
        proof {
            assert(spec_xor(data@.subrange(0, i + 1), k) =~= spec_xor(
                data@.subrange(0, i as int),
                k,
            ).push(data@[i as int] ^ k));
        }
        out.push(b);
        i = i + 1;
    }
    proof {
        assert(data@.subrange(0, end as int) =~= spec_shown(data@, limit as int));
    }
    out
}

/// Builds the payloads for a list of occurrences, in order.
pub fn patterns_to_json(patterns: &Vec<RawPatternMatch>, string_limit: usize) -> (r: Vec<
    PatternJson,
>)
    ensures
        pattern_json_views(r@) == spec_patterns_json(patterns@, string_limit as int),
{
    let mut out: Vec<PatternJson> = Vec::new();
    let mut i: usize = 0;
    while i < patterns.len()
        invariant
            i <= patterns@.len(),
            pattern_json_views(out@) == spec_patterns_json(
                patterns@.subrange(0, i as int),
                string_limit as int,
            ),
        decreases patterns@.len() - i,
    {
        let p = pattern_json_of(&patterns[i], string_limit);
        proof {
            assert(pattern_json_views(out@.push(p)) =~= pattern_json_views(out@).push(p@));
            assert(spec_patterns_json(patterns@.subrange(0, i + 1), string_limit as int)
                =~= spec_patterns_json(patterns@.subrange(0, i as int), string_limit as int).push(
                spec_pattern_json(patterns@[i as int], string_limit as int),
            ));
        }
        out.push(p);
        i = i + 1;
    }
    proof {
        assert(patterns@.subrange(0, patterns@.len() as int) =~= patterns@);
    }
    out
}

/// Copies a list of strings; the copy agrees at view level.
pub fn duplicate_strings(v: &Vec<String>) -> (r: Vec<String>)
    ensures
        string_views(r@) == string_views(v@),
{
    let mut out: Vec<String> = Vec::new();
    let mut i: usize = 0;
    while i < v.len()
        invariant
            i <= v@.len(),
            string_views(out@) == string_views(v@.subrange(0, i as int)),
        decreases v@.len() - i,
    {
        let s = clone_string(&v[i]);
        proof {
            assert(string_views(out@.push(s)) =~= string_views(out@).push(s@));
            assert(string_views(v@.subrange(0, i + 1)) =~= string_views(
                v@.subrange(0, i as int),
            ).push(v@[i as int]@));
        }
        out.push(s);
        i = i + 1;
    }
    proof {
        assert(v@.subrange(0, v@.len() as int) =~= v@);
    }
    out
}

/// Builds the payloads for all matching rules of one file, in order, with
/// previews capped at `STRING_LIMIT`.
pub fn rules_to_json(rules: &Vec<RawRuleMatch>) -> (r: Vec<RuleJson>)
    ensures
        rule_json_views(r@) == spec_rules_json(rules@),
{
    let mut out: Vec<RuleJson> = Vec::new();
    let mut i: usize = 0;
    while i < rules.len()
        invariant
            i <= rules@.len(),
            rule_json_views(out@) == spec_rules_json(rules@.subrange(0, i as int)),
        decreases rules@.len() - i,
    {
        let raw = &rules[i];
        let rj = RuleJson {
            identifier: clone_string(&raw.identifier),
            namespace: Some(clone_string(&raw.namespace)),
            meta: Some(clone_string(&raw.meta_json)),
            tags: Some(duplicate_strings(&raw.tags)),
            strings: Some(patterns_to_json(&raw.patterns, STRING_LIMIT)),
        };
        proof {
            assert(rj@ == spec_rule_json(rules@[i as int]));
            assert(rule_json_views(out@.push(rj)) =~= rule_json_views(out@).push(rj@));
            assert(spec_rules_json(rules@.subrange(0, i + 1)) =~= spec_rules_json(
                rules@.subrange(0, i as int),
            ).push(spec_rule_json(rules@[i as int])));
        }
        out.push(rj);
        i = i + 1;
    }
    proof {
        assert(rules@.subrange(0, rules@.len() as int) =~= rules@);
    }
    out
}

/// Builds the result for one visited node of a signature scan.  `matched`
/// is what the engine reported for a regular file it could scan; `None` —
/// a directory, a symlink, an unreadable or unparseable file — yields zero
/// matches and no payload, still a normal entry.
pub fn build_scan_entry(path: String, matched: Option<&Vec<RawRuleMatch>>) -> (r: ScanResult)
    ensures
        r@ == spec_scan_entry(path@, match matched {
            Some(m) => Some(m@),
            None => None,
        }),
{
    match matched {
        Some(m) => {
            let rules = rules_to_json(m);
            ScanResult::YaraEntry(YaraEntry { path, count: m.len(), rules })
        },
        None => {
            proof {
                assert(rule_json_views(Seq::<RuleJson>::empty()) =~= Seq::<RuleJsonView>::empty());
            }
            ScanResult::YaraEntry(YaraEntry { path, count: 0, rules: Vec::new() })
        },
    }
}


impl PatternJson {
    /// Duplicates the payload; the copy has the same view.
    pub fn duplicate(&self) -> (r: PatternJson)
        ensures
            r@ == self@,
    {
        PatternJson {
            identifier: clone_string(&self.identifier),
            offset: self.offset,
            matched: clone_string(&self.matched),
            xor_key: self.xor_key,
            plaintext: match &self.plaintext {
                Some(p) => Some(clone_string(p)),
                None => None,
            },
        }
    }
}

/// Copies a list of pattern payloads; the copy agrees at view level.
pub fn duplicate_patterns(v: &Vec<PatternJson>) -> (r: Vec<PatternJson>)
    ensures
        pattern_json_views(r@) == pattern_json_views(v@),
{
    let mut out: Vec<PatternJson> = Vec::new();
    let mut i: usize = 0;
    while i < v.len()
        invariant
            i <= v@.len(),
            pattern_json_views(out@) == pattern_json_views(v@.subrange(0, i as int)),
        decreases v@.len() - i,
    {
        let p = v[i].duplicate();
        proof {
            assert(pattern_json_views(out@.push(p)) =~= pattern_json_views(out@).push(p@));
            assert(pattern_json_views(v@.subrange(0, i + 1)) =~= pattern_json_views(
                v@.subrange(0, i as int),
            ).push(v@[i as int]@));
        }
        out.push(p);
        i = i + 1;
    }
    proof {
        assert(v@.subrange(0, v@.len() as int) =~= v@);
    }
    out
}

impl RuleJson {
    /// Duplicates the payload; the copy has the same view.
    pub fn duplicate(&self) -> (r: RuleJson)
        ensures
            r@ == self@,
    {
        RuleJson {
            identifier: clone_string(&self.identifier),
            namespace: match &self.namespace {
                Some(n) => Some(clone_string(n)),
                None => None,
            },
            meta: match &self.meta {
                Some(m) => Some(clone_string(m)),
                None => None,
            },
            tags: match &self.tags {
                Some(t) => Some(duplicate_strings(t)),
                None => None,
            },
            strings: match &self.strings {
                Some(ps) => Some(duplicate_patterns(ps)),
                None => None,
            },
        }
    }
}

/// Copies a list of rule payloads; the copy agrees at view level.
pub fn duplicate_rules(v: &Vec<RuleJson>) -> (r: Vec<RuleJson>)
    ensures
        rule_json_views(r@) == rule_json_views(v@),
{
    let mut out: Vec<RuleJson> = Vec::new();
    let mut i: usize = 0;
    while i < v.len()
        invariant
            i <= v@.len(),
            rule_json_views(out@) == rule_json_views(v@.subrange(0, i as int)),
        decreases v@.len() - i,
    {
        let p = v[i].duplicate();
        proof {
            assert(rule_json_views(out@.push(p)) =~= rule_json_views(out@).push(p@));
            assert(rule_json_views(v@.subrange(0, i + 1)) =~= rule_json_views(
                v@.subrange(0, i as int),
            ).push(v@[i as int]@));
        }
        out.push(p);
        i = i + 1;
    }
    proof {
        assert(v@.subrange(0, v@.len() as int) =~= v@);
    }
    out
}

impl ScanResult {
    /// Duplicates the result; the copy has the same view.
    pub fn duplicate(&self) -> (r: ScanResult)
        ensures
            r@ == self@,
    {
        match self {
            Self::YaraEntry(e) => ScanResult::YaraEntry(
                YaraEntry {
                    path: clone_string(&e.path),
                    count: e.count,
                    rules: duplicate_rules(&e.rules),
                },
            ),
            Self::Error(e) => ScanResult::Error((clone_string(&e.0), clone_string(&e.1))),
        }
    }
}

impl Default for ScanResults {
    /// An empty store.
    fn default() -> (r: ScanResults)
        ensures
            r.results@.len() == 0,
            r.errors@.len() == 0,
    {
        ScanResults::new()
    }
}

/// Pushing a scan result onto a sequence appends its view.
pub proof fn lemma_scan_result_views_push(s: Seq<ScanResult>, r: ScanResult)
    ensures
        scan_result_views(s.push(r)) == scan_result_views(s).push(r@),
{
    assert(scan_result_views(s.push(r)) =~= scan_result_views(s).push(r@));
}

/// The aggregated view of a signature scan: successes and provider errors,
/// disjoint, each in arrival order, growing only by appending.
pub struct ScanResults {
    pub results: Vec<ScanResult>,
    pub errors: Vec<(String, String)>,
}

impl ScanResults {
    /// An empty store.
    pub fn new() -> (r: ScanResults)
        ensures
            r.results@.len() == 0,
            r.errors@.len() == 0,
    {
        ScanResults { results: Vec::new(), errors: Vec::new() }
    }

    /// Removes everything.
    pub fn clear(&mut self)
        ensures
            final(self).results@.len() == 0,
            final(self).errors@.len() == 0,
    {
        self.results.clear();
        self.errors.clear();
    }

    /// Whether both partitions are empty.
    pub fn is_empty(&self) -> (r: bool)
        ensures
            r == (self.results@.len() == 0 && self.errors@.len() == 0),
    {
        self.results.is_empty() && self.errors.is_empty()
    }

    /// The number of items over both partitions.
    pub fn len(&self) -> (r: usize)
        requires
            self.results@.len() + self.errors@.len() <= usize::MAX,
        ensures
            r == self.results@.len() + self.errors@.len(),
    {
        self.results.len() + self.errors.len()
    }

    /// Appends every item of `results` to this store, keeping order.
    pub fn extend(&mut self, results: &ScanResults)
        ensures
            scan_result_views(final(self).results@) == scan_result_views(old(self).results@)
                + scan_result_views(results.results@),
            error_views(final(self).errors@) == error_views(old(self).errors@)
                + error_views(results.errors@),
    {
        let mut i: usize = 0;
        while i < results.results.len()
            invariant
                i <= results.results@.len(),
                scan_result_views(self.results@) == scan_result_views(old(self).results@)
                    + scan_result_views(results.results@.subrange(0, i as int)),
                self.errors@ == old(self).errors@,
            decreases results.results@.len() - i,
        {
            let dup = results.results[i].duplicate();
            proof {
                lemma_scan_result_views_push(self.results@, dup);
                assert(scan_result_views(results.results@.subrange(0, i as int)).push(
                    results.results@[i as int]@,
                ) =~= scan_result_views(results.results@.subrange(0, i + 1)));
                assert(scan_result_views(old(self).results@) + scan_result_views(
                    results.results@.subrange(0, i as int),
                ).push(results.results@[i as int]@) =~= (scan_result_views(old(self).results@)
                    + scan_result_views(results.results@.subrange(0, i as int))).push(
                    results.results@[i as int]@,
                ));
            }
            self.results.push(dup);
            i = i + 1;
        }
        let mut j: usize = 0;
        while j < results.errors.len()
            invariant
                j <= results.errors@.len(),
                scan_result_views(self.results@) == scan_result_views(old(self).results@)
                    + scan_result_views(results.results@.subrange(
                    0,
                    results.results@.len() as int,
                )),
                error_views(self.errors@) == error_views(old(self).errors@)
                    + error_views(results.errors@.subrange(0, j as int)),
            decreases results.errors@.len() - j,
        {
            let e = &results.errors[j];
            let dup = (clone_string(&e.0), clone_string(&e.1));
            proof {
                crate::scandir_result::lemma_error_views_push(self.errors@, dup);
                assert(error_views(results.errors@.subrange(0, j as int)).push(
                    (results.errors@[j as int].0@, results.errors@[j as int].1@),
                ) =~= error_views(results.errors@.subrange(0, j + 1)));
                assert(error_views(old(self).errors@) + error_views(
                    results.errors@.subrange(0, j as int),
                ).push((results.errors@[j as int].0@, results.errors@[j as int].1@)) =~= (
                error_views(old(self).errors@) + error_views(
                    results.errors@.subrange(0, j as int),
                )).push((results.errors@[j as int].0@, results.errors@[j as int].1@)));
            }
            self.errors.push(dup);
            j = j + 1;
        }
        proof {
            assert(results.results@.subrange(0, results.results@.len() as int)
                =~= results.results@);
            assert(results.errors@.subrange(0, results.errors@.len() as int)
                =~= results.errors@);
        }
    }

    /// Duplicates the whole store; the copy has the same views.
    pub fn duplicate(&self) -> (r: ScanResults)
        ensures
            scan_result_views(r.results@) == scan_result_views(self.results@),
            error_views(r.errors@) == error_views(self.errors@),
    {
        let mut r = ScanResults::new();
        proof {
            assert(scan_result_views(r.results@) =~= Seq::<ScanResultView>::empty());
            assert(error_views(r.errors@) =~= Seq::<(Seq<char>, Seq<char>)>::empty());
            assert(scan_result_views(r.results@) + scan_result_views(self.results@)
                =~= scan_result_views(self.results@));
            assert(error_views(r.errors@) + error_views(self.errors@)
                =~= error_views(self.errors@));
        }
        r.extend(self);
        r
    }
}

} // verus!
