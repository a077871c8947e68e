use secure_docs::codec::encode;
use secure_docs::config::ServiceConfig;
use secure_docs::error::{DecodeIssue, ProcessError};
use secure_docs::scanner::{default_rules, distinct_count, evaluate, high_entropy, Rule, RuleCheck, SecurityScanner, Verdict};

const EICAR: &str = r"X5O!P%@AP[4\PZX54(P^)7CC)7}$EICAR-STANDARD-ANTIVIRUS-TEST-FILE!$H+H*";

fn scanner(max: usize) -> SecurityScanner {
    SecurityScanner::with_default_rules(&ServiceConfig::new(vec![0u8; 32], max).ok().unwrap())
}

#[test]
fn eicar_is_malicious_reproducibly() {
    let s = scanner(4096);
    let mut doc = b"harmless prefix ".to_vec();
    doc.extend_from_slice(EICAR.as_bytes());
    let text = encode(&doc);
    for _ in 0..3 {
        let r = s.scan_file(&text, "eicar.com").ok().unwrap();
        assert_eq!(r.verdict, Verdict::Malicious);
        assert_eq!(r.matched_rules, vec!["eicar-test-signature".to_string()]);
        assert_eq!(r.risk_score, 100);
    }
}

#[test]
fn plain_text_is_clean() {
    let r = scanner(4096).scan_file(&encode(b"Dear colleague, please find the notes attached."), "n.txt").ok().unwrap();
    assert_eq!(r.verdict, Verdict::Clean);
    assert!(r.matched_rules.is_empty());
    assert_eq!(r.risk_score, 0);
}

#[test]
fn pdf_javascript_is_suspicious() {
    let r = scanner(4096).scan_bytes(b"%PDF-1.4\n<< /S /JavaScript /JS (app.alert(1)) >>\n%%EOF");
    assert_eq!(r.matched_rules, vec!["pdf-javascript".to_string()]);
    assert_eq!(r.risk_score, 40);
    assert_eq!(r.verdict, Verdict::Suspicious);
}

#[test]
fn javascript_outside_pdf_does_not_match() {
    let r = scanner(4096).scan_bytes(b"var x = '/JavaScript';");
    assert!(r.matched_rules.is_empty());
    assert_eq!(r.verdict, Verdict::Clean);
}

#[test]
fn score_is_capped_and_rules_reported_in_order() {
    let mut doc = b"%PDF-1.4 /Launch ".to_vec();
    doc.extend_from_slice(b"This program cannot be run in DOS mode");
    doc.extend_from_slice(EICAR.as_bytes());
    let r = scanner(4096).scan_bytes(&doc);
    assert_eq!(
        r.matched_rules,
        vec!["eicar-test-signature".to_string(), "embedded-pe-executable".to_string(), "pdf-launch-action".to_string()]
    );
    assert_eq!(r.risk_score, 100);
    assert_eq!(r.verdict, Verdict::Malicious);
}

#[test]
fn office_macro_and_elf_markers() {
    let mut zip = vec![0x50u8, 0x4b, 0x03, 0x04];
    zip.extend_from_slice(b"xl/vbaProject.bin");
    let r = scanner(4096).scan_bytes(&zip);
    assert_eq!(r.matched_rules, vec!["office-vba-macro".to_string()]);
    assert_eq!(r.risk_score, 50);
    assert_eq!(r.verdict, Verdict::Suspicious);
    let r = scanner(4096).scan_bytes(&[b'a', 0x7f, b'E', b'L', b'F']);
    assert_eq!(r.matched_rules, vec!["embedded-elf-executable".to_string()]);
    // an ELF file itself is not an embedded executable
    let r = scanner(4096).scan_bytes(&[0x7f, b'E', b'L', b'F', 2, 1]);
    assert!(r.matched_rules.is_empty());
}

#[test]
fn high_entropy_block_is_flagged() {
    let block: Vec<u8> = (0u32..256).map(|i| (i * 7 % 256) as u8).collect();
    assert_eq!(distinct_count(&block, 0, 256), 256);
    assert!(high_entropy(&block, 256, 160));
    let r = scanner(4096).scan_bytes(&block);
    assert_eq!(r.matched_rules, vec!["high-entropy-region".to_string()]);
    assert_eq!(r.risk_score, 30);
    assert_eq!(r.verdict, Verdict::Suspicious);
    // a 255-byte tail is no full block
    assert!(!high_entropy(&block[..255], 256, 160));
}

#[test]
fn distinct_count_counts_values() {
    assert_eq!(distinct_count(b"aabbcc", 0, 6), 3);
    assert_eq!(distinct_count(b"aabbcc", 1, 3), 2);
    assert_eq!(distinct_count(b"", 0, 0), 0);
}

#[test]
fn custom_rules_and_thresholds() {
    let config = ServiceConfig::new(vec![0u8; 32], 100).ok().unwrap();
    let rules = vec![Rule { id: "abc".to_string(), check: RuleCheck::Signature { pattern: b"abc".to_vec() }, weight: 10 }];
    assert!(evaluate(&rules[0], b"xxabcxx"));
    let s = SecurityScanner::new(&config, rules, 5, 20).ok().unwrap();
    let r = s.scan_bytes(b"xxabcxx");
    assert_eq!(r.verdict, Verdict::Suspicious);
    assert_eq!(r.risk_score, 10);
}

#[test]
fn malformed_rulesets_are_scan_errors() {
    let config = ServiceConfig::new(vec![0u8; 32], 100).ok().unwrap();
    let empty = vec![Rule { id: "e".to_string(), check: RuleCheck::Signature { pattern: vec![] }, weight: 1 }];
    assert_eq!(SecurityScanner::new(&config, empty, 1, 2).err(), Some(ProcessError::Scan));
    assert_eq!(SecurityScanner::new(&config, default_rules(), 80, 70).err(), Some(ProcessError::Scan));
    assert_eq!(SecurityScanner::new(&config, default_rules(), 10, 101).err(), Some(ProcessError::Scan));
    let zero = vec![Rule { id: "z".to_string(), check: RuleCheck::Entropy { window: 0, min_distinct: 1 }, weight: 1 }];
    assert_eq!(SecurityScanner::new(&config, zero, 1, 2).err(), Some(ProcessError::Scan));
}

#[test]
fn scan_fails_only_on_encoding() {
    let s = scanner(4);
    assert_eq!(s.scan_file("****", "a").err(), Some(ProcessError::Decode(DecodeIssue::Malformed)));
    assert_eq!(s.scan_file(&encode(b"12345"), "a").err(), Some(ProcessError::Decode(DecodeIssue::TooLarge)));
}
