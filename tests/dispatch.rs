use secure_docs::codec::{decode, encode};
use secure_docs::config::ServiceConfig;
use secure_docs::dispatch::{Metadata, Operation, ProcessRequest, ProcessResponse, Processor};
use secure_docs::scanner::Verdict;

fn processor(max: usize) -> Processor {
    Processor::new(&ServiceConfig::new(vec![3u8; 32], max).ok().unwrap())
}

fn request(data: &str, name: &str, op: &str) -> ProcessRequest {
    ProcessRequest {
        file_data: data.to_string(),
        file_name: name.to_string(),
        content_type: "text/plain".to_string(),
        operation: op.to_string(),
    }
}

fn is_decode_failure(r: &ProcessResponse) -> bool {
    !r.success && r.data.is_none() && r.metadata.is_none() && r.error.as_deref().unwrap_or("").starts_with("Decode error")
}

#[test]
fn operation_selector_parses() {
    assert_eq!(Operation::parse("encrypt"), Some(Operation::Encrypt));
    assert_eq!(Operation::parse("decrypt"), Some(Operation::Decrypt));
    assert_eq!(Operation::parse("validate"), Some(Operation::Validate));
    assert_eq!(Operation::parse("scan"), Some(Operation::Scan));
    assert_eq!(Operation::parse("Scan"), None);
    assert_eq!(Operation::parse(""), None);
}

#[test]
fn invalid_operation_is_reported() {
    let r = processor(64).process(&request("", "a", "compress"));
    assert!(!r.success);
    assert_eq!(r.error.as_deref(), Some("Invalid operation"));
    assert!(r.data.is_none() && r.checksum.is_none() && r.metadata.is_none());
}

#[test]
fn encrypt_then_decrypt_through_requests() {
    let p = processor(1024);
    let e = p.process(&request(&encode(b"hello"), "note.txt", "encrypt"));
    assert!(e.success);
    let env = e.data.clone().unwrap();
    let d = p.process(&request(&env, "note.txt", "decrypt"));
    assert!(d.success);
    assert_eq!(decode(d.data.as_deref().unwrap(), 1024), Ok(b"hello".to_vec()));
    assert_eq!(d.checksum, e.checksum);
    let bad = p.process(&request(&env, "other.txt", "decrypt"));
    assert!(!bad.success);
    assert_eq!(bad.error.as_deref(), Some("Authentication error: decryption failed"));
}

#[test]
fn validate_and_scan_carry_metadata() {
    let p = processor(1024);
    let v = p.process(&request(&encode(b"%PDF-1.0 %%EOF"), "a.pdf", "validate"));
    assert!(v.success && v.data.is_none());
    match v.metadata {
        Some(Metadata::Document(m)) => assert_eq!(m.findings.len(), 1),
        _ => panic!("expected document metadata"),
    }
    let s = p.process(&request(&encode(b"plain"), "a.txt", "scan"));
    match s.metadata {
        Some(Metadata::Scan(r)) => assert_eq!(r.verdict, Verdict::Clean),
        _ => panic!("expected scan metadata"),
    }
}

#[test]
fn oversize_rejected_by_all_four_operations() {
    let p = processor(16);
    let big = encode(&[0x41u8; 17]);
    for op in ["encrypt", "decrypt", "validate", "scan"] {
        let r = p.process(&request(&big, "big.bin", op));
        assert!(is_decode_failure(&r), "{op}");
        assert_eq!(r.error.as_deref(), Some("Decode error: payload exceeds the maximum size"));
    }
}
