use secure_docs::codec::encode;
use secure_docs::config::ServiceConfig;
use secure_docs::error::{DecodeIssue, ProcessError};
use secure_docs::validation::{analyze, detect_kind, FileKind, FileProcessor, Finding};

fn processor(max: usize) -> FileProcessor {
    FileProcessor::new(&ServiceConfig::new(vec![0u8; 32], max).ok().unwrap())
}

const PNG_END: [u8; 12] = [0, 0, 0, 0, 0x49, 0x45, 0x4e, 0x44, 0xae, 0x42, 0x60, 0x82];

fn png_bytes() -> Vec<u8> {
    let mut b = vec![0x89u8, 0x50, 0x4e, 0x47, 0x0d, 0x0a, 0x1a, 0x0a, 1, 2, 3];
    b.extend_from_slice(&PNG_END);
    b
}

#[test]
fn pdf_declared_as_png_reports_mismatch() {
    let pdf = b"%PDF-1.4\n1 0 obj\n<<>>\nendobj\ntrailer\n%%EOF\n".to_vec();
    let m = processor(4096).validate_file(&encode(&pdf), "report.png", "image/png").ok().unwrap();
    assert_eq!(m.detected_type, Some(FileKind::Pdf));
    assert_eq!(m.findings, vec![Finding::TypeMismatch { detected: FileKind::Pdf }]);
    assert_eq!(m.byte_length, pdf.len());
    assert_eq!(m.file_name, "report.png");
    assert_eq!(m.declared_content_type, "image/png");
    assert_eq!(FileKind::Pdf.mime_type(), "application/pdf");
}

#[test]
fn well_formed_png_has_no_findings() {
    let (kind, findings) = analyze(&png_bytes(), "image/png");
    assert_eq!(kind, Some(FileKind::Png));
    assert!(findings.is_empty());
}

#[test]
fn truncated_files_miss_their_end_marker() {
    let mut png = png_bytes();
    png.truncate(png.len() - 3);
    let (_, f) = analyze(&png, "image/png");
    assert_eq!(f, vec![Finding::MissingEndMarker { kind: FileKind::Png }]);
    let (_, f) = analyze(b"%PDF-1.7 no trailer", "application/pdf");
    assert_eq!(f, vec![Finding::MissingEndMarker { kind: FileKind::Pdf }]);
    let (_, f) = analyze(&[0xff, 0xd8, 0xff, 0xe0, 1, 2], "image/jpeg");
    assert_eq!(f, vec![Finding::MissingEndMarker { kind: FileKind::Jpeg }]);
    let (_, f) = analyze(&[0xff, 0xd8, 0xff, 0xe0, 1, 2, 0xff, 0xd9], "image/jpeg");
    assert!(f.is_empty());
}

#[test]
fn archive_inside_image_is_reported() {
    let mut gif = b"GIF89a".to_vec();
    gif.extend_from_slice(&[0x50, 0x4b, 0x03, 0x04, 9, 9]);
    gif.push(0x3b);
    let (kind, f) = analyze(&gif, "text/plain");
    assert_eq!(kind, Some(FileKind::Gif));
    assert_eq!(f, vec![Finding::TypeMismatch { detected: FileKind::Gif }, Finding::EmbeddedArchive]);
}

#[test]
fn zip_needs_its_end_record() {
    let mut zip = vec![0x50u8, 0x4b, 0x03, 0x04, 1, 2, 3];
    let (_, f) = analyze(&zip, "application/zip");
    assert_eq!(f, vec![Finding::MissingEndMarker { kind: FileKind::Zip }]);
    zip.extend_from_slice(&[0x50, 0x4b, 0x05, 0x06, 0, 0]);
    let (_, f) = analyze(&zip, "application/zip");
    assert!(f.is_empty());
}

#[test]
fn empty_and_unknown_files() {
    let m = processor(64).validate_file("", "e.bin", "application/octet-stream").ok().unwrap();
    assert_eq!(m.findings, vec![Finding::EmptyFile]);
    assert_eq!(m.detected_type, None);
    assert_eq!(m.byte_length, 0);
    let (kind, f) = analyze(b"just text", "text/plain");
    assert_eq!(kind, None);
    assert_eq!(f, vec![Finding::UnrecognizedSignature]);
}

#[test]
fn detection_by_signature() {
    assert_eq!(detect_kind(&[0x1f, 0x8b, 8]), Some(FileKind::Gzip));
    assert_eq!(detect_kind(&[0x7f, 0x45, 0x4c, 0x46, 2]), Some(FileKind::Elf));
    assert_eq!(detect_kind(b"MZ\x90\x00"), Some(FileKind::WindowsExe));
    assert_eq!(detect_kind(b"%PDF"), None);
    assert_eq!(FileKind::Zip.magic(), vec![0x50, 0x4b, 0x03, 0x04]);
}

#[test]
fn validate_fails_only_on_encoding() {
    let p = processor(4);
    assert_eq!(p.validate_file("@@@@", "a", "b").err(), Some(ProcessError::Decode(DecodeIssue::Malformed)));
    assert_eq!(p.validate_file(&encode(b"12345"), "a", "b").err(), Some(ProcessError::Decode(DecodeIssue::TooLarge)));
}

#[test]
fn findings_read_as_text() {
    assert_eq!(
        Finding::TypeMismatch { detected: FileKind::Pdf }.describe("image/png"),
        "Declared content type 'image/png' does not match detected type 'application/pdf'"
    );
    assert_eq!(
        Finding::MissingEndMarker { kind: FileKind::Png }.describe("image/png"),
        "End-of-file marker of image/png is missing (truncated or corrupt)"
    );
    assert_eq!(Finding::EmptyFile.describe("x"), "File is empty");
    assert_eq!(Finding::EmbeddedArchive.describe("x"), "Embedded archive marker found inside document");
}
