//! Structural validation: detects a file's true type from its signature and
//! reports advisory findings, never rejecting content.
use vstd::prelude::*;

use crate::bytes::{contains_from, ends_with, has_prefix, has_suffix, occurs_from, starts_with};
use crate::codec::{decode, decode_spec, PAYLOAD_LIMIT};
use crate::config::ServiceConfig;
use crate::error::ProcessError;

verus! {

/// The file types recognised by their leading signature.
#[derive(Clone, Copy, Debug, PartialEq, Eq, Structural)]
pub enum FileKind {
    Pdf,
    Png,
    Jpeg,
    Gif,
    Zip,
    Gzip,
    Elf,
    WindowsExe,
}

/// The leading signature of each kind.
pub open spec fn magic_spec(k: FileKind) -> Seq<u8> {
    match k {
        FileKind::Pdf => seq![0x25u8, 0x50, 0x44, 0x46, 0x2d],
        FileKind::Png => seq![0x89u8, 0x50, 0x4e, 0x47, 0x0d, 0x0a, 0x1a, 0x0a],
        FileKind::Jpeg => seq![0xffu8, 0xd8, 0xff],
        FileKind::Gif => seq![0x47u8, 0x49, 0x46, 0x38],
        FileKind::Zip => seq![0x50u8, 0x4b, 0x03, 0x04],
        FileKind::Gzip => seq![0x1fu8, 0x8b],
        FileKind::Elf => seq![0x7fu8, 0x45, 0x4c, 0x46],
        FileKind::WindowsExe => seq![0x4du8, 0x5a],
    }
}

/// The MIME type of each kind.
pub open spec fn mime_spec(k: FileKind) -> Seq<char> {
    match k {
        FileKind::Pdf => "application/pdf"@,
        FileKind::Png => "image/png"@,
        FileKind::Jpeg => "image/jpeg"@,
        FileKind::Gif => "image/gif"@,
        FileKind::Zip => "application/zip"@,
        FileKind::Gzip => "application/gzip"@,
        FileKind::Elf => "application/x-elf"@,
        FileKind::WindowsExe => "application/x-msdownload"@,
    }
}

/// The local-file header of a ZIP archive.
pub open spec fn zip_local_header() -> Seq<u8> {
    seq![0x50u8, 0x4b, 0x03, 0x04]
}

/// The marker that must stand at or near the end of a complete file of
/// kind `k`; `None` for kinds that are not checked.
pub open spec fn end_marker_spec(k: FileKind) -> Option<Seq<u8>> {
    match k {
        FileKind::Pdf => Some(seq![0x25u8, 0x25, 0x45, 0x4f, 0x46]),
        FileKind::Png => Some(seq![0x49u8, 0x45, 0x4e, 0x44, 0xae, 0x42, 0x60, 0x82]),
        FileKind::Jpeg => Some(seq![0xffu8, 0xd9]),
        FileKind::Gif => Some(seq![0x3bu8]),
        FileKind::Zip => Some(seq![0x50u8, 0x4b, 0x05, 0x06]),
        _ => None,
    }
}

/// PDF and ZIP end records may be followed by trailing bytes; the others must end the file.
pub open spec fn end_marker_anywhere(k: FileKind) -> bool {
    k == FileKind::Pdf || k == FileKind::Zip
}

/// Document and image formats, which should not carry a nested archive.
pub open spec fn is_document(k: FileKind) -> bool {
    k == FileKind::Pdf || k == FileKind::Png || k == FileKind::Jpeg || k == FileKind::Gif
}

/// The kind detected from the leading bytes: the first kind, in declaration
/// order, whose signature begins `b`.
pub open spec fn detect_spec(b: Seq<u8>) -> Option<FileKind> {
    if starts_with(b, magic_spec(FileKind::Pdf)) {
        Some(FileKind::Pdf)
    } else if starts_with(b, magic_spec(FileKind::Png)) {
        Some(FileKind::Png)
    } else if starts_with(b, magic_spec(FileKind::Jpeg)) {
        Some(FileKind::Jpeg)
    } else if starts_with(b, magic_spec(FileKind::Gif)) {
        Some(FileKind::Gif)
    } else if starts_with(b, magic_spec(FileKind::Zip)) {
        Some(FileKind::Zip)
    } else if starts_with(b, magic_spec(FileKind::Gzip)) {
        Some(FileKind::Gzip)
    } else if starts_with(b, magic_spec(FileKind::Elf)) {
        Some(FileKind::Elf)
    } else if starts_with(b, magic_spec(FileKind::WindowsExe)) {
        Some(FileKind::WindowsExe)
    } else {
        None
    }
}

/// An advisory observation on a file's structure.
#[derive(Clone, Copy, Debug, PartialEq, Eq, Structural)]
pub enum Finding {
    /// The file holds no bytes.
    EmptyFile,
    /// No known signature begins the file.
    UnrecognizedSignature,
    /// The declared content type differs from the detected one.
    TypeMismatch { detected: FileKind },
    /// The end-of-file marker of the detected format is missing (truncated or corrupt).
    MissingEndMarker { kind: FileKind },
    /// A ZIP archive header stands inside a document or image.
    EmbeddedArchive,
}

/// Whether the end marker of kind `k` is missing from `b`.
pub open spec fn end_marker_missing(k: FileKind, b: Seq<u8>) -> bool {
    match end_marker_spec(k) {
        None => false,
        Some(m) => if end_marker_anywhere(k) {
            !occurs_from(b, m, 0)
        } else {
            !ends_with(b, m)
        },
    }
}

/// The findings for the bytes `b` declared as `declared`, in report order.
pub open spec fn findings_spec(b: Seq<u8>, declared: Seq<char>) -> Seq<Finding> {
    if b.len() == 0 {
        seq![Finding::EmptyFile]
    } else {
        match detect_spec(b) {
            None => seq![Finding::UnrecognizedSignature],
            Some(k) => {
                let mismatch = if declared != mime_spec(k) {
                    seq![Finding::TypeMismatch { detected: k }]
                } else {
                    Seq::empty()
                };
                let end = if end_marker_missing(k, b) {
                    seq![Finding::MissingEndMarker { kind: k }]
                } else {
                    Seq::empty()
                };
                let nested = if is_document(k) && occurs_from(b, zip_local_header(), 1) {
                    seq![Finding::EmbeddedArchive]
                } else {
                    Seq::empty()
                };
                mismatch + end + nested
            },
        }
    }
}

impl FileKind {
    /// The leading signature of this kind.
    pub fn magic(&self) -> (r: Vec<u8>)
        ensures
            r@ == magic_spec(*self),
    {
        let r = match self {
            FileKind::Pdf => vec![0x25u8, 0x50, 0x44, 0x46, 0x2d],
            FileKind::Png => vec![0x89u8, 0x50, 0x4e, 0x47, 0x0d, 0x0a, 0x1a, 0x0a],
            FileKind::Jpeg => vec![0xffu8, 0xd8, 0xff],
            FileKind::Gif => vec![0x47u8, 0x49, 0x46, 0x38],
            FileKind::Zip => vec![0x50u8, 0x4b, 0x03, 0x04],
            FileKind::Gzip => vec![0x1fu8, 0x8b],
            FileKind::Elf => vec![0x7fu8, 0x45, 0x4c, 0x46],
            FileKind::WindowsExe => vec![0x4du8, 0x5a],
        };
        assert(r@ =~= magic_spec(*self));
        r
    }

    /// The MIME type of this kind.
    pub fn mime_type(&self) -> (r: &'static str)
        ensures
            r@ == mime_spec(*self),
    {
        match self {
            FileKind::Pdf => "application/pdf",
            FileKind::Png => "image/png",
            FileKind::Jpeg => "image/jpeg",
            FileKind::Gif => "image/gif",
            FileKind::Zip => "application/zip",
            FileKind::Gzip => "application/gzip",
            FileKind::Elf => "application/x-elf",
            FileKind::WindowsExe => "application/x-msdownload",
        }
    }

    fn end_marker(&self) -> (r: Option<Vec<u8>>)
        ensures
            r matches Some(m) ==> end_marker_spec(*self) == Some(m@),
            r is None ==> end_marker_spec(*self) is None,
    {
        let r = match self {
            FileKind::Pdf => Some(vec![0x25u8, 0x25, 0x45, 0x4f, 0x46]),
            FileKind::Png => Some(vec![0x49u8, 0x45, 0x4e, 0x44, 0xae, 0x42, 0x60, 0x82]),
            FileKind::Jpeg => Some(vec![0xffu8, 0xd9]),
            FileKind::Gif => Some(vec![0x3bu8]),
            FileKind::Zip => Some(vec![0x50u8, 0x4b, 0x05, 0x06]),
            _ => None,
        };
        proof {
            if r is Some {
                assert(end_marker_spec(*self) == Some(r->0@));
            }
        }
        r
    }
}

/// Detects the file kind from the leading bytes.
pub fn detect_kind(b: &[u8]) -> (r: Option<FileKind>)
    ensures
        r == detect_spec(b@),
{
    if has_prefix(b, FileKind::Pdf.magic().as_slice()) {
        Some(FileKind::Pdf)
    } else if has_prefix(b, FileKind::Png.magic().as_slice()) {
        Some(FileKind::Png)
    } else if has_prefix(b, FileKind::Jpeg.magic().as_slice()) {
        Some(FileKind::Jpeg)
    } else if has_prefix(b, FileKind::Gif.magic().as_slice()) {
        Some(FileKind::Gif)
    } else if has_prefix(b, FileKind::Zip.magic().as_slice()) {
        Some(FileKind::Zip)
    } else if has_prefix(b, FileKind::Gzip.magic().as_slice()) {
        Some(FileKind::Gzip)
    } else if has_prefix(b, FileKind::Elf.magic().as_slice()) {
        Some(FileKind::Elf)
    } else if has_prefix(b, FileKind::WindowsExe.magic().as_slice()) {
        Some(FileKind::WindowsExe)
    } else {
        None
    }
}

/// The human-readable text of a finding for a file declared as `declared`.
pub open spec fn finding_text_spec(f: Finding, declared: Seq<char>) -> Seq<char> {
    match f {
        Finding::EmptyFile => "File is empty"@,
        Finding::UnrecognizedSignature => "No known file signature"@,
        Finding::TypeMismatch { detected } => "Declared content type '"@ + declared
            + "' does not match detected type '"@ + mime_spec(detected) + "'"@,
        Finding::MissingEndMarker { kind } => "End-of-file marker of "@ + mime_spec(kind)
            + " is missing (truncated or corrupt)"@,
        Finding::EmbeddedArchive => "Embedded archive marker found inside document"@,
    }
}

impl Finding {
    /// The human-readable text of this finding for a file declared as `declared`.
    pub fn describe(&self, declared: &str) -> (r: String)
        ensures
            r@ == finding_text_spec(*self, declared@),
    {
        match self {
            Finding::EmptyFile => String::from_str("File is empty"),
            Finding::UnrecognizedSignature => String::from_str("No known file signature"),
            Finding::TypeMismatch { detected } => {
                let mut t = String::from_str("Declared content type '");
                t.append(declared);
                t.append("' does not match detected type '");
                t.append(detected.mime_type());
                t.append("'");
                t
            },
            Finding::MissingEndMarker { kind } => {
                let mut t = String::from_str("End-of-file marker of ");
                t.append(kind.mime_type());
                t.append(" is missing (truncated or corrupt)");
                t
            },
            Finding::EmbeddedArchive => String::from_str("Embedded archive marker found inside document"),
        }
    }
}

/// Detects the kind of `b` and lists the findings for it declared as `declared`.
pub fn analyze(b: &[u8], declared: &str) -> (r: (Option<FileKind>, Vec<Finding>))
    ensures
        r.0 == detect_spec(b@),
        r.1@ == findings_spec(b@, declared@),
{
    let mut findings: Vec<Finding> = Vec::new();
    if b.len() == 0 {
        findings.push(Finding::EmptyFile);
        assert(findings@ =~= findings_spec(b@, declared@));
        return (None, findings);
    }
    let detected = detect_kind(b);
    match detected {
        None => {
            findings.push(Finding::UnrecognizedSignature);
            assert(findings@ =~= findings_spec(b@, declared@));
        },
        Some(k) => {
            let declared_s = String::from_str(declared);
            let mime_s = String::from_str(k.mime_type());
            if declared_s != mime_s {
                findings.push(Finding::TypeMismatch { detected: k });
            }
            let missing = match k.end_marker() {
                None => false,
                Some(m) => if k == FileKind::Pdf || k == FileKind::Zip {
                    !contains_from(b, m.as_slice(), 0)
                } else {
                    !has_suffix(b, m.as_slice())
                },
            };
            if missing {
                findings.push(Finding::MissingEndMarker { kind: k });
            }
            let document = k == FileKind::Pdf || k == FileKind::Png || k == FileKind::Jpeg || k == FileKind::Gif;
            if document && contains_from(b, FileKind::Zip.magic().as_slice(), 1) {
                findings.push(Finding::EmbeddedArchive);
            }
            assert(findings@ =~= findings_spec(b@, declared@));
        },
    }
    (detected, findings)
}

/// Metadata extracted from an uploaded document.
pub struct DocumentMetadata {
    pub file_name: String,
    pub declared_content_type: String,
    pub byte_length: usize,
    pub detected_type: Option<FileKind>,
    pub findings: Vec<Finding>,
}

/// Validates documents against their declared content type.
pub struct FileProcessor {
    max_payload: usize,
}

impl FileProcessor {
    pub closed spec fn max_payload(&self) -> nat {
        self.max_payload as nat
    }

    pub closed spec fn wf(&self) -> bool {
        self.max_payload <= PAYLOAD_LIMIT
    }

    /// What a well-formed processor guarantees: a supported size limit.
    pub proof fn lemma_wf(&self)
        requires
            self.wf(),
        ensures
            self.max_payload() <= PAYLOAD_LIMIT,
    {
    }

    pub fn new(config: &ServiceConfig) -> (r: FileProcessor)
        requires
            config.wf(),
        ensures
            r.wf(),
            r.max_payload() == config.max_payload(),
    {
        FileProcessor { max_payload: config.max_payload_bytes() }
    }

    /// Decodes `encoded` and reports its size, detected type and findings.
    /// Fails only when the encoding is malformed or the payload too large.
    pub fn validate_file(&self, encoded: &str, file_name: &str, content_type: &str) -> (r: Result<DocumentMetadata, ProcessError>)
        requires
            self.wf(),
        ensures
            decode_spec(encoded@, self.max_payload()) matches Err(e) ==> r matches Err(f) && f == ProcessError::Decode(e),
            decode_spec(encoded@, self.max_payload()) matches Ok(b) ==> r matches Ok(m) && m.file_name@ == file_name@
                && m.declared_content_type@ == content_type@
                && m.byte_length == b.len()
                && m.detected_type == detect_spec(b)
                && m.findings@ == findings_spec(b, content_type@),
    {
        match decode(encoded, self.max_payload) {
            Err(e) => Err(ProcessError::Decode(e)),
            Ok(b) => {
                let (detected, findings) = analyze(b.as_slice(), content_type);
                Ok(DocumentMetadata {
                    file_name: String::from_str(file_name),
                    declared_content_type: String::from_str(content_type),
                    byte_length: b.len(),
                    detected_type: detected,
                    findings,
                })
            },
        }
    }
}

/// A file that begins with the PDF signature but is declared as a PNG image
/// is detected as PDF and reported as a type mismatch.
pub proof fn lemma_pdf_declared_as_png(b: Seq<u8>)
    requires
        starts_with(b, magic_spec(FileKind::Pdf)),
    ensures
        detect_spec(b) == Some(FileKind::Pdf),
        findings_spec(b, "image/png"@).len() > 0,
        findings_spec(b, "image/png"@)[0] == (Finding::TypeMismatch { detected: FileKind::Pdf }),
{
    reveal_strlit("image/png");
    reveal_strlit("application/pdf");
    assert("image/png"@[0] != "application/pdf"@[0]);
}

} // verus!
