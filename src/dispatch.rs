//! Routing of one request to exactly one of the four operations, and the
//! uniform response that carries its result or its error.
use vstd::prelude::*;

use crate::checksum::checksum_spec;
use crate::codec::{base64_decoded, base64_encoded, decode_spec};
use crate::config::ServiceConfig;
use crate::encryption::{open_spec, pair_view, seal_spec, EncryptionService, NONCE_LEN, TAG_LEN};
use crate::error::{message_spec, DecodeIssue, ProcessError};
use crate::scanner::{is_default_ruleset, DEFAULT_MALICIOUS_AT, DEFAULT_SUSPICIOUS_AT, ids_view, matched_ids, risk_score_spec, verdict_spec, ScanResult, SecurityScanner};
use crate::validation::{detect_spec, findings_spec, DocumentMetadata, FileProcessor};

verus! {

/// The four operations of the processing core.
#[derive(Clone, Copy, Debug, PartialEq, Eq, Structural)]
pub enum Operation {
    Encrypt,
    Decrypt,
    Validate,
    Scan,
}

/// The operation that a selector names, if any.
pub open spec fn operation_spec(name: Seq<char>) -> Option<Operation> {
    if name == "encrypt"@ {
        Some(Operation::Encrypt)
    } else if name == "decrypt"@ {
        Some(Operation::Decrypt)
    } else if name == "validate"@ {
        Some(Operation::Validate)
    } else if name == "scan"@ {
        Some(Operation::Scan)
    } else {
        None
    }
}

impl Operation {
    /// Parses an operation selector.
    pub fn parse(name: &str) -> (r: Option<Operation>)
        ensures
            r == operation_spec(name@),
    {
        let s = String::from_str(name);
        if s == String::from_str("encrypt") {
            Some(Operation::Encrypt)
        } else if s == String::from_str("decrypt") {
            Some(Operation::Decrypt)
        } else if s == String::from_str("validate") {
            Some(Operation::Validate)
        } else if s == String::from_str("scan") {
            Some(Operation::Scan)
        } else {
            None
        }
    }
}

/// One request to the core.
pub struct ProcessRequest {
    pub file_data: String,
    pub file_name: String,
    pub content_type: String,
    pub operation: String,
}

/// Structured metadata in a response.
pub enum Metadata {
    Document(DocumentMetadata),
    Scan(ScanResult),
}

/// The uniform response to one request.
pub struct ProcessResponse {
    pub success: bool,
    pub data: Option<String>,
    pub checksum: Option<String>,
    pub metadata: Option<Metadata>,
    pub error: Option<String>,
}

/// `r` reports the failure `message`, and nothing else.
pub open spec fn is_failure(r: ProcessResponse, message: Seq<char>) -> bool {
    &&& !r.success
    &&& r.data is None
    &&& r.checksum is None
    &&& r.metadata is None
    &&& r.error matches Some(m) && m@ == message
}

/// `r` reports an operation's `(text, checksum)` result or its error.
pub open spec fn reports_pair(r: ProcessResponse, result: Result<(Seq<char>, Seq<char>), ProcessError>) -> bool {
    match result {
        Ok((d, c)) => r.success && (r.data matches Some(x) && x@ == d) && (r.checksum matches Some(y) && y@ == c)
            && r.metadata is None && r.error is None,
        Err(e) => is_failure(r, message_spec(e)),
    }
}

/// `r` succeeds with metadata only.
pub open spec fn is_metadata_success(r: ProcessResponse) -> bool {
    r.success && r.data is None && r.checksum is None && r.metadata is Some && r.error is None
}

fn failure(e: ProcessError) -> (r: ProcessResponse)
    ensures
        is_failure(r, message_spec(e)),
{
    ProcessResponse { success: false, data: None, checksum: None, metadata: None, error: Some(e.message()) }
}

fn pair_response(result: Result<(String, String), ProcessError>) -> (r: ProcessResponse)
    ensures
        reports_pair(r, pair_view(result)),
{
    match result {
        Ok((d, c)) => ProcessResponse { success: true, data: Some(d), checksum: Some(c), metadata: None, error: None },
        Err(e) => failure(e),
    }
}

/// The three services, built once from the configuration.
pub struct Processor {
    pub encryption: EncryptionService,
    pub files: FileProcessor,
    pub scanner: SecurityScanner,
}

impl Processor {
    pub open spec fn wf(&self) -> bool {
        &&& self.encryption.wf()
        &&& self.files.wf()
        &&& self.scanner.wf()
        &&& self.files.max_payload() == self.encryption.max_payload()
        &&& self.scanner.max_payload() == self.encryption.max_payload()
    }

    /// Builds the services from `config`, with the default scanning rules.
    pub fn new(config: &ServiceConfig) -> (r: Processor)
        requires
            config.wf(),
        ensures
            r.wf(),
            r.encryption.key() == config.key(),
            r.encryption.max_payload() == config.max_payload(),
            r.files.max_payload() == config.max_payload(),
            r.scanner.max_payload() == config.max_payload(),
            is_default_ruleset(r.scanner.rules()),
            r.scanner.suspicious_at() == DEFAULT_SUSPICIOUS_AT,
            r.scanner.malicious_at() == DEFAULT_MALICIOUS_AT,
    {
        Processor {
            encryption: EncryptionService::new(config),
            files: FileProcessor::new(config),
            scanner: SecurityScanner::with_default_rules(config),
        }
    }

    /// Handles one request: parses the operation selector and runs exactly
    /// that operation, reporting its result or its error.
    pub fn process(&self, request: &ProcessRequest) -> (r: ProcessResponse)
        requires
            self.wf(),
        ensures
            operation_spec(request.operation@) is None ==> is_failure(r, "Invalid operation"@),
            operation_spec(request.operation@) == Some(Operation::Decrypt) ==> reports_pair(
                r,
                open_spec(self.encryption.key(), self.encryption.max_payload(), request.file_data@, request.file_name@),
            ),
            operation_spec(request.operation@) == Some(Operation::Encrypt) ==> ((r.success ==> exists|nonce: Seq<u8>|
                nonce.len() == 12 && reports_pair(r, #[trigger] seal_spec(
                    self.encryption.key(), self.encryption.max_payload(), request.file_data@, request.file_name@, nonce,
                ))) && (decode_spec(request.file_data@, self.encryption.max_payload()) matches Err(e)
                ==> is_failure(r, message_spec(ProcessError::Decode(e))))),
            operation_spec(request.operation@) == Some(Operation::Encrypt)
                && decode_spec(request.file_data@, self.encryption.max_payload()) is Ok
                ==> (r.success || is_failure(r, message_spec(ProcessError::Encryption))),
            operation_spec(request.operation@) == Some(Operation::Encrypt) && r.success
                ==> (decode_spec(request.file_data@, self.encryption.max_payload()) matches Ok(b)
                && (r.data matches Some(d) && (r.checksum matches Some(c) && c@ == checksum_spec(b)
                && (b.len() + NONCE_LEN + TAG_LEN <= self.encryption.max_payload() ==> open_spec(
                    self.encryption.key(), self.encryption.max_payload(), d@, request.file_name@,
                ) == Ok::<(Seq<char>, Seq<char>), ProcessError>((base64_encoded(b), c@)))))),
            operation_spec(request.operation@) == Some(Operation::Validate) || operation_spec(request.operation@) == Some(Operation::Scan)
                ==> match decode_spec(request.file_data@, self.encryption.max_payload()) {
                    Ok(_) => is_metadata_success(r),
                    Err(e) => is_failure(r, message_spec(ProcessError::Decode(e))),
                },
            operation_spec(request.operation@) == Some(Operation::Validate)
                ==> (decode_spec(request.file_data@, self.encryption.max_payload()) matches Ok(b)
                ==> (r.metadata matches Some(Metadata::Document(m)) && m.file_name@ == request.file_name@
                    && m.declared_content_type@ == request.content_type@ && m.byte_length == b.len()
                    && m.detected_type == detect_spec(b) && m.findings@ == findings_spec(b, request.content_type@))),
            operation_spec(request.operation@) == Some(Operation::Scan)
                ==> (decode_spec(request.file_data@, self.encryption.max_payload()) matches Ok(b)
                ==> (r.metadata matches Some(Metadata::Scan(s))
                    && ids_view(s.matched_rules@) == matched_ids(self.scanner.rules(), b)
                    && s.risk_score == risk_score_spec(self.scanner.rules(), b)
                    && s.verdict == verdict_spec(s.risk_score as nat, self.scanner.suspicious_at(), self.scanner.malicious_at()))),
    {
        match Operation::parse(request.operation.as_str()) {
            None => ProcessResponse {
                success: false,
                data: None,
                checksum: None,
                metadata: None,
                error: Some(String::from_str("Invalid operation")),
            },
            Some(Operation::Encrypt) => {
                let result = self.encryption.encrypt_file(request.file_data.as_str(), request.file_name.as_str());
                pair_response(result)
            },
            Some(Operation::Decrypt) => {
                let result = self.encryption.decrypt_file(request.file_data.as_str(), request.file_name.as_str());
                pair_response(result)
            },
            Some(Operation::Validate) => {
                match self.files.validate_file(
                    request.file_data.as_str(),
                    request.file_name.as_str(),
                    request.content_type.as_str(),
                ) {
                    Ok(m) => ProcessResponse {
                        success: true,
                        data: None,
                        checksum: None,
                        metadata: Some(Metadata::Document(m)),
                        error: None,
                    },
                    Err(e) => failure(e),
                }
            },
            Some(Operation::Scan) => {
                match self.scanner.scan_file(request.file_data.as_str(), request.file_name.as_str()) {
                    Ok(s) => ProcessResponse {
                        success: true,
                        data: None,
                        checksum: None,
                        metadata: Some(Metadata::Scan(s)),
                        error: None,
                    },
                    Err(e) => failure(e),
                }
            },
        }
    }
}

/// A payload that decodes to more than the configured maximum is refused
/// with a decode error by every operation, before any processing: decoding
/// itself, encryption under any nonce, and decryption (validation and
/// scanning report exactly the decoding error).
pub proof fn lemma_oversize_rejected(
    key: Seq<u8>,
    max: nat,
    text: Seq<char>,
    file_name: Seq<char>,
    nonce: Seq<u8>,
    payload: Seq<u8>,
)
    requires
        base64_decoded(text) == Some(payload),
        payload.len() > max,
    ensures
        decode_spec(text, max) == Err::<Seq<u8>, DecodeIssue>(DecodeIssue::TooLarge),
        seal_spec(key, max, text, file_name, nonce) == Err::<(Seq<char>, Seq<char>), ProcessError>(
            ProcessError::Decode(DecodeIssue::TooLarge),
        ),
        open_spec(key, max, text, file_name) == Err::<(Seq<char>, Seq<char>), ProcessError>(
            ProcessError::Decode(DecodeIssue::TooLarge),
        ),
{
}

} // verus!
