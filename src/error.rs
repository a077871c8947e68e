use vstd::prelude::*;

verus! {

/// Why an encoded payload was not accepted.
#[derive(Clone, Copy, Debug, PartialEq, Eq, Structural)]
pub enum DecodeIssue {
    /// The text is not padded standard base64.
    Malformed,
    /// The payload decodes to more bytes than the configured maximum.
    TooLarge,
    /// The decoded envelope is too short to hold a nonce and a tag.
    ShortEnvelope,
}

/// The failures of the processing core.
#[derive(Clone, Copy, Debug, PartialEq, Eq, Structural)]
pub enum ProcessError {
    /// Malformed or oversize encoded input: the caller's fault.
    Decode(DecodeIssue),
    /// The authentication tag did not verify (tampering, wrong key or wrong file name).
    Authentication,
    /// The cipher or the random source failed.
    Encryption,
    /// The scanner could not run (its ruleset is not well formed).
    Scan,
}

/// The message reported for each error.
pub open spec fn message_spec(e: ProcessError) -> Seq<char> {
    match e {
        ProcessError::Decode(DecodeIssue::Malformed) => "Decode error: payload is not valid base64"@,
        ProcessError::Decode(DecodeIssue::TooLarge) => "Decode error: payload exceeds the maximum size"@,
        ProcessError::Decode(DecodeIssue::ShortEnvelope) => "Decode error: encrypted envelope is truncated"@,
        ProcessError::Authentication => "Authentication error: decryption failed"@,
        ProcessError::Encryption => "Encryption error: internal cipher failure"@,
        ProcessError::Scan => "Scan error: scanner could not run"@,
    }
}

impl ProcessError {
    /// A human-readable message that never carries key material or plaintext.
    pub fn message(&self) -> (r: String)
        ensures
            r@ == message_spec(*self),
    {
        match self {
            ProcessError::Decode(DecodeIssue::Malformed) => String::from_str("Decode error: payload is not valid base64"),
            ProcessError::Decode(DecodeIssue::TooLarge) => String::from_str("Decode error: payload exceeds the maximum size"),
            ProcessError::Decode(DecodeIssue::ShortEnvelope) => String::from_str("Decode error: encrypted envelope is truncated"),
            ProcessError::Authentication => String::from_str("Authentication error: decryption failed"),
            ProcessError::Encryption => String::from_str("Encryption error: internal cipher failure"),
            ProcessError::Scan => String::from_str("Scan error: scanner could not run"),
        }
    }
}

} // verus!
