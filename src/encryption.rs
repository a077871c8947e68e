//! Authenticated encryption of documents under AES-256-GCM, with the file
//! name bound as associated data and a checksum of the plaintext.
//!
//! An envelope is the 12-byte nonce followed by the ciphertext and its
//! 16-byte tag, encoded as base64.
use aes_gcm::aead::rand_core::RngCore;
use aes_gcm::aead::{Aead, KeyInit, OsRng, Payload};
use vstd::prelude::*;
use vstd::utf8::encode_utf8;

use crate::checksum::{checksum, checksum_spec};
use crate::codec::{base64_encoded, decode, decode_spec, encode, PAYLOAD_LIMIT};
use crate::config::{ServiceConfig, KEY_LEN};
use crate::error::{DecodeIssue, ProcessError};

verus! {

/// Length in bytes of a GCM nonce.
pub const NONCE_LEN: usize = 12;

/// Length in bytes of a GCM authentication tag.
pub const TAG_LEN: usize = 16;

/// The largest associated data that AES-GCM accepts, in bytes.
pub const AAD_LIMIT: u64 = 68719476736;

/// The ciphertext with appended tag that `aes-gcm` produces.
pub uninterp spec fn aes256_gcm_sealed(key: Seq<u8>, nonce: Seq<u8>, aad: Seq<u8>, msg: Seq<u8>) -> Seq<u8>;

/// What `aes-gcm` recovers from a ciphertext with appended tag (`None` when the tag does not verify).
pub uninterp spec fn aes256_gcm_opened(key: Seq<u8>, nonce: Seq<u8>, aad: Seq<u8>, ct: Seq<u8>) -> Option<Seq<u8>>;

/// Relies on `Aes256Gcm::encrypt`: it fails only when the message or the
/// associated data exceeds 2^36 bytes, appends a 16-byte tag, and its output
/// decrypts to the message under the same key, nonce and associated data.
#[verifier::external_body]
fn aes256_gcm_seal(key: &[u8], nonce: &[u8], aad: &[u8], msg: &[u8]) -> (r: Option<Vec<u8>>)
    requires
        key@.len() == KEY_LEN,
        nonce@.len() == NONCE_LEN,
    ensures
        r is Some <==> (msg@.len() <= AAD_LIMIT && aad@.len() <= AAD_LIMIT),
        r matches Some(c) ==> c@ == aes256_gcm_sealed(key@, nonce@, aad@, msg@),
        r matches Some(c) ==> c@.len() == msg@.len() + TAG_LEN,
        r matches Some(c) ==> aes256_gcm_opened(key@, nonce@, aad@, c@) == Some(msg@),
{
    let cipher = aes_gcm::Aes256Gcm::new_from_slice(key).ok()?;
    cipher.encrypt(aes_gcm::Nonce::from_slice(nonce), Payload { msg, aad }).ok()
}

/// Relies on `Aes256Gcm::decrypt`: it returns the plaintext, 16 bytes
/// shorter than the ciphertext, only when the tag verifies.
#[verifier::external_body]
fn aes256_gcm_open(key: &[u8], nonce: &[u8], aad: &[u8], ct: &[u8]) -> (r: Option<Vec<u8>>)
    requires
        key@.len() == KEY_LEN,
        nonce@.len() == NONCE_LEN,
    ensures
        r matches Some(p) ==> aes256_gcm_opened(key@, nonce@, aad@, ct@) == Some(p@),
        r matches Some(p) ==> p@.len() + TAG_LEN == ct@.len(),
        r is None ==> aes256_gcm_opened(key@, nonce@, aad@, ct@) is None,
{
    let cipher = aes_gcm::Aes256Gcm::new_from_slice(key).ok()?;
    cipher.decrypt(aes_gcm::Nonce::from_slice(nonce), Payload { msg: ct, aad }).ok()
}

/// Relies on `OsRng::try_fill_bytes` for 12 bytes from the operating
/// system's random source; `None` when that source fails.
#[verifier::external_body]
fn random_nonce() -> (r: Option<Vec<u8>>)
    ensures
        r matches Some(n) ==> n@.len() == NONCE_LEN,
{
    let mut nonce = aes_gcm::aead::Nonce::<aes_gcm::Aes256Gcm>::default();
    OsRng.try_fill_bytes(&mut nonce).ok()?;
    Some(nonce.to_vec())
}

/// The view of an operation's `(text, checksum)` result.
pub open spec fn pair_view(r: Result<(String, String), ProcessError>) -> Result<(Seq<char>, Seq<char>), ProcessError> {
    match r {
        Ok((a, b)) => Ok((a@, b@)),
        Err(e) => Err(e),
    }
}

/// Encrypting the payload `text` for `file_name` under `nonce`.
pub open spec fn seal_spec(key: Seq<u8>, max: nat, text: Seq<char>, file_name: Seq<char>, nonce: Seq<u8>)
    -> Result<(Seq<char>, Seq<char>), ProcessError>
{
    match decode_spec(text, max) {
        Err(e) => Err(ProcessError::Decode(e)),
        Ok(b) => if encode_utf8(file_name).len() > AAD_LIMIT {
            Err(ProcessError::Encryption)
        } else {
            Ok((
                base64_encoded(nonce + aes256_gcm_sealed(key, nonce, encode_utf8(file_name), b)),
                checksum_spec(b),
            ))
        },
    }
}

/// Decrypting the envelope `text` for `file_name`.
pub open spec fn open_spec(key: Seq<u8>, max: nat, text: Seq<char>, file_name: Seq<char>)
    -> Result<(Seq<char>, Seq<char>), ProcessError>
{
    match decode_spec(text, max) {
        Err(e) => Err(ProcessError::Decode(e)),
        Ok(env) => if env.len() < NONCE_LEN + TAG_LEN {
            Err(ProcessError::Decode(DecodeIssue::ShortEnvelope))
        } else {
            match aes256_gcm_opened(
                key,
                env.subrange(0, NONCE_LEN as int),
                encode_utf8(file_name),
                env.subrange(NONCE_LEN as int, env.len() as int),
            ) {
                None => Err(ProcessError::Authentication),
                Some(p) => Ok((base64_encoded(p), checksum_spec(p))),
            }
        },
    }
}

fn concat_bytes(a: &[u8], b: &[u8]) -> (r: Vec<u8>)
    ensures
        r@ == a@ + b@,
{
    let mut out: Vec<u8> = Vec::new();
    let mut i: usize = 0;
    while i < a.len()
        invariant
            i <= a@.len(),
            out@ == a@.subrange(0, i as int),
        decreases a@.len() - i,
    {
        out.push(a[i]);
        i = i + 1;
    }
    let mut j: usize = 0;
    while j < b.len()
        invariant
            j <= b@.len(),
            out@ == a@ + b@.subrange(0, j as int),
        decreases b@.len() - j,
    {
        out.push(b[j]);
        j = j + 1;
    }
    assert(a@.subrange(0, a@.len() as int) =~= a@);
    assert(b@.subrange(0, b@.len() as int) =~= b@);
    out
}

/// Encrypts and decrypts documents under the process key.
pub struct EncryptionService {
    key: Vec<u8>,
    max_payload: usize,
}

impl EncryptionService {
    pub closed spec fn key(&self) -> Seq<u8> {
        self.key@
    }

    pub closed spec fn max_payload(&self) -> nat {
        self.max_payload as nat
    }

    pub closed spec fn wf(&self) -> bool {
        self.key@.len() == KEY_LEN && self.max_payload <= PAYLOAD_LIMIT
    }

    /// What a well-formed service guarantees: a 32-byte key and a supported size limit.
    pub proof fn lemma_wf(&self)
        requires
            self.wf(),
        ensures
            self.key().len() == KEY_LEN,
            self.max_payload() <= PAYLOAD_LIMIT,
    {
    }

    pub fn new(config: &ServiceConfig) -> (r: EncryptionService)
        requires
            config.wf(),
        ensures
            r.wf(),
            r.key() == config.key(),
            r.max_payload() == config.max_payload(),
    {
        EncryptionService { key: config.key_bytes(), max_payload: config.max_payload_bytes() }
    }

    /// Encrypts the payload `encoded` for `file_name` under the given nonce.
    /// The nonce must never have been used with this key before.
    pub fn seal_with_nonce(&self, encoded: &str, file_name: &str, nonce: &[u8]) -> (r: Result<(String, String), ProcessError>)
        requires
            self.wf(),
            nonce@.len() == NONCE_LEN,
        ensures
            pair_view(r) == seal_spec(self.key(), self.max_payload(), encoded@, file_name@, nonce@),
            r matches Ok((env, sum)) ==> (decode_spec(encoded@, self.max_payload()) matches Ok(b)
                && (b.len() + NONCE_LEN + TAG_LEN <= self.max_payload() ==> open_spec(
                    self.key(), self.max_payload(), env@, file_name@,
                ) == Ok::<(Seq<char>, Seq<char>), ProcessError>((base64_encoded(b), sum@)))),
    {
        let plain = match decode(encoded, self.max_payload) {
            Ok(b) => b,
            Err(e) => return Err(ProcessError::Decode(e)),
        };
        let sum = checksum(plain.as_slice());
        let aad = file_name.as_bytes();
        let sealed = match aes256_gcm_seal(self.key.as_slice(), nonce, aad, plain.as_slice()) {
            Some(c) => c,
            None => return Err(ProcessError::Encryption),
        };
        let env = concat_bytes(nonce, sealed.as_slice());
        let text = encode(env.as_slice());
        proof {
            let m = self.max_payload as nat;
            if plain@.len() + NONCE_LEN + TAG_LEN <= m {
                assert(text@.len() <= 4 * ((m + 2) / 3)) by (nonlinear_arith)
                    requires text@.len() == 4 * ((env@.len() + 2) / 3), env@.len() <= m;
                assert(env@.subrange(0, NONCE_LEN as int) =~= nonce@);
                assert(env@.subrange(NONCE_LEN as int, env@.len() as int) =~= sealed@);
            }
        }
        Ok((text, sum))
    }

    /// Encrypts the payload `encoded` for `file_name` under a fresh random
    /// nonce, returning the encoded envelope and the plaintext's checksum.
    pub fn encrypt_file(&self, encoded: &str, file_name: &str) -> (r: Result<(String, String), ProcessError>)
        requires
            self.wf(),
        ensures
            decode_spec(encoded@, self.max_payload()) matches Err(e) ==> r == Err::<(String, String), ProcessError>(ProcessError::Decode(e)),
            r matches Err(e) ==> (e is Decode || e is Encryption),
            r matches Err(ProcessError::Decode(e)) ==> decode_spec(encoded@, self.max_payload()) == Err::<Seq<u8>, DecodeIssue>(e),
            r is Ok ==> exists|nonce: Seq<u8>| nonce.len() == NONCE_LEN
                && pair_view(r) == #[trigger] seal_spec(self.key(), self.max_payload(), encoded@, file_name@, nonce),
            r matches Ok((env, sum)) ==> (decode_spec(encoded@, self.max_payload()) matches Ok(b)
                && sum@ == checksum_spec(b)
                && (b.len() + NONCE_LEN + TAG_LEN <= self.max_payload() ==> open_spec(
                    self.key(), self.max_payload(), env@, file_name@,
                ) == Ok::<(Seq<char>, Seq<char>), ProcessError>((base64_encoded(b), sum@)))),
    {
        if let Err(e) = decode(encoded, self.max_payload) {
            return Err(ProcessError::Decode(e));
        }
        match random_nonce() {
            None => Err(ProcessError::Encryption),
            Some(nonce) => {
                let r = self.seal_with_nonce(encoded, file_name, nonce.as_slice());
                proof {
                    if r is Ok {
                        assert(pair_view(r) == seal_spec(self.key(), self.max_payload(), encoded@, file_name@, nonce@));
                    }
                }
                r
            },
        }
    }

    /// Decrypts the encoded envelope `encoded` for `file_name`, returning the
    /// encoded plaintext and its checksum.
    ///
    /// The size limit applies to every decoded payload, the envelope
    /// included: a plaintext within 28 bytes (nonce and tag) of the limit
    /// encrypts, but its envelope is refused here as too large.
    pub fn decrypt_file(&self, encoded: &str, file_name: &str) -> (r: Result<(String, String), ProcessError>)
        requires
            self.wf(),
        ensures
            pair_view(r) == open_spec(self.key(), self.max_payload(), encoded@, file_name@),
    {
        let env = match decode(encoded, self.max_payload) {
            Ok(b) => b,
            Err(e) => return Err(ProcessError::Decode(e)),
        };
        if env.len() < NONCE_LEN + TAG_LEN {
            return Err(ProcessError::Decode(DecodeIssue::ShortEnvelope));
        }
        let (nonce, ct) = env.as_slice().split_at(NONCE_LEN);
        match aes256_gcm_open(self.key.as_slice(), nonce, file_name.as_bytes(), ct) {
            None => Err(ProcessError::Authentication),
            Some(plain) => {
                let sum = checksum(plain.as_slice());
                let text = encode(plain.as_slice());
                Ok((text, sum))
            },
        }
    }
}

} // verus!
