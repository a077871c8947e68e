//! Process-wide settings: the symmetric key and the payload size bound.
use vstd::prelude::*;

use crate::codec::{decode, PAYLOAD_LIMIT};

verus! {

/// Length in bytes of the AES-256 key.
pub const KEY_LEN: usize = 32;

/// Why a configuration was refused.
#[derive(Clone, Copy, Debug, PartialEq, Eq, Structural)]
pub enum ConfigIssue {
    /// The key is not 32 bytes long (or its encoding is not base64).
    BadKey,
    /// The payload bound is above the largest supported size.
    BadLimit,
}

/// Immutable settings shared by the services; built once at startup.
pub struct ServiceConfig {
    key: Vec<u8>,
    max_payload: usize,
}

impl ServiceConfig {
    /// The key material.
    pub closed spec fn key(&self) -> Seq<u8> {
        self.key@
    }

    /// The largest decoded payload accepted, in bytes.
    pub closed spec fn max_payload(&self) -> nat {
        self.max_payload as nat
    }

    pub closed spec fn wf(&self) -> bool {
        self.key@.len() == KEY_LEN && self.max_payload <= PAYLOAD_LIMIT
    }

    /// What a well-formed configuration guarantees: a 32-byte key and a supported size limit.
    pub proof fn lemma_wf(&self)
        requires
            self.wf(),
        ensures
            self.key().len() == KEY_LEN,
            self.max_payload() <= PAYLOAD_LIMIT,
    {
    }

    /// Builds a configuration from raw key bytes and a payload bound.
    pub fn new(key: Vec<u8>, max_payload: usize) -> (r: Result<ServiceConfig, ConfigIssue>)
        ensures
            r is Ok <==> (key@.len() == KEY_LEN && max_payload <= PAYLOAD_LIMIT),
            r matches Ok(c) ==> c.wf() && c.key() == key@ && c.max_payload() == max_payload,
            r matches Err(e) ==> (e == ConfigIssue::BadKey <==> key@.len() != KEY_LEN),
    {
        if key.len() != KEY_LEN {
            Err(ConfigIssue::BadKey)
        } else if max_payload > PAYLOAD_LIMIT {
            Err(ConfigIssue::BadLimit)
        } else {
            Ok(ServiceConfig { key, max_payload })
        }
    }

    /// Builds a configuration from a base64-encoded key.
    pub fn from_encoded_key(encoded_key: &str, max_payload: usize) -> (r: Result<ServiceConfig, ConfigIssue>)
        ensures
            r matches Ok(c) ==> c.wf() && c.max_payload() == max_payload
                && crate::codec::decode_spec(encoded_key@, KEY_LEN as nat) == Ok::<Seq<u8>, crate::error::DecodeIssue>(c.key()),
            r is Ok <==> (max_payload <= PAYLOAD_LIMIT && (crate::codec::decode_spec(encoded_key@, KEY_LEN as nat) matches Ok(k) && k.len() == KEY_LEN)),
    {
        match decode(encoded_key, KEY_LEN) {
            Ok(k) => ServiceConfig::new(k, max_payload),
            Err(_) => Err(ConfigIssue::BadKey),
        }
    }

    /// The largest decoded payload accepted, in bytes.
    pub fn max_payload_bytes(&self) -> (r: usize)
        ensures
            r == self.max_payload(),
            self.wf() ==> r <= PAYLOAD_LIMIT,
    {
        self.max_payload
    }

    /// A copy of the key material, for the encryption service alone.
    pub(crate) fn key_bytes(&self) -> (r: Vec<u8>)
        ensures
            r@ == self.key(),
            self.wf() ==> r@.len() == KEY_LEN,
    {
        let mut out: Vec<u8> = Vec::new();
        let mut i: usize = 0;
        while i < self.key.len()
            invariant
                i <= self.key@.len(),
                out@ == self.key@.subrange(0, i as int),
            decreases self.key@.len() - i,
        {
            out.push(self.key[i]);
            i = i + 1;
        }
        assert(out@ =~= self.key@);
        out
    }
}

} // verus!
