//! Secure document processing core: payload codec, authenticated encryption
//! with plaintext checksums, structural validation and rule-based scanning.
pub mod codec;
pub mod error;
pub mod bytes;
pub mod checksum;
pub mod config;
pub mod encryption;
pub mod validation;
pub mod scanner;
pub mod dispatch;
