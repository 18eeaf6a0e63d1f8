//! A local secret store: named records kept in one file, optionally sealed
//! with a passphrase (Argon2id key derivation, ChaCha20-Poly1305 encryption).

pub mod codec;
pub mod crypto;
pub mod error;
pub mod format;
pub mod paths;
pub mod record;
