use vstd::prelude::*;

verus! {

/// What can go wrong while encoding or decoding a store.
#[derive(Debug, Clone, Copy, PartialEq, Eq, Structural)]
pub enum StoreError {
    /// The container is too short for its declared format.
    Format,
    /// The container is sealed and no passphrase was given.
    MissingKey,
    /// Wrong passphrase, or the sealed data was altered.
    Auth,
    /// The key derivation refused its inputs.
    Kdf,
    /// The payload is beyond what the cipher can seal.
    TooLarge,
    /// The operating system's random generator failed.
    Entropy,
}

impl StoreError {
    /// A human-readable description of the error.
    pub fn message(&self) -> (r: String) {
        match self {
            StoreError::Format => String::from_str("file too short"),
            StoreError::MissingKey => String::from_str(
                "encrypted store: passphrase required (use same key you set with init)",
            ),
            StoreError::Auth => String::from_str("wrong passphrase or corrupted data"),
            StoreError::Kdf => String::from_str("key derivation failed"),
            StoreError::TooLarge => String::from_str("payload too large to encrypt"),
            StoreError::Entropy => String::from_str("random generator failed"),
        }
    }
}

} // verus!
