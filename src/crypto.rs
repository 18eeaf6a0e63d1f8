use vstd::prelude::*;

use vstd::string::StringSliceAdditionalSpecFns;

use crate::error::StoreError;
use crate::format::{NONCE_LEN, SALT_LEN};

verus! {

#[verifier::external_type_specification]
#[verifier::external_body]
pub struct ExArgon2Error(argon2::Error);

#[verifier::external_type_specification]
#[verifier::external_body]
pub struct ExAeadError(chacha20poly1305::Error);

/// Argon2 memory cost, in KiB.
pub const ARGON2_M_COST: u32 = 19456;
/// Argon2 number of passes.
pub const ARGON2_T_COST: u32 = 2;
/// Argon2 degree of parallelism.
pub const ARGON2_P_COST: u32 = 1;
/// Length of a derived key.
pub const KEY_LEN: usize = 32;
/// Longest password argon2 accepts.
pub const MAX_PASSWORD_LEN: usize = 0xFFFF_FFFF;
/// The cipher seals fewer than this many 64-byte blocks.
pub const MAX_CIPHER_BLOCKS: usize = 0xFFFF_FFFF;

/// The 32-byte Argon2id (version 0x13) output for these costs, password and salt.
pub uninterp spec fn argon2id_output(
    m_cost: u32,
    t_cost: u32,
    p_cost: u32,
    password: Seq<u8>,
    salt: Seq<u8>,
) -> Seq<u8>;

/// ChaCha20-Poly1305 with empty associated data: ciphertext, then the 16-byte tag.
pub uninterp spec fn chacha20poly1305_seal(key: Seq<u8>, nonce: Seq<u8>, plaintext: Seq<u8>) -> Seq<u8>;

/// The inputs on which argon2 computes a hash rather than failing.
pub open spec fn argon2_accepts(
    m_cost: u32,
    t_cost: u32,
    p_cost: u32,
    password_len: nat,
    salt_len: nat,
) -> bool {
    &&& m_cost >= 8
    &&& m_cost >= 8 * p_cost
    &&& t_cost >= 1
    &&& 1 <= p_cost <= 0xFF_FFFF
    &&& password_len <= 0xFFFF_FFFF
    &&& 8 <= salt_len <= 0xFFFF_FFFF
}

/// Whether the cipher takes a plaintext of this length.
pub open spec fn sealable_len(len: nat) -> bool {
    len / 64 < MAX_CIPHER_BLOCKS
}

/// Relies on argon2's `Params::new`, `Argon2::new` (Argon2id, version 0x13) and
/// `Argon2::hash_password_into` into a 32-byte buffer: the output depends on the
/// costs, password and salt alone, and the call fails exactly on the costs,
/// password lengths and salt lengths that those functions check.
#[verifier::external_body]
fn argon2id_hash(m_cost: u32, t_cost: u32, p_cost: u32, password: &[u8], salt: &[u8]) -> (r: Result<
    [u8; 32],
    argon2::Error,
>)
    requires
        p_cost <= 0xFF_FFFF,
    ensures
        r is Ok <==> argon2_accepts(m_cost, t_cost, p_cost, password@.len(), salt@.len()),
        r is Ok ==> r->Ok_0@ == argon2id_output(m_cost, t_cost, p_cost, password@, salt@),
{
    let params = argon2::Params::new(m_cost, t_cost, p_cost, Some(32))?;
    let argon = argon2::Argon2::new(argon2::Algorithm::Argon2id, argon2::Version::V0x13, params);
    let mut out = [0u8; 32];
    argon.hash_password_into(password, salt, &mut out)?;
    Ok(out)
}

/// Relies on chacha20poly1305's `KeyInit::new` and `Aead::encrypt` with empty
/// associated data: the result is the ciphertext followed by a 16-byte tag, and
/// the call fails exactly on plaintexts of `MAX_CIPHER_BLOCKS` blocks or more.
#[verifier::external_body]
fn chacha_seal(key: &[u8; 32], nonce: &[u8], plaintext: &[u8]) -> (r: Result<
    Vec<u8>,
    chacha20poly1305::Error,
>)
    requires
        nonce@.len() == NONCE_LEN,
    ensures
        r is Ok <==> sealable_len(plaintext@.len()),
        r is Ok ==> r->Ok_0@ == chacha20poly1305_seal(key@, nonce@, plaintext@),
        r is Ok ==> r->Ok_0@.len() == plaintext@.len() + 16,
{
    let cipher = <chacha20poly1305::ChaCha20Poly1305 as chacha20poly1305::KeyInit>::new(key.into());
    chacha20poly1305::aead::Aead::encrypt(&cipher, chacha20poly1305::Nonce::from_slice(nonce), plaintext)
}

/// Relies on chacha20poly1305's `KeyInit::new` and `Aead::decrypt` with empty
/// associated data: it returns a plaintext only when the tag verifies, that is,
/// when the input is that plaintext's sealing under this key and nonce; and on
/// the sealing of any plaintext the cipher takes, it returns that plaintext.
#[verifier::external_body]
fn chacha_open(key: &[u8; 32], nonce: &[u8], sealed: &[u8]) -> (r: Result<
    Vec<u8>,
    chacha20poly1305::Error,
>)
    requires
        nonce@.len() == NONCE_LEN,
    ensures
        r is Ok ==> chacha20poly1305_seal(key@, nonce@, r->Ok_0@) == sealed@,
        forall|p: Seq<u8>|
            #[trigger] chacha20poly1305_seal(key@, nonce@, p) == sealed@ && sealable_len(p.len())
                ==> (r is Ok && r->Ok_0@ == p),
{
    let cipher = <chacha20poly1305::ChaCha20Poly1305 as chacha20poly1305::KeyInit>::new(key.into());
    chacha20poly1305::aead::Aead::decrypt(&cipher, chacha20poly1305::Nonce::from_slice(nonce), sealed)
}

/// Relies on rand's `OsRng` and `RngCore::try_fill_bytes`: the buffer keeps its
/// length; the result says whether the operating system supplied the bytes.
#[verifier::external_body]
fn os_fill(buf: &mut Vec<u8>) -> (ok: bool)
    ensures
        final(buf)@.len() == old(buf)@.len(),
{
    rand::RngCore::try_fill_bytes(&mut rand::rngs::OsRng, buf.as_mut_slice()).is_ok()
}

/// The key that the store derives from `password` and `salt`.
pub open spec fn derived_key(password: Seq<u8>, salt: Seq<u8>) -> Seq<u8> {
    argon2id_output(ARGON2_M_COST, ARGON2_T_COST, ARGON2_P_COST, password, salt)
}

/// Whether the store's key derivation accepts a password and salt of these
/// lengths: the salt is exactly `SALT_LEN` bytes, and argon2 takes both.
pub open spec fn kdf_accepts(password_len: nat, salt_len: nat) -> bool {
    salt_len == SALT_LEN && argon2_accepts(ARGON2_M_COST, ARGON2_T_COST, ARGON2_P_COST, password_len, salt_len)
}

/// What `derive_key` returns for `password` and `salt`.
pub open spec fn key_outcome(password: Seq<u8>, salt: Seq<u8>, r: Result<[u8; 32], StoreError>) -> bool {
    &&& r is Ok <==> kdf_accepts(password.len(), salt.len())
    &&& r is Ok ==> r->Ok_0@ == derived_key(password, salt)
    &&& r is Err ==> r->Err_0 == StoreError::Kdf
}

/// Derives the 32-byte key for `passphrase` and `salt` with Argon2id.
pub fn derive_key(passphrase: &str, salt: &[u8]) -> (r: Result<[u8; 32], StoreError>)
    ensures
        key_outcome(passphrase.spec_bytes(), salt@, r),
{
    if salt.len() != SALT_LEN {
        return Err(StoreError::Kdf);
    }
    match argon2id_hash(ARGON2_M_COST, ARGON2_T_COST, ARGON2_P_COST, passphrase.as_bytes(), salt) {
        Ok(key) => Ok(key),
        Err(_) => Err(StoreError::Kdf),
    }
}

/// Deriving twice from the same passphrase and salt gives the same outcome, and
/// the same key where it succeeds.
pub proof fn derive_key_is_deterministic(
    password: Seq<u8>,
    salt: Seq<u8>,
    r1: Result<[u8; 32], StoreError>,
    r2: Result<[u8; 32], StoreError>,
)
    requires
        key_outcome(password, salt, r1),
        key_outcome(password, salt, r2),
    ensures
        r1 is Ok <==> r2 is Ok,
        r1 is Ok ==> r1->Ok_0@ == r2->Ok_0@,
        r1 is Err ==> r1 == r2,
{
}

/// Seals `plaintext` under `key` and `nonce`.
pub fn seal(key: &[u8; 32], nonce: &[u8], plaintext: &[u8]) -> (r: Result<Vec<u8>, StoreError>)
    requires
        nonce@.len() == NONCE_LEN,
    ensures
        r is Ok <==> sealable_len(plaintext@.len()),
        r is Ok ==> r->Ok_0@ == chacha20poly1305_seal(key@, nonce@, plaintext@),
        r is Ok ==> r->Ok_0@.len() == plaintext@.len() + 16,
        r is Err ==> r->Err_0 == StoreError::TooLarge,
{
    match chacha_seal(key, nonce, plaintext) {
        Ok(c) => Ok(c),
        Err(_) => Err(StoreError::TooLarge),
    }
}

/// Opens `sealed` under `key` and `nonce`; any failure of the tag is `Auth`.
pub fn open(key: &[u8; 32], nonce: &[u8], sealed: &[u8]) -> (r: Result<Vec<u8>, StoreError>)
    requires
        nonce@.len() == NONCE_LEN,
    ensures
        r is Ok ==> chacha20poly1305_seal(key@, nonce@, r->Ok_0@) == sealed@,
        r is Err ==> r->Err_0 == StoreError::Auth,
        forall|p: Seq<u8>|
            #[trigger] chacha20poly1305_seal(key@, nonce@, p) == sealed@ && sealable_len(p.len())
                ==> (r is Ok && r->Ok_0@ == p),
{
    match chacha_open(key, nonce, sealed) {
        Ok(p) => Ok(p),
        Err(_) => Err(StoreError::Auth),
    }
}

/// A fresh buffer of `len` bytes from the operating system's generator.
pub fn random_bytes(len: usize) -> (r: Result<Vec<u8>, StoreError>)
    ensures
        r is Ok ==> r->Ok_0@.len() == len,
        r is Err ==> r->Err_0 == StoreError::Entropy,
{
    let mut buf: Vec<u8> = Vec::new();
    let mut i: usize = 0;
    while i < len
        invariant
            i <= len,
            buf@.len() == i,
        decreases len - i,
    {
        buf.push(0u8);
        i = i + 1;
    }
    if os_fill(&mut buf) {
        Ok(buf)
    } else {
        Err(StoreError::Entropy)
    }
}

/// A fresh salt for key derivation.
pub fn fresh_salt() -> (r: Result<Vec<u8>, StoreError>)
    ensures
        r is Ok ==> r->Ok_0@.len() == SALT_LEN,
        r is Err ==> r->Err_0 == StoreError::Entropy,
{
    random_bytes(SALT_LEN)
}

/// A fresh cipher nonce.
pub fn fresh_nonce() -> (r: Result<Vec<u8>, StoreError>)
    ensures
        r is Ok ==> r->Ok_0@.len() == NONCE_LEN,
        r is Err ==> r->Err_0 == StoreError::Entropy,
{
    random_bytes(NONCE_LEN)
}

} // verus!
