use vstd::prelude::*;
use vstd::string::StringSliceAdditionalSpecFns;

use crate::crypto::{
    chacha20poly1305_seal, derive_key, derived_key, fresh_nonce, fresh_salt, kdf_accepts, open,
    seal, sealable_len,
};
use crate::error::StoreError;
use crate::format::{
    assemble_sealed, body_of, encode_plain, nonce_of, parse, plain_container, plain_tag, salt_of,
    sealed_container, sealed_tag, starts_with_tag, Layout, BODY_OFFSET, MIN_SEALED_LEN, NONCE_LEN,
    SALT_LEN, TAG_LEN,
};

verus! {

/// The bytes of an optional passphrase.
pub open spec fn passphrase_bytes(p: Option<&str>) -> Option<Seq<u8>> {
    match p {
        Some(s) => Some(s.spec_bytes()),
        None => None,
    }
}

/// What `encode_with` returns for `payload` under `password`, `salt` and `nonce`.
pub open spec fn encode_outcome(
    payload: Seq<u8>,
    password: Option<Seq<u8>>,
    salt: Seq<u8>,
    nonce: Seq<u8>,
    r: Result<Vec<u8>, StoreError>,
) -> bool {
    match password {
        None => r is Ok && r->Ok_0@ == plain_container(payload),
        Some(pw) => {
            &&& r is Ok <==> kdf_accepts(pw.len(), salt.len()) && sealable_len(payload.len())
            &&& !kdf_accepts(pw.len(), salt.len()) ==> r == Err::<Vec<u8>, StoreError>(
                StoreError::Kdf,
            )
            &&& kdf_accepts(pw.len(), salt.len()) && !sealable_len(payload.len()) ==> r == Err::<
                Vec<u8>,
                StoreError,
            >(StoreError::TooLarge)
            &&& r is Ok ==> r->Ok_0@ == sealed_container(
                salt,
                nonce,
                chacha20poly1305_seal(derived_key(pw, salt), nonce, payload),
            )
            &&& r is Ok ==> r->Ok_0@.len() == MIN_SEALED_LEN + payload.len()
        },
    }
}

/// What `decode` returns for a sealed container `data` (long enough to hold
/// its header and auth tag) under the passphrase bytes `pw`.
pub open spec fn sealed_outcome(
    data: Seq<u8>,
    pw: Seq<u8>,
    r: Result<Option<Vec<u8>>, StoreError>,
) -> bool {
    let key = derived_key(pw, salt_of(data));
    let nonce = nonce_of(data);
    let body = body_of(data);
    &&& !kdf_accepts(pw.len(), SALT_LEN as nat) ==> r == Err::<Option<Vec<u8>>, StoreError>(
        StoreError::Kdf,
    )
    &&& kdf_accepts(pw.len(), SALT_LEN as nat) ==> (r == Err::<Option<Vec<u8>>, StoreError>(
        StoreError::Auth,
    ) || (r matches Ok(Some(p)) && chacha20poly1305_seal(key, nonce, p@) == body))
    &&& kdf_accepts(pw.len(), SALT_LEN as nat) ==> forall|p: Seq<u8>|
        #[trigger] chacha20poly1305_seal(key, nonce, p) == body && sealable_len(p.len()) ==> (r matches Ok(
            Some(q),
        ) && q@ == p)
}

/// What `decode` returns for `data` under `password`: `Ok(None)` stands for a
/// buffer that holds no store.
pub open spec fn decode_outcome(
    data: Seq<u8>,
    password: Option<Seq<u8>>,
    r: Result<Option<Vec<u8>>, StoreError>,
) -> bool {
    if starts_with_tag(data, plain_tag()) {
        r matches Ok(Some(p)) && p@ == data.subrange(TAG_LEN as int, data.len() as int)
    } else if starts_with_tag(data, sealed_tag()) {
        if data.len() < MIN_SEALED_LEN {
            r == Err::<Option<Vec<u8>>, StoreError>(StoreError::Format)
        } else {
            match password {
                None => r == Err::<Option<Vec<u8>>, StoreError>(StoreError::MissingKey),
                Some(pw) => sealed_outcome(data, pw, r),
            }
        }
    } else {
        r matches Ok(None)
    }
}

/// The container for `payload`: plain without a passphrase, sealed with the
/// given salt and nonce under a passphrase.
pub fn encode_with(payload: &[u8], passphrase: Option<&str>, salt: &[u8], nonce: &[u8]) -> (r:
    Result<Vec<u8>, StoreError>)
    requires
        salt@.len() == SALT_LEN,
        nonce@.len() == NONCE_LEN,
    ensures
        encode_outcome(payload@, passphrase_bytes(passphrase), salt@, nonce@, r),
{
    match passphrase {
        None => Ok(encode_plain(payload)),
        Some(pass) => {
            let key = match derive_key(pass, salt) {
                Ok(k) => k,
                Err(e) => return Err(e),
            };
            let body = match seal(&key, nonce, payload) {
                Ok(b) => b,
                Err(e) => return Err(e),
            };
            Ok(assemble_sealed(salt, nonce, &body))
        },
    }
}

/// What `encode` returns: the plain container without a password; with one,
/// a container that `encode_with` gives for some salt and nonce, or an error.
pub open spec fn fresh_encode_outcome(
    payload: Seq<u8>,
    password: Option<Seq<u8>>,
    r: Result<Vec<u8>, StoreError>,
) -> bool {
    &&& password is None ==> r is Ok && r->Ok_0@ == plain_container(payload)
    &&& password is Some && r is Ok ==> exists|salt: Seq<u8>, nonce: Seq<u8>|
        salt.len() == SALT_LEN && nonce.len() == NONCE_LEN && #[trigger] encode_outcome(
            payload,
            password,
            salt,
            nonce,
            r,
        )
    &&& password is Some && r is Err ==> r->Err_0 == StoreError::Entropy || r->Err_0
        == StoreError::Kdf || r->Err_0 == StoreError::TooLarge
}

/// The container for `payload`: plain without a passphrase, sealed under a
/// fresh random salt and nonce with one.
pub fn encode(payload: &[u8], passphrase: Option<&str>) -> (r: Result<Vec<u8>, StoreError>)
    ensures
        fresh_encode_outcome(payload@, passphrase_bytes(passphrase), r),
{
    match passphrase {
        None => Ok(encode_plain(payload)),
        Some(_) => {
            let salt = match fresh_salt() {
                Ok(s) => s,
                Err(e) => return Err(e),
            };
            let nonce = match fresh_nonce() {
                Ok(n) => n,
                Err(e) => return Err(e),
            };
            let r = encode_with(payload, passphrase, salt.as_slice(), nonce.as_slice());
            assert(encode_outcome(payload@, passphrase_bytes(passphrase), salt@, nonce@, r));
            r
        },
    }
}

/// Reads a container: the payload of a plain one whatever the passphrase, the
/// opened payload of a sealed one, `Ok(None)` for a buffer with no known tag.
pub fn decode(data: &[u8], passphrase: Option<&str>) -> (r: Result<Option<Vec<u8>>, StoreError>)
    ensures
        decode_outcome(data@, passphrase_bytes(passphrase), r),
{
    match parse(data) {
        Layout::Unrecognized => Ok(None),
        Layout::Plain { payload } => Ok(Some(payload)),
        Layout::Truncated => Err(StoreError::Format),
        Layout::Sealed { salt, nonce, body } => {
            match passphrase {
                None => Err(StoreError::MissingKey),
                Some(pass) => {
                    let key = match derive_key(pass, salt.as_slice()) {
                        Ok(k) => k,
                        Err(e) => return Err(e),
                    };
                    match open(&key, nonce.as_slice(), body.as_slice()) {
                        Ok(p) => Ok(Some(p)),
                        Err(e) => Err(e),
                    }
                },
            }
        },
    }
}

/// What `open_store` returns: a missing file holds no store, and the bytes of
/// an existing file are decoded.
pub open spec fn load_outcome(
    contents: Option<Seq<u8>>,
    password: Option<Seq<u8>>,
    r: Result<Option<Vec<u8>>, StoreError>,
) -> bool {
    match contents {
        None => r matches Ok(None),
        Some(data) => decode_outcome(data, password, r),
    }
}

/// The payload held by a store file, given its contents, or `None` where the
/// file does not exist.
pub fn open_store(contents: Option<&[u8]>, passphrase: Option<&str>) -> (r: Result<
    Option<Vec<u8>>,
    StoreError,
>)
    ensures
        load_outcome(
            match contents {
                Some(c) => Some(c@),
                None => None,
            },
            passphrase_bytes(passphrase),
            r,
        ),
{
    match contents {
        None => Ok(None),
        Some(data) => decode(data, passphrase),
    }
}

proof fn lemma_sealed_container_parts(salt: Seq<u8>, nonce: Seq<u8>, body: Seq<u8>)
    requires
        salt.len() == SALT_LEN,
        nonce.len() == NONCE_LEN,
    ensures
        ({
            let c = sealed_container(salt, nonce, body);
            &&& starts_with_tag(c, sealed_tag())
            &&& !starts_with_tag(c, plain_tag())
            &&& c.len() == BODY_OFFSET + body.len()
            &&& salt_of(c) == salt
            &&& nonce_of(c) == nonce
            &&& body_of(c) == body
        }),
{
    let c = sealed_container(salt, nonce, body);
    assert(c.subrange(0, TAG_LEN as int) =~= sealed_tag());
    assert(salt_of(c) =~= salt);
    assert(nonce_of(c) =~= nonce);
    assert(body_of(c) =~= body);
    assert(c.subrange(0, TAG_LEN as int)[3] != plain_tag()[3]);
}

/// Decoding a container that `encode_with` produced, under the passphrase it
/// was encoded with, gives back the payload.
pub proof fn decode_inverts_encode(
    payload: Seq<u8>,
    password: Option<Seq<u8>>,
    salt: Seq<u8>,
    nonce: Seq<u8>,
    container: Vec<u8>,
    r: Result<Option<Vec<u8>>, StoreError>,
)
    requires
        salt.len() == SALT_LEN,
        nonce.len() == NONCE_LEN,
        encode_outcome(payload, password, salt, nonce, Ok(container)),
        decode_outcome(container@, password, r),
    ensures
        r matches Ok(Some(p)) && p@ == payload,
{
    match password {
        None => {
            let c = container@;
            assert(c.subrange(0, TAG_LEN as int) =~= plain_tag());
            assert(c.subrange(TAG_LEN as int, c.len() as int) =~= payload);
        },
        Some(pw) => {
            let body = chacha20poly1305_seal(derived_key(pw, salt), nonce, payload);
            lemma_sealed_container_parts(salt, nonce, body);
            assert(chacha20poly1305_seal(derived_key(pw, salt_of(container@)), nonce_of(container@), payload) == body_of(container@));
        },
    }
}

/// Decoding a container that `encode` produced, under the passphrase it was
/// encoded with, gives back the payload, whatever salt and nonce were drawn.
pub proof fn decode_inverts_fresh_encode(
    payload: Seq<u8>,
    password: Option<Seq<u8>>,
    container: Vec<u8>,
    r: Result<Option<Vec<u8>>, StoreError>,
)
    requires
        fresh_encode_outcome(payload, password, Ok(container)),
        decode_outcome(container@, password, r),
    ensures
        r matches Ok(Some(p)) && p@ == payload,
{
    match password {
        None => {
            decode_inverts_encode(payload, password, seq![0u8; 16], seq![0u8; 12], container, r);
        },
        Some(pw) => {
            let (salt, nonce) = choose|salt: Seq<u8>, nonce: Seq<u8>|
                salt.len() == SALT_LEN && nonce.len() == NONCE_LEN && #[trigger] encode_outcome(
                    payload,
                    password,
                    salt,
                    nonce,
                    Ok(container),
                );
            decode_inverts_encode(payload, password, salt, nonce, container, r);
        },
    }
}

/// A plain container decodes to the same payload whatever passphrase, or none,
/// is given.
pub proof fn plain_decode_ignores_passphrase(
    payload: Seq<u8>,
    first: Option<Seq<u8>>,
    second: Option<Seq<u8>>,
    r1: Result<Option<Vec<u8>>, StoreError>,
    r2: Result<Option<Vec<u8>>, StoreError>,
)
    requires
        decode_outcome(plain_container(payload), first, r1),
        decode_outcome(plain_container(payload), second, r2),
    ensures
        r1 matches Ok(Some(a)) && a@ == payload,
        r2 matches Ok(Some(b)) && b@ == payload,
{
    let c = plain_container(payload);
    assert(c.subrange(0, TAG_LEN as int) =~= plain_tag());
    assert(c.subrange(TAG_LEN as int, c.len() as int) =~= payload);
}

/// Changing any byte after the header of a sealed container that `encode_with`
/// produced never yields the encoded payload: decoding under the same
/// passphrase either fails with `Auth` or returns the plaintext whose sealing
/// is exactly the altered body.
pub proof fn altered_body_never_yields_payload(
    payload: Seq<u8>,
    pw: Seq<u8>,
    salt: Seq<u8>,
    nonce: Seq<u8>,
    container: Vec<u8>,
    altered: Seq<u8>,
    i: int,
    r: Result<Option<Vec<u8>>, StoreError>,
)
    requires
        salt.len() == SALT_LEN,
        nonce.len() == NONCE_LEN,
        encode_outcome(payload, Some(pw), salt, nonce, Ok(container)),
        BODY_OFFSET <= i < container@.len(),
        altered == container@.update(i, altered[i]),
        altered[i] != container@[i],
        decode_outcome(altered, Some(pw), r),
    ensures
        r == Err::<Option<Vec<u8>>, StoreError>(StoreError::Auth) || (r matches Ok(Some(p)) && p@
            != payload && chacha20poly1305_seal(derived_key(pw, salt), nonce, p@) == body_of(
            altered,
        )),
{
    let key = derived_key(pw, salt);
    let body = chacha20poly1305_seal(key, nonce, payload);
    lemma_sealed_container_parts(salt, nonce, body);
    let c = container@;
    assert(altered.subrange(0, TAG_LEN as int) =~= c.subrange(0, TAG_LEN as int));
    assert(salt_of(altered) =~= salt_of(c));
    assert(nonce_of(altered) =~= nonce_of(c));
    assert(body_of(altered)[i - BODY_OFFSET] != body_of(c)[i - BODY_OFFSET]);
    assert(body_of(altered) != body);
}

/// A store file that does not exist holds no records, whatever the passphrase.
pub proof fn missing_file_is_empty_store(
    password: Option<Seq<u8>>,
    r: Result<Option<Vec<u8>>, StoreError>,
)
    requires
        load_outcome(None, password, r),
    ensures
        r matches Ok(None),
{
}

} // verus!
