use revaultpass::codec::{decode, encode, encode_with, open_store};
use revaultpass::crypto::{derive_key, open, random_bytes, seal};
use revaultpass::error::StoreError;
use revaultpass::format::{assemble_sealed, encode_plain, parse, Layout};

fn payload() -> Vec<u8> {
    br#"[{"name":"git","user":"bob","password":"s3cr3t"}]"#.to_vec()
}

#[test]
fn plain_round_trip() {
    let c = encode(&payload(), None).unwrap();
    assert_eq!(&c[0..4], b"RVP0");
    assert_eq!(&c[4..], &payload()[..]);
    assert_eq!(decode(&c, None).unwrap(), Some(payload()));
}

#[test]
fn sealed_round_trip() {
    let c = encode(&payload(), Some("pass")).unwrap();
    assert_eq!(&c[0..4], b"RVP1");
    assert_eq!(c.len(), 4 + 16 + 12 + payload().len() + 16);
    assert_eq!(decode(&c, Some("pass")).unwrap(), Some(payload()));
}

#[test]
fn sealed_round_trip_empty_payload() {
    let c = encode(b"", Some("pass")).unwrap();
    assert_eq!(c.len(), 48);
    assert_eq!(decode(&c, Some("pass")).unwrap(), Some(Vec::new()));
}

#[test]
fn encode_with_fixed_salt_and_nonce_is_laid_out() {
    let salt = [7u8; 16];
    let nonce = [9u8; 12];
    let c = encode_with(b"abc", Some("pw"), &salt, &nonce).unwrap();
    assert_eq!(&c[0..4], b"RVP1");
    assert_eq!(&c[4..20], &salt[..]);
    assert_eq!(&c[20..32], &nonce[..]);
    assert_eq!(c.len(), 32 + 3 + 16);
    assert_ne!(&c[32..35], b"abc");
    assert_eq!(decode(&c, Some("pw")).unwrap(), Some(b"abc".to_vec()));
}

#[test]
fn derive_key_is_deterministic_for_equal_inputs() {
    let salt = [1u8; 16];
    let a = derive_key("pass", &salt).unwrap();
    let b = derive_key("pass", &salt).unwrap();
    assert_eq!(a, b);
}

#[test]
fn derive_key_differs_with_salt() {
    let a = derive_key("pass", &[1u8; 16]).unwrap();
    let b = derive_key("pass", &[2u8; 16]).unwrap();
    assert_ne!(a, b);
    assert_ne!(&a[..16], &[1u8; 16][..]);
}

#[test]
fn derive_key_rejects_short_salt() {
    assert_eq!(derive_key("pass", &[0u8; 4]), Err(StoreError::Kdf));
}

#[test]
fn derive_key_rejects_salt_of_other_length() {
    assert_eq!(derive_key("pass", &[0u8; 10]), Err(StoreError::Kdf));
    assert_eq!(derive_key("pass", &[0u8; 17]), Err(StoreError::Kdf));
}

#[test]
fn tampered_body_is_rejected() {
    let mut c = encode(&payload(), Some("pass")).unwrap();
    c[32] ^= 0x01;
    assert_eq!(decode(&c, Some("pass")), Err(StoreError::Auth));
}

#[test]
fn tampered_tag_is_rejected() {
    let mut c = encode(&payload(), Some("pass")).unwrap();
    let last = c.len() - 1;
    c[last] ^= 0x80;
    assert_eq!(decode(&c, Some("pass")), Err(StoreError::Auth));
}

#[test]
fn every_flipped_bit_fails_to_open() {
    let key = [3u8; 32];
    let nonce = [4u8; 12];
    let sealed = seal(&key, &nonce, b"hello").unwrap();
    assert_eq!(sealed.len(), 5 + 16);
    assert_ne!(&sealed[..5], b"hello");
    assert_eq!(open(&key, &nonce, &sealed), Ok(b"hello".to_vec()));
    for i in 0..sealed.len() {
        for bit in 0..8 {
            let mut t = sealed.clone();
            t[i] ^= 1 << bit;
            assert_eq!(open(&key, &nonce, &t), Err(StoreError::Auth));
        }
    }
}

#[test]
fn open_with_other_key_fails() {
    let sealed = seal(&[3u8; 32], &[4u8; 12], b"hello").unwrap();
    assert_eq!(open(&[5u8; 32], &[4u8; 12], &sealed), Err(StoreError::Auth));
}

#[test]
fn wrong_passphrase_is_rejected() {
    let c = encode(&payload(), Some("correct")).unwrap();
    assert_eq!(decode(&c, Some("wrong")), Err(StoreError::Auth));
}

#[test]
fn missing_file_is_empty() {
    assert_eq!(open_store(None, None), Ok(None));
    assert_eq!(open_store(None, Some("pass")), Ok(None));
}

#[test]
fn plain_container_ignores_passphrase() {
    let c = encode(&payload(), None).unwrap();
    let expected = Some(payload());
    assert_eq!(decode(&c, None).unwrap(), expected);
    assert_eq!(decode(&c, Some("")).unwrap(), expected);
    assert_eq!(decode(&c, Some("anything")).unwrap(), expected);
}

#[test]
fn successive_encodes_differ() {
    let a = encode(&payload(), Some("pass")).unwrap();
    let b = encode(&payload(), Some("pass")).unwrap();
    assert_ne!(a, b);
    assert_ne!(&a[4..20], &b[4..20]);
    assert_ne!(&a[20..32], &b[20..32]);
}

#[test]
fn fresh_encodes_both_decode() {
    let a = encode(&payload(), Some("pass")).unwrap();
    let b = encode(&payload(), Some("pass")).unwrap();
    assert_eq!(decode(&a, Some("pass")).unwrap(), Some(payload()));
    assert_eq!(decode(&b, Some("pass")).unwrap(), Some(payload()));
}

#[test]
fn empty_store_saved_plain_loads_empty() {
    let c = encode(b"[]", None).unwrap();
    assert_eq!(open_store(Some(&c), None), Ok(Some(b"[]".to_vec())));
}

#[test]
fn sealed_store_loads_with_its_passphrase() {
    let c = encode(&payload(), Some("hunter2")).unwrap();
    assert_eq!(open_store(Some(&c), Some("hunter2")), Ok(Some(payload())));
}

#[test]
fn sealed_store_refuses_other_passphrase() {
    let c = encode(&payload(), Some("hunter2")).unwrap();
    assert_eq!(open_store(Some(&c), Some("wrong")), Err(StoreError::Auth));
}

#[test]
fn ten_byte_sealed_container_is_too_short() {
    let mut c = b"RVP1".to_vec();
    c.extend_from_slice(&[0u8; 6]);
    assert_eq!(c.len(), 10);
    assert_eq!(decode(&c, None), Err(StoreError::Format));
    assert_eq!(decode(&c, Some("pass")), Err(StoreError::Format));
}

#[test]
fn sealed_of_47_bytes_is_too_short() {
    let mut c = b"RVP1".to_vec();
    c.extend_from_slice(&[0u8; 43]);
    assert_eq!(decode(&c, Some("pass")), Err(StoreError::Format));
}

#[test]
fn sealed_without_passphrase_is_missing_key() {
    let c = assemble_sealed(&[0u8; 16], &[0u8; 12], &[0u8; 16]);
    assert_eq!(c.len(), 48);
    assert_eq!(decode(&c, None), Err(StoreError::MissingKey));
}

#[test]
fn unknown_tag_or_short_buffer_holds_no_store() {
    assert_eq!(decode(b"", None), Ok(None));
    assert_eq!(decode(b"RVP", Some("x")), Ok(None));
    assert_eq!(decode(b"XXXXpayload", None), Ok(None));
    assert_eq!(decode(b"RVP2[]", Some("x")), Ok(None));
}

#[test]
fn short_plain_container_decodes() {
    assert_eq!(decode(b"RVP0", None), Ok(Some(Vec::new())));
    assert_eq!(decode(b"RVP0123456", Some("p")), Ok(Some(b"123456".to_vec())));
}

#[test]
fn parse_cuts_sealed_fields() {
    let c = assemble_sealed(&[1u8; 16], &[2u8; 12], &[3u8; 20]);
    match parse(&c) {
        Layout::Sealed { salt, nonce, body } => {
            assert_eq!(salt, vec![1u8; 16]);
            assert_eq!(nonce, vec![2u8; 12]);
            assert_eq!(body, vec![3u8; 20]);
        }
        _ => panic!("expected a sealed layout"),
    }
    assert!(matches!(parse(&encode_plain(b"x")), Layout::Plain { .. }));
    assert!(matches!(parse(b"RVP1"), Layout::Truncated));
    assert!(matches!(parse(b"ab"), Layout::Unrecognized));
}

#[test]
fn random_bytes_have_length_and_vary() {
    let a = random_bytes(32).unwrap();
    let b = random_bytes(32).unwrap();
    assert_eq!(a.len(), 32);
    assert_ne!(a, b);
    assert_eq!(random_bytes(0).unwrap().len(), 0);
}

#[test]
fn error_messages_are_distinct() {
    assert_eq!(StoreError::Auth.message(), "wrong passphrase or corrupted data");
    assert_ne!(StoreError::Format.message(), StoreError::MissingKey.message());
}
