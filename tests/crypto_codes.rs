use lantransfer::crypto::{
    generate_secure_code, secure_code_from, EncryptedFileHeader, FileEncryption,
};
use std::collections::HashMap;

#[test]
fn secure_code_shape() {
    for _ in 0..1000 {
        let c = generate_secure_code();
        assert_eq!(c.chars().count(), 6);
        assert!(c.chars().all(|ch| ch.is_ascii_uppercase() || ch.is_ascii_digit()));
    }
}

#[test]
fn secure_codes_spread_out() {
    let mut seen: HashMap<String, u32> = HashMap::new();
    for _ in 0..10_000 {
        *seen.entry(generate_secure_code()).or_insert(0) += 1;
    }
    let most = seen.values().copied().max().unwrap();
    assert!(most <= 3, "a code repeated {} times", most);
    assert!(seen.len() > 9_900);
}

#[test]
fn secure_code_from_upper_cases_letters() {
    assert_eq!(secure_code_from(&b"aZ09qx".to_vec()), "AZ09QX");
    assert_eq!(secure_code_from(&Vec::new()), "");
}

#[test]
fn encrypt_then_decrypt_gives_plaintext_back() {
    let mut enc = FileEncryption::new("hunter2");
    assert_eq!(enc.get_nonce().len(), 12);
    let msg = b"hello, local network".to_vec();
    let sealed = enc.encrypt_chunk(&msg).unwrap();
    assert_eq!(sealed.len(), msg.len() + 16);
    assert_ne!(&sealed[..msg.len()], &msg[..]);
    assert_eq!(enc.next_chunk_index(), 1);
    let mut dec = FileEncryption::from_key_and_nonce("hunter2", enc.get_nonce().to_vec());
    assert_eq!(dec.decrypt_chunk(&sealed).unwrap(), msg);
    assert_eq!(dec.next_chunk_index(), 1);
}

#[test]
fn successive_chunks_use_different_nonces() {
    let mut enc = FileEncryption::from_key_and_nonce("pw", vec![9u8; 12]);
    let a = enc.encrypt_chunk(b"same bytes").unwrap();
    let b = enc.encrypt_chunk(b"same bytes").unwrap();
    assert_ne!(a, b);
    assert_eq!(enc.encrypt_chunk_at(0, b"same bytes").unwrap(), a);
    assert_eq!(enc.encrypt_chunk_at(1, b"same bytes").unwrap(), b);
    let mut dec = FileEncryption::from_key_and_nonce("pw", vec![9u8; 12]);
    assert!(dec.decrypt_chunk(&b).is_err());
    assert_eq!(dec.next_chunk_index(), 0);
    assert_eq!(dec.decrypt_chunk(&a).unwrap(), b"same bytes".to_vec());
    assert_eq!(dec.decrypt_chunk(&b).unwrap(), b"same bytes".to_vec());
    assert_eq!(dec.next_chunk_index(), 2);
}

#[test]
fn tampered_or_wrong_key_fails_to_decrypt() {
    let mut enc = FileEncryption::new("pw");
    let nonce = enc.get_nonce().to_vec();
    let mut sealed = enc.encrypt_chunk(b"data").unwrap();
    sealed[0] ^= 1;
    let mut dec = FileEncryption::from_key_and_nonce("pw", nonce.clone());
    assert!(dec.decrypt_chunk(&sealed).is_err());
    sealed[0] ^= 1;
    let mut other = FileEncryption::from_key_and_nonce("other", nonce);
    assert!(other.decrypt_chunk(&sealed).is_err());
    assert!(dec.decrypt_chunk(&[1, 2, 3]).is_err());
    assert_eq!(dec.decrypt_chunk(&sealed).unwrap(), b"data".to_vec());
}

#[test]
fn bad_nonce_length_is_an_error() {
    let mut enc = FileEncryption::from_key_and_nonce("pw", vec![0u8; 5]);
    assert!(enc.encrypt_chunk(b"x").is_err());
    assert!(enc.decrypt_chunk(&[0u8; 32]).is_err());
    assert_eq!(enc.next_chunk_index(), 0);
}

#[test]
fn same_password_and_nonce_give_same_ciphertext() {
    let mut a = FileEncryption::from_key_and_nonce("pw", vec![7u8; 12]);
    let mut b = FileEncryption::from_key_and_nonce("pw", vec![7u8; 12]);
    assert_eq!(a.encrypt_chunk(b"abc").unwrap(), b.encrypt_chunk(b"abc").unwrap());
    let mut c = FileEncryption::from_key_and_nonce("pw2", vec![7u8; 12]);
    let mut d = FileEncryption::from_key_and_nonce("pw", vec![7u8; 12]);
    assert_ne!(d.encrypt_chunk(b"abc").unwrap(), c.encrypt_chunk(b"abc").unwrap());
}

#[test]
fn header_carries_nonce_and_sizes() {
    let enc = FileEncryption::from_key_and_nonce("pw", vec![1, 2, 3, 4, 5, 6, 7, 8, 9, 10, 11, 12]);
    let h = EncryptedFileHeader::for_stream(&enc, 4096, 8192);
    assert_eq!(h.original_size, 4096);
    assert_eq!(h.chunk_size, 8192);
    assert_eq!(h.nonce, vec![1, 2, 3, 4, 5, 6, 7, 8, 9, 10, 11, 12]);
}

#[test]
fn chunks_of_one_stream_get_their_own_nonce() {
    let enc = FileEncryption::new("pw");
    let a = enc.encrypt_chunk_at(0, b"same bytes").unwrap();
    let b = enc.encrypt_chunk_at(1, b"same bytes").unwrap();
    assert_ne!(a, b);
    assert_eq!(a.len(), 10 + 16);
    let dec = FileEncryption::from_key_and_nonce("pw", enc.get_nonce().to_vec());
    assert_eq!(dec.decrypt_chunk_at(1, &b).unwrap(), b"same bytes".to_vec());
    assert!(dec.decrypt_chunk_at(0, &b).is_err());
    let bad = FileEncryption::from_key_and_nonce("pw", vec![1, 2, 3]);
    assert!(bad.encrypt_chunk_at(0, b"x").is_err());
}
