use base64::Engine;
use cbc::cipher::{BlockEncryptMut, KeyIvInit};
use sha2::Digest;
use trae_manager::auth_crypto::{
    decrypt_auth_bytes, decrypt_solo_cn_auth_info, encrypt_solo_cn_auth_info, open_solo_cn_auth_info,
    pkcs7_pad_in_place, seal_with_key, AuthCryptoError, JQ, WQ,
};

fn b64(bytes: &[u8]) -> String {
    base64::engine::general_purpose::STANDARD.encode(bytes)
}

fn key_iv(embedded_key: &[u8]) -> (Vec<u8>, Vec<u8>) {
    let o = sha2::Sha512::digest(embedded_key);
    let mut n = o.to_vec();
    for i in 0..64 {
        n.push(JQ[i] ^ WQ[i]);
    }
    let c = sha2::Sha512::digest(&n);
    (c[0..16].to_vec(), c[16..32].to_vec())
}

/// Sealed bytes whose decrypted body is exactly `padded` (no padding added here).
fn raw_with_body(padded: &[u8]) -> Vec<u8> {
    let ek = [7u8; 32];
    let (key, iv) = key_iv(&ek);
    let ct = cbc::Encryptor::<aes::Aes128>::new(key.as_slice().into(), iv.as_slice().into())
        .encrypt_padded_vec_mut::<aes::cipher::block_padding::NoPadding>(padded);
    let mut raw = vec![b't', b'c', 5, 0x10, 0, 0];
    raw.extend_from_slice(&ek);
    raw.extend_from_slice(&ct);
    raw
}

#[test]
fn test_encrypt_decrypt_roundtrip() {
    let plaintext = r#"{"token":"abc123","userId":"u-123","email":"test@example.com"}"#;
    let encrypted = encrypt_solo_cn_auth_info(plaintext).expect("加密失败");
    let raw = base64::engine::general_purpose::STANDARD
        .decode(&encrypted)
        .expect("Base64 解码失败");
    assert_eq!(&raw[0..2], b"tc", "加密数据头部魔数不正确");
    assert_eq!(raw[2], 5, "版本号不正确");
    let decrypted = decrypt_solo_cn_auth_info(&encrypted).expect("解密失败");
    assert_eq!(plaintext, decrypted, "加密-解密往返数据不一致");
}

#[test]
fn test_encrypt_produces_different_ciphertext() {
    let plaintext = r#"{"token":"abc"}"#;
    let enc1 = encrypt_solo_cn_auth_info(plaintext).expect("加密失败");
    let enc2 = encrypt_solo_cn_auth_info(plaintext).expect("加密失败");
    assert_ne!(enc1, enc2, "两次加密应产生不同密文（随机 embedded_key）");
    assert_eq!(plaintext, decrypt_solo_cn_auth_info(&enc1).unwrap());
    assert_eq!(plaintext, decrypt_solo_cn_auth_info(&enc2).unwrap());
}

#[test]
fn seal_with_fixed_key_is_deterministic_and_opens() {
    let key = [3u8; 32];
    let a = seal_with_key("hello 世界", &key);
    let b = seal_with_key("hello 世界", &key);
    assert_eq!(a, b);
    assert_eq!(open_solo_cn_auth_info(&a), Ok("hello 世界".to_string()));
    let raw = base64::engine::general_purpose::STANDARD.decode(&a).unwrap();
    assert_eq!(&raw[0..6], &[b't', b'c', 5, 0x10, 0, 0]);
    assert_eq!(&raw[6..38], &key);
    // header, key, then SHA-512 (64) + plaintext (12 bytes) padded to 80
    assert_eq!(raw.len(), 38 + 80);
}

#[test]
fn empty_plaintext_roundtrips() {
    let enc = encrypt_solo_cn_auth_info("").unwrap();
    assert_eq!(decrypt_solo_cn_auth_info(&enc), Ok(String::new()));
}

#[test]
fn pkcs7_padding_fills_to_block() {
    let mut v = vec![1u8, 2, 3];
    pkcs7_pad_in_place(&mut v);
    assert_eq!(v.len(), 16);
    assert!(v[3..].iter().all(|&b| b == 13));
    let mut w = vec![0u8; 16];
    pkcs7_pad_in_place(&mut w);
    assert_eq!(w.len(), 32);
    assert!(w[16..].iter().all(|&b| b == 16));
}

#[test]
fn decrypt_rejects_bad_base64() {
    assert_eq!(decrypt_solo_cn_auth_info("not base64!!"), Err(AuthCryptoError::Base64));
}

#[test]
fn decrypt_rejects_short_data() {
    let text = b64(&[b't', b'c', 5]);
    assert_eq!(decrypt_solo_cn_auth_info(&text), Err(AuthCryptoError::TooShort(3)));
}

#[test]
fn decrypt_rejects_bad_magic() {
    let mut raw = vec![0u8; 54];
    raw[0] = b'x';
    raw[1] = b'c';
    raw[2] = 5;
    assert_eq!(decrypt_auth_bytes(&raw), Err(AuthCryptoError::BadMagic));
}

#[test]
fn decrypt_rejects_bad_version() {
    let mut raw = vec![0u8; 54];
    raw[0] = b't';
    raw[1] = b'c';
    raw[2] = 4;
    assert_eq!(decrypt_auth_bytes(&raw), Err(AuthCryptoError::BadVersion(4)));
}

#[test]
fn open_reports_partial_block() {
    let mut raw = vec![0u8; 55];
    raw[0] = b't';
    raw[1] = b'c';
    raw[2] = 5;
    assert_eq!(open_solo_cn_auth_info(&b64(&raw)), Err(AuthCryptoError::CiphertextLength));
}

#[test]
fn decrypt_rejects_bad_padding_byte() {
    let mut body = vec![0u8; 16];
    body[15] = 0;
    let raw = raw_with_body(&body);
    assert_eq!(decrypt_auth_bytes(&raw), Err(AuthCryptoError::BadPadding(0)));
    body[15] = 17;
    let raw = raw_with_body(&body);
    assert_eq!(decrypt_auth_bytes(&raw), Err(AuthCryptoError::BadPadding(17)));
}

#[test]
fn decrypt_rejects_padding_mismatch() {
    let mut body = vec![0u8; 16];
    body[15] = 2;
    body[14] = 9;
    let raw = raw_with_body(&body);
    assert_eq!(decrypt_auth_bytes(&raw), Err(AuthCryptoError::PaddingMismatch));
}

#[test]
fn decrypt_rejects_short_body() {
    let mut body = vec![0u8; 16];
    body[15] = 1;
    let raw = raw_with_body(&body);
    assert_eq!(decrypt_auth_bytes(&raw), Err(AuthCryptoError::DecryptedTooShort(15)));
}

#[test]
fn decrypt_rejects_digest_mismatch() {
    let mut body = vec![0u8; 64];
    body.extend_from_slice(b"plain");
    let mut padded = body.clone();
    let pad = 16 - padded.len() % 16;
    padded.extend(std::iter::repeat(pad as u8).take(pad));
    let raw = raw_with_body(&padded);
    assert_eq!(decrypt_auth_bytes(&raw), Err(AuthCryptoError::HmacMismatch));
}

#[test]
fn decrypt_rejects_non_utf8() {
    let plain = [0xffu8, 0xfe];
    let mut body = sha2::Sha512::digest(plain).to_vec();
    body.extend_from_slice(&plain);
    let pad = 16 - body.len() % 16;
    body.extend(std::iter::repeat(pad as u8).take(pad));
    let raw = raw_with_body(&body);
    assert_eq!(decrypt_auth_bytes(&raw), Err(AuthCryptoError::Utf8));
}

#[test]
fn decrypt_accepts_hand_sealed_record() {
    let plain = b"{\"token\":\"t\"}";
    let mut body = sha2::Sha512::digest(plain).to_vec();
    body.extend_from_slice(plain);
    let pad = 16 - body.len() % 16;
    body.extend(std::iter::repeat(pad as u8).take(pad));
    let raw = raw_with_body(&body);
    assert_eq!(decrypt_auth_bytes(&raw), Ok("{\"token\":\"t\"}".to_string()));
    assert_eq!(decrypt_solo_cn_auth_info(&b64(&raw)), Ok("{\"token\":\"t\"}".to_string()));
}

#[test]
fn sealed_text_layout() {
    let p = r#"{"token":"abc"}"#;
    let s = encrypt_solo_cn_auth_info(p).unwrap();
    assert_eq!(s.len(), 160);
    let d = base64::engine::general_purpose::STANDARD.decode(&s).unwrap();
    assert_eq!(d.len(), 118);
    assert_eq!(d.len(), 38 + 16 * ((64 + p.len()) / 16 + 1));
    assert_eq!(&d[0..6], &[b't', b'c', 5, 0x10, 0, 0]);
}
