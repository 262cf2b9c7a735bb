//! The sealed form of the login record (`iCubeAuthInfo`) that TRAE Work CN keeps in
//! `storage.json`.
//!
//! Layout of the Base64-decoded bytes: the header `"tc"`, version 5 and three reserved
//! bytes (`0x10 0x00 0x00`), then a 32-byte embedded key, then the AES-128-CBC
//! ciphertext of `SHA512(plaintext) || plaintext`, PKCS#7-padded. The AES key and IV
//! are the first and second 16 bytes of `SHA512(SHA512(embedded_key) || (JQ xor WQ))`.
use vstd::prelude::*;
use vstd::utf8::*;
use vstd::slice::slice_subrange;
use vstd::string::StringSliceAdditionalSpecFns;
use vstd::slice::slice_to_vec;
use crate::outside::{
    aes128_cbc_decrypt, aes128_cbc_decrypt_blocks, aes128_cbc_encrypt, aes128_cbc_encrypt_blocks,
    base64_decode, base64_decode_spec, base64_encode, base64_encode_spec, random_32_bytes, sha512,
    sha512_digest, utf8_to_string,
};

verus! {

broadcast use vstd::utf8::encode_utf8_valid_utf8, vstd::utf8::encode_utf8_decode_utf8;

/// First byte of the header (`'t'`).
pub const HEADER_MAGIC_T: u8 = 116;
/// Second byte of the header (`'c'`).
pub const HEADER_MAGIC_C: u8 = 99;
/// The format version this library reads and writes.
pub const HEADER_VERSION: u8 = 5;
/// Header length: magic (2), version (1), reserved (3).
pub const HEADER_SIZE: usize = 6;
/// Length of the embedded key that follows the header.
pub const EMBEDDED_KEY_SIZE: usize = 32;
/// Length of the SHA-512 digest placed before the plaintext.
pub const HMAC_SIZE: usize = 64;

/// First half of the fixed key constant of the format.
pub const JQ: [u8; 64] = [
    82, 9, 106, 213, 48, 54, 165, 56, 191, 64, 163, 158, 129, 243, 215, 251,
    124, 227, 57, 130, 155, 47, 255, 135, 52, 142, 67, 68, 196, 222, 233, 203,
    84, 123, 148, 50, 166, 194, 35, 61, 238, 76, 149, 11, 66, 250, 195, 78,
    8, 46, 161, 102, 40, 217, 36, 178, 118, 91, 162, 73, 109, 139, 209, 37,
];

/// Second half of the fixed key constant of the format.
pub const WQ: [u8; 64] = [
    31, 221, 168, 51, 136, 7, 199, 49, 177, 18, 16, 89, 39, 128, 236, 95,
    96, 81, 127, 169, 25, 181, 74, 13, 45, 229, 122, 159, 147, 201, 156, 239,
    160, 224, 59, 77, 174, 42, 245, 176, 200, 235, 187, 60, 131, 83, 153, 97,
    23, 43, 4, 126, 186, 119, 214, 38, 225, 105, 20, 99, 85, 33, 12, 125,
];

/// Why a sealed login record could not be opened.
#[derive(Debug, Clone, Copy, PartialEq, Eq)]
pub enum AuthCryptoError {
    /// The text is not valid Base64.
    Base64,
    /// The decoded data is shorter than header, key and one block (the length is given).
    TooShort(usize),
    /// The first two bytes are not `"tc"`.
    BadMagic,
    /// The version byte is not 5 (the byte is given).
    BadVersion(u8),
    /// The ciphertext is not a whole number of 16-byte blocks (the block cipher cannot
    /// take it).
    CiphertextLength,
    /// The last plaintext byte is not a PKCS#7 pad length in 1..=16 (it is given).
    BadPadding(u8),
    /// The pad bytes do not all equal the pad length.
    PaddingMismatch,
    /// After unpadding, fewer bytes than a digest remain (the count is given).
    DecryptedTooShort(usize),
    /// The digest in front does not match the SHA-512 of the plaintext.
    HmacMismatch,
    /// The plaintext is not UTF-8.
    Utf8,
}

/// The 64-byte constant `JQ xor WQ`.
pub open spec fn aes_constant() -> Seq<u8> {
    Seq::new(64, |i: int| JQ@[i] ^ WQ@[i])
}

/// `SHA512(SHA512(embedded_key) || aes_constant())`: key and IV are read from it.
pub open spec fn derived_material(embedded_key: Seq<u8>) -> Seq<u8> {
    sha512_digest(sha512_digest(embedded_key) + aes_constant())
}

/// The AES-128 key derived from an embedded key.
pub open spec fn derived_key(embedded_key: Seq<u8>) -> Seq<u8> {
    derived_material(embedded_key).subrange(0, 16)
}

/// The CBC IV derived from an embedded key.
pub open spec fn derived_iv(embedded_key: Seq<u8>) -> Seq<u8> {
    derived_material(embedded_key).subrange(16, 32)
}

/// The number of PKCS#7 pad bytes appended to `n` bytes of data: 1 to 16.
pub open spec fn pad_count(n: nat) -> nat {
    (16 - n % 16) as nat
}

/// PKCS#7 padding to a multiple of 16 bytes: every pad byte holds the pad length.
pub open spec fn pkcs7_pad(data: Seq<u8>) -> Seq<u8> {
    data + Seq::new(pad_count(data.len()), |i: int| pad_count(data.len()) as u8)
}

/// The six header bytes that the sealer writes.
pub open spec fn sealed_header() -> Seq<u8> {
    seq![HEADER_MAGIC_T, HEADER_MAGIC_C, HEADER_VERSION, 16u8, 0u8, 0u8]
}

/// The sealed bytes of a plaintext under an embedded key.
pub open spec fn sealed_bytes(plain: Seq<u8>, embedded_key: Seq<u8>) -> Seq<u8> {
    sealed_header() + embedded_key + aes128_cbc_encrypt(
        derived_key(embedded_key),
        derived_iv(embedded_key),
        pkcs7_pad(sha512_digest(plain) + plain),
    )
}

/// Whether sealed bytes of a plaintext of `n` bytes start with the sealer's header and
/// are as long as header, key, and digest plus plaintext padded to whole blocks.
pub open spec fn sealed_length(raw: Seq<u8>, n: nat) -> bool {
    &&& raw.len() == 38 + 16 * ((64 + n) / 16 + 1)
    &&& raw.subrange(0, 6) == sealed_header()
}

/// The sealed text (Base64) of a plaintext string under an embedded key.
pub open spec fn sealed_text(plain: Seq<char>, embedded_key: Seq<u8>) -> Seq<char> {
    base64_encode_spec(sealed_bytes(encode_utf8(plain), embedded_key))
}

/// Whether the last `pad` bytes of `padded` all equal `pad`.
pub open spec fn pad_bytes_ok(padded: Seq<u8>, pad: u8) -> bool {
    forall|i: int| 0 <= i < pad ==> #[trigger] padded[padded.len() - 1 - i] == pad
}

/// What opening the decoded bytes of a sealed record gives.
pub open spec fn open_bytes(raw: Seq<u8>) -> Result<Seq<char>, AuthCryptoError> {
    if raw.len() < 54 {
        Err(AuthCryptoError::TooShort(raw.len() as usize))
    } else if raw[0] != HEADER_MAGIC_T || raw[1] != HEADER_MAGIC_C {
        Err(AuthCryptoError::BadMagic)
    } else if raw[2] != HEADER_VERSION {
        Err(AuthCryptoError::BadVersion(raw[2]))
    } else {
        let ek = raw.subrange(6, 38);
        let ct = raw.subrange(38, raw.len() as int);
        if ct.len() % 16 != 0 {
            Err(AuthCryptoError::CiphertextLength)
        } else {
            let padded = aes128_cbc_decrypt(derived_key(ek), derived_iv(ek), ct);
            let pad = padded.last();
            if pad == 0 || pad > 16 {
                Err(AuthCryptoError::BadPadding(pad))
            } else if !pad_bytes_ok(padded, pad) {
                Err(AuthCryptoError::PaddingMismatch)
            } else {
                let body = padded.subrange(0, padded.len() - pad);
                if body.len() < 64 {
                    Err(AuthCryptoError::DecryptedTooShort(body.len() as usize))
                } else if sha512_digest(body.subrange(64, body.len() as int)) != body.subrange(0, 64) {
                    Err(AuthCryptoError::HmacMismatch)
                } else if !valid_utf8(body.subrange(64, body.len() as int)) {
                    Err(AuthCryptoError::Utf8)
                } else {
                    Ok(decode_utf8(body.subrange(64, body.len() as int)))
                }
            }
        }
    }
}

/// Whether decoded bytes that pass the header checks carry a ciphertext of whole
/// 16-byte blocks, which the block cipher needs.
pub open spec fn whole_blocks(raw: Seq<u8>) -> bool {
    raw.len() >= 54 && raw[0] == HEADER_MAGIC_T && raw[1] == HEADER_MAGIC_C && raw[2] == HEADER_VERSION
        ==> (raw.len() - 38) % 16 == 0
}

/// Whether a sealed record text, where it is Base64, decodes to whole blocks.
pub open spec fn text_whole_blocks(text: Seq<char>) -> bool {
    match base64_decode_spec(text) {
        Some(raw) => whole_blocks(raw),
        None => true,
    }
}

/// What opening a sealed record text gives.
pub open spec fn open_text(text: Seq<char>) -> Result<Seq<char>, AuthCryptoError> {
    match base64_decode_spec(text) {
        None => Err(AuthCryptoError::Base64),
        Some(raw) => open_bytes(raw),
    }
}

/// Copies `v[lo..hi]` into a new vector.
fn copy_range(v: &[u8], lo: usize, hi: usize) -> (r: Vec<u8>)
    requires
        lo <= hi <= v@.len(),
    ensures
        r@ == v@.subrange(lo as int, hi as int),
{
    slice_to_vec(slice_subrange(v, lo, hi))
}

/// Appends all of `src` to `dst`.
fn append_bytes(dst: &mut Vec<u8>, src: &[u8])
    ensures
        final(dst)@ == old(dst)@ + src@,
{
    let mut i: usize = 0;
    while i < src.len()
        invariant
            i <= src@.len(),
            dst@ == old(dst)@ + src@.subrange(0, i as int),
        decreases src@.len() - i,
    {
        dst.push(src[i]);
        i = i + 1;
        assert(dst@ =~= old(dst)@ + src@.subrange(0, i as int));
    }
    assert(src@.subrange(0, src@.len() as int) =~= src@);
}

/// Derives the AES-128 key and the IV from an embedded key.
fn derive_key_iv(embedded_key: &[u8]) -> (r: (Vec<u8>, Vec<u8>))
    ensures
        r.0@ == derived_key(embedded_key@),
        r.1@ == derived_iv(embedded_key@),
        r.0@.len() == 16,
        r.1@.len() == 16,
{
    let o = sha512(embedded_key);
    let mut n = o;
    let mut i: usize = 0;
    while i < 64
        invariant
            i <= 64,
            n@ == sha512_digest(embedded_key@) + aes_constant().subrange(0, i as int),
        decreases 64 - i,
    {
        n.push(JQ[i] ^ WQ[i]);
        i = i + 1;
        assert(n@ =~= sha512_digest(embedded_key@) + aes_constant().subrange(0, i as int));
    }
    assert(aes_constant().subrange(0, 64) =~= aes_constant());
    let c = sha512(n.as_slice());
    let key = copy_range(c.as_slice(), 0, 16);
    let iv = copy_range(c.as_slice(), 16, 32);
    (key, iv)
}

/// Appends PKCS#7 padding to `data`.
pub fn pkcs7_pad_in_place(data: &mut Vec<u8>)
    ensures
        final(data)@ == pkcs7_pad(old(data)@),
        final(data)@.len() % 16 == 0,
{
    let pad_len: usize = 16 - data.len() % 16;
    let pad_byte: u8 = pad_len as u8;
    let mut k: usize = 0;
    while k < pad_len
        invariant
            pad_len == pad_count(old(data)@.len()),
            pad_byte == pad_len,
            k <= pad_len,
            data@ == old(data)@ + Seq::new(k as nat, |i: int| pad_byte),
        decreases pad_len - k,
    {
        data.push(pad_byte);
        k = k + 1;
        assert(data@ =~= old(data)@ + Seq::new(k as nat, |i: int| pad_byte));
    }
    assert(data@ =~= pkcs7_pad(old(data)@));
}

/// Seals a plaintext with a given embedded key: the deterministic part of
/// [`encrypt_solo_cn_auth_info`].
pub fn seal_with_key(plaintext: &str, embedded_key: &[u8]) -> (r: String)
    requires
        embedded_key@.len() == 32,
    ensures
        r@ == sealed_text(plaintext@, embedded_key@),
        open_text(r@) == Ok::<Seq<char>, AuthCryptoError>(plaintext@),
        text_whole_blocks(r@),
        base64_decode_spec(r@) == Some(sealed_bytes(encode_utf8(plaintext@), embedded_key@)),
        sealed_length(sealed_bytes(encode_utf8(plaintext@), embedded_key@), encode_utf8(plaintext@).len()),
{
    let (key, iv) = derive_key_iv(embedded_key);
    let plain_bytes = plaintext.as_bytes();
    let mut data = sha512(plain_bytes);
    append_bytes(&mut data, plain_bytes);
    let ghost unpadded = data@;
    pkcs7_pad_in_place(&mut data);
    let ct = aes128_cbc_encrypt_blocks(key.as_slice(), iv.as_slice(), data.as_slice());
    let mut out: Vec<u8> = Vec::new();
    out.push(HEADER_MAGIC_T);
    out.push(HEADER_MAGIC_C);
    out.push(HEADER_VERSION);
    out.push(0x10);
    out.push(0x00);
    out.push(0x00);
    append_bytes(&mut out, embedded_key);
    append_bytes(&mut out, ct.as_slice());
    let r = base64_encode(out.as_slice());
    proof {
        let pb = plaintext.spec_bytes();
        assert(pb == encode_utf8(plaintext@));
        assert(out@ =~= sealed_bytes(pb, embedded_key@));
        lemma_open_sealed(pb, embedded_key@);
        let u: nat = unpadded.len();
        assert(u == 64 + pb.len());
        assert(pkcs7_pad(unpadded).len() == u + pad_count(u));
        assert(u + pad_count(u) == 16 * (u / 16 + 1)) by {
            assert(u == 16 * (u / 16) + u % 16);
        }
        assert(out@.subrange(0, 6) =~= sealed_header());
    }
    r
}

/// Opening the sealed bytes of `plain` gives `plain` back, given what the cipher
/// wrapper states of its ciphertext.
proof fn lemma_open_sealed(plain: Seq<u8>, embedded_key: Seq<u8>)
    requires
        embedded_key.len() == 32,
        valid_utf8(plain),
        ({
            let padded = pkcs7_pad(sha512_digest(plain) + plain);
            let ct = aes128_cbc_encrypt(derived_key(embedded_key), derived_iv(embedded_key), padded);
            &&& ct.len() == padded.len()
            &&& aes128_cbc_decrypt(derived_key(embedded_key), derived_iv(embedded_key), ct) == padded
        }),
        sha512_digest(plain).len() == 64,
    ensures
        open_bytes(sealed_bytes(plain, embedded_key)) == Ok::<Seq<char>, AuthCryptoError>(decode_utf8(plain)),
{
    let raw = sealed_bytes(plain, embedded_key);
    let unpadded = sha512_digest(plain) + plain;
    let padded = pkcs7_pad(unpadded);
    let ct = aes128_cbc_encrypt(derived_key(embedded_key), derived_iv(embedded_key), padded);
    let n = pad_count(unpadded.len());
    assert(raw.subrange(6, 38) =~= embedded_key);
    assert(raw.subrange(38, raw.len() as int) =~= ct);
    assert(padded.len() == unpadded.len() + n);
    assert(padded.len() % 16 == 0);
    assert(padded.last() == n as u8);
    assert(pad_bytes_ok(padded, n as u8)) by {
        assert forall|i: int| 0 <= i < (n as u8) implies #[trigger] padded[padded.len() - 1 - i] == (n as u8) by {
            assert(padded.len() - 1 - i >= unpadded.len());
        }
    }
    let body = padded.subrange(0, padded.len() - (n as u8));
    assert(body =~= unpadded);
    assert(body.subrange(64, body.len() as int) =~= plain);
    assert(body.subrange(0, 64) =~= sha512_digest(plain));
}

/// Seals a login record for `storage.json`, under a fresh random embedded key.
/// Whatever key was drawn, opening the result gives the plaintext back, and the
/// decoded bytes start with `"tc"` and version 5.
pub fn encrypt_solo_cn_auth_info(plaintext: &str) -> (r: Result<String, AuthCryptoError>)
    ensures
        r matches Ok(s) && open_text(s@) == Ok::<Seq<char>, AuthCryptoError>(plaintext@),
        r matches Ok(s) && text_whole_blocks(s@),
        r matches Ok(s) && exists|k: Seq<u8>|
            {
                &&& k.len() == 32
                &&& s@ == #[trigger] sealed_text(plaintext@, k)
                &&& base64_decode_spec(s@) == Some(sealed_bytes(encode_utf8(plaintext@), k))
                &&& sealed_length(sealed_bytes(encode_utf8(plaintext@), k), encode_utf8(plaintext@).len())
            },
{
    let embedded_key = random_32_bytes();
    let s = seal_with_key(plaintext, embedded_key.as_slice());
    Ok(s)
}

/// Opens the Base64-decoded bytes of a sealed login record.
#[verifier::loop_isolation(false)]
pub fn decrypt_auth_bytes(raw: &[u8]) -> (r: Result<String, AuthCryptoError>)
    requires
        whole_blocks(raw@),
    ensures
        r matches Ok(s) ==> open_bytes(raw@) == Ok::<Seq<char>, AuthCryptoError>(s@),
        r matches Err(e) ==> open_bytes(raw@) == Err::<Seq<char>, AuthCryptoError>(e),
{
    let total_header: usize = HEADER_SIZE + EMBEDDED_KEY_SIZE;
    if raw.len() < total_header + 16 {
        return Err(AuthCryptoError::TooShort(raw.len()));
    }
    if raw[0] != HEADER_MAGIC_T || raw[1] != HEADER_MAGIC_C {
        return Err(AuthCryptoError::BadMagic);
    }
    if raw[2] != HEADER_VERSION {
        return Err(AuthCryptoError::BadVersion(raw[2]));
    }
    let embedded_key = slice_subrange(raw, HEADER_SIZE, total_header);
    let (key, iv) = derive_key_iv(embedded_key);
    let ciphertext = slice_subrange(raw, total_header, raw.len());
    let padded = match aes128_cbc_decrypt_blocks(key.as_slice(), iv.as_slice(), ciphertext) {
        Some(p) => p,
        None => return Err(AuthCryptoError::CiphertextLength),
    };
    let plen = padded.len();
    let pad_byte = padded[plen - 1];
    assert(embedded_key@ =~= raw@.subrange(6, 38));
    assert(ciphertext@ =~= raw@.subrange(38, raw@.len() as int));
    assert(padded@.last() == pad_byte);
    if pad_byte == 0 || pad_byte > 16 {
        return Err(AuthCryptoError::BadPadding(pad_byte));
    }
    let pad_len = pad_byte as usize;
    let mut i: usize = 0;
    while i < pad_len
        invariant
            16 <= plen == padded@.len(),
            1 <= pad_len <= 16,
            pad_len == pad_byte,
            i <= pad_len,
            forall|j: int| 0 <= j < i ==> #[trigger] padded@[plen - 1 - j] == pad_byte,
        decreases pad_len - i,
    {
        if padded[plen - 1 - i] != pad_byte {
            assert(padded@[padded@.len() - 1 - (i as int)] != pad_byte);
            assert(!pad_bytes_ok(padded@, pad_byte));
            return Err(AuthCryptoError::PaddingMismatch);
        }
        i = i + 1;
    }
    let body_len = plen - pad_len;
    if body_len < HMAC_SIZE {
        return Err(AuthCryptoError::DecryptedTooShort(body_len));
    }
    let hmac_expected = slice_subrange(padded.as_slice(), 0, HMAC_SIZE);
    let plain = copy_range(padded.as_slice(), HMAC_SIZE, body_len);
    let hmac_computed = sha512(plain.as_slice());
    let mut k: usize = 0;
    while k < HMAC_SIZE
        invariant
            k <= HMAC_SIZE,
            hmac_expected@.len() == 64,
            hmac_computed@.len() == 64,
            forall|j: int| 0 <= j < k ==> hmac_expected@[j] == hmac_computed@[j],
        decreases HMAC_SIZE - k,
    {
        if hmac_expected[k] != hmac_computed[k] {
            proof {
                let body = padded@.subrange(0, padded@.len() - pad_byte);
                assert(body.subrange(64, body.len() as int) =~= plain@);
                assert(body.subrange(0, 64) =~= hmac_expected@);
                assert(body.subrange(0, 64)[k as int] != sha512_digest(plain@)[k as int]);
            }
            return Err(AuthCryptoError::HmacMismatch);
        }
        k = k + 1;
    }
    assert(hmac_expected@ =~= hmac_computed@);
    proof {
        let body = padded@.subrange(0, padded@.len() - pad_byte);
        assert(body.subrange(64, body.len() as int) =~= plain@);
        assert(body.subrange(0, 64) =~= hmac_expected@);
    }
    match utf8_to_string(plain) {
        Some(s) => Ok(s),
        None => Err(AuthCryptoError::Utf8),
    }
}

/// Opens a sealed login record read from `storage.json` and returns its plaintext.
pub fn decrypt_solo_cn_auth_info(encrypted_b64: &str) -> (r: Result<String, AuthCryptoError>)
    requires
        text_whole_blocks(encrypted_b64@),
    ensures
        r matches Ok(s) ==> open_text(encrypted_b64@) == Ok::<Seq<char>, AuthCryptoError>(s@),
        r matches Err(e) ==> open_text(encrypted_b64@) == Err::<Seq<char>, AuthCryptoError>(e),
{
    match base64_decode(encrypted_b64) {
        None => Err(AuthCryptoError::Base64),
        Some(raw) => decrypt_auth_bytes(raw.as_slice()),
    }
}

/// Opens a sealed login record read from `storage.json`, where its ciphertext is whole
/// blocks; where it is not (which [`decrypt_solo_cn_auth_info`] cannot take), the
/// answer is `Err(CiphertextLength)`.
pub fn open_solo_cn_auth_info(encrypted_b64: &str) -> (r: Result<String, AuthCryptoError>)
    ensures
        text_whole_blocks(encrypted_b64@) ==> match r {
            Ok(s) => open_text(encrypted_b64@) == Ok::<Seq<char>, AuthCryptoError>(s@),
            Err(e) => open_text(encrypted_b64@) == Err::<Seq<char>, AuthCryptoError>(e),
        },
        !text_whole_blocks(encrypted_b64@) ==> r == Err::<String, AuthCryptoError>(
            AuthCryptoError::CiphertextLength,
        ),
{
    match base64_decode(encrypted_b64) {
        None => Err(AuthCryptoError::Base64),
        Some(raw) => {
            let n = raw.len();
            if n >= 54 && raw[0] == HEADER_MAGIC_T && raw[1] == HEADER_MAGIC_C && raw[2] == HEADER_VERSION
                && (n - 38) % 16 != 0 {
                Err(AuthCryptoError::CiphertextLength)
            } else {
                decrypt_solo_cn_auth_info(encrypted_b64)
            }
        },
    }
}

} // verus!
