//! Trusted items: each calls one function of an outside crate or of std that vstd
//! gives no specification, and states what that function's documentation promises.
use vstd::prelude::*;
use vstd::utf8::*;
use sha2::Digest;
use aes::cipher::{BlockDecryptMut, BlockEncryptMut, KeyIvInit};
use base64::Engine;
use std::hash::BuildHasher;
use std::fmt::Write;
use crate::numbers::hex_digit;

verus! {

/// What SHA-512 gives for a byte sequence.
pub uninterp spec fn sha512_digest(data: Seq<u8>) -> Seq<u8>;

/// What AES-128 in CBC mode, without padding, gives for a key, an IV and a whole
/// number of 16-byte blocks.
pub uninterp spec fn aes128_cbc_encrypt(key: Seq<u8>, iv: Seq<u8>, data: Seq<u8>) -> Seq<u8>;

/// What AES-128-CBC decryption, without padding, gives for a key, an IV and a whole
/// number of 16-byte blocks.
pub uninterp spec fn aes128_cbc_decrypt(key: Seq<u8>, iv: Seq<u8>, data: Seq<u8>) -> Seq<u8>;

/// The standard-alphabet, padded Base64 text of a byte sequence.
pub uninterp spec fn base64_encode_spec(data: Seq<u8>) -> Seq<char>;

/// What standard-alphabet, padded Base64 decoding gives for a text: `None` where the
/// text is not valid Base64.
pub uninterp spec fn base64_decode_spec(text: Seq<char>) -> Option<Seq<u8>>;

/// Whether a text parses as a JSON document.
pub uninterp spec fn is_json_text(text: Seq<char>) -> bool;

/// The instant an RFC 3339 text denotes, as whole seconds since the Unix epoch and
/// the nanoseconds within that second: `None` where the text is not RFC 3339.
pub uninterp spec fn rfc3339_instant(text: Seq<char>) -> Option<(i64, u32)>;

/// Calls `sha2::Sha512::digest` (through the `Digest` trait). The digest is a function of
/// the input alone and is 64 bytes long.
#[verifier::external_body]
pub fn sha512(data: &[u8]) -> (r: Vec<u8>)
    ensures
        r@ == sha512_digest(data@),
        r@.len() == 64,
{
    sha2::Sha512::digest(data).to_vec()
}

/// Calls `encrypt_padded_vec_mut::<NoPadding>` of `cbc::Encryptor<aes::Aes128>` built by
/// `KeyIvInit::new` from `key` and `iv`. Without padding the ciphertext is as long as
/// the input, and CBC decryption with the same key and IV gives the input back.
#[verifier::external_body]
pub fn aes128_cbc_encrypt_blocks(key: &[u8], iv: &[u8], data: &[u8]) -> (r: Vec<u8>)
    requires
        key@.len() == 16,
        iv@.len() == 16,
        data@.len() % 16 == 0,
    ensures
        r@ == aes128_cbc_encrypt(key@, iv@, data@),
        r@.len() == data@.len(),
        aes128_cbc_decrypt(key@, iv@, r@) == data@,
{
    cbc::Encryptor::<aes::Aes128>::new(key.into(), iv.into())
        .encrypt_padded_vec_mut::<aes::cipher::block_padding::NoPadding>(data)
}

/// Calls `decrypt_padded_vec_mut::<NoPadding>` of `cbc::Decryptor<aes::Aes128>` built by
/// `KeyIvInit::new` from `key` and `iv`. It fails exactly when the input is not a whole
/// number of blocks; otherwise the plaintext is as long as the input.
#[verifier::external_body]
pub fn aes128_cbc_decrypt_blocks(key: &[u8], iv: &[u8], data: &[u8]) -> (r: Option<Vec<u8>>)
    requires
        key@.len() == 16,
        iv@.len() == 16,
    ensures
        r is Some <==> data@.len() % 16 == 0,
        r matches Some(p) ==> p@ == aes128_cbc_decrypt(key@, iv@, data@) && p@.len() == data@.len(),
{
    cbc::Decryptor::<aes::Aes128>::new(key.into(), iv.into())
        .decrypt_padded_vec_mut::<aes::cipher::block_padding::NoPadding>(data)
        .ok()
}

/// Calls `Engine::encode` of `base64::engine::general_purpose::STANDARD`. Decoding the
/// text with the same engine gives the bytes back.
#[verifier::external_body]
pub fn base64_encode(data: &[u8]) -> (r: String)
    ensures
        r@ == base64_encode_spec(data@),
        base64_decode_spec(r@) == Some(data@),
{
    base64::engine::general_purpose::STANDARD.encode(data)
}

/// Calls `Engine::decode` of `base64::engine::general_purpose::STANDARD`; its error is
/// dropped, so `None` stands for every decoding error.
#[verifier::external_body]
pub fn base64_decode(text: &str) -> (r: Option<Vec<u8>>)
    ensures
        r matches Some(b) ==> base64_decode_spec(text@) == Some(b@),
        r is None ==> base64_decode_spec(text@) is None,
{
    base64::engine::general_purpose::STANDARD.decode(text).ok()
}

/// Calls `rand::random::<[u8; 32]>()`: 32 bytes from the thread-local generator.
/// Nothing is stated of the values.
#[verifier::external_body]
pub fn random_32_bytes() -> (r: Vec<u8>)
    ensures
        r@.len() == 32,
{
    rand::random::<[u8; 32]>().to_vec()
}

/// Calls std's `String::from_utf8`, which succeeds exactly on valid UTF-8 and then holds
/// the characters that the bytes encode.
#[verifier::external_body]
pub fn utf8_to_string(bytes: Vec<u8>) -> (r: Option<String>)
    ensures
        r is Some <==> valid_utf8(bytes@),
        r matches Some(s) ==> s@ == decode_utf8(bytes@),
{
    String::from_utf8(bytes).ok()
}

/// Calls `serde_json::from_str::<serde_json::Value>` and tells whether it succeeded.
#[verifier::external_body]
pub fn parses_as_json(text: &str) -> (r: bool)
    ensures
        r == is_json_text(text@),
{
    serde_json::from_str::<serde_json::Value>(text).is_ok()
}

/// Calls `chrono::DateTime::parse_from_rfc3339`, and reads the parsed instant by
/// `timestamp` and `timestamp_subsec_nanos`.
#[verifier::external_body]
pub fn parse_rfc3339(text: &str) -> (r: Option<(i64, u32)>)
    ensures
        r == rfc3339_instant(text@),
{
    chrono::DateTime::parse_from_rfc3339(text).ok().map(|t| (t.timestamp(), t.timestamp_subsec_nanos()))
}

/// How `serde_json` writes one character inside a string literal: quote and backslash
/// after a backslash; backspace, tab, line feed, form feed and carriage return as `\b`,
/// `\t`, `\n`, `\f`, `\r`; the other control characters below U+0020 as `\u00` and
/// two lowercase hexadecimal digits; every other character as itself.
pub open spec fn json_escape(c: char) -> Seq<char> {
    if c == '"' {
        seq!['\\', '"']
    } else if c == '\\' {
        seq!['\\', '\\']
    } else if c == '\u{8}' {
        seq!['\\', 'b']
    } else if c == '\t' {
        seq!['\\', 't']
    } else if c == '\n' {
        seq!['\\', 'n']
    } else if c == '\u{c}' {
        seq!['\\', 'f']
    } else if c == '\r' {
        seq!['\\', 'r']
    } else if (c as nat) < 0x20 {
        seq!['\\', 'u', '0', '0', hex_digit((c as nat) / 16), hex_digit((c as nat) % 16)]
    } else {
        seq![c]
    }
}

/// The characters of a text, each written as `serde_json` writes it in a string.
pub open spec fn json_escaped(text: Seq<char>) -> Seq<char>
    decreases text.len(),
{
    if text.len() == 0 {
        Seq::<char>::empty()
    } else {
        json_escaped(text.drop_last()) + json_escape(text.last())
    }
}

/// The JSON string literal (quotes included) that `serde_json` writes for a text.
pub open spec fn json_quoted(text: Seq<char>) -> Seq<char> {
    seq!['"'] + json_escaped(text) + seq!['"']
}

/// The text that std's `str::to_uppercase` gives (Unicode upper-case mapping).
pub uninterp spec fn upper_text(text: Seq<char>) -> Seq<char>;

/// The text that std's `str::to_lowercase` gives (Unicode lower-case mapping).
pub uninterp spec fn lower_text(text: Seq<char>) -> Seq<char>;

/// The UTC instant `secs` seconds and `nanos` nanoseconds after the Unix epoch, written
/// by `chrono` with the `strftime` format `fmt`.
pub uninterp spec fn utc_text(secs: i64, nanos: u32, fmt: Seq<char>) -> Seq<char>;

/// The first second that `chrono` represents: January 1 of the year -262143, UTC.
pub const CHRONO_MIN_SECS: i64 = -8334601228800;
/// The last second that `chrono` represents: December 31 of the year 262142, UTC.
pub const CHRONO_MAX_SECS: i64 = 8210266876799;

/// What std's `DefaultHasher`, as `DefaultHasher::new` makes it, gives for a string.
pub uninterp spec fn default_hash(text: Seq<char>) -> u64;

/// Calls `serde_json::to_string` on a string slice: the string in quotes, with the
/// characters that `serde_json`'s escape table marks written as escapes (see
/// [`json_escape`]). Serialising a `str` cannot fail (its `Serialize` impl never
/// errors), so the error arm is never taken.
#[verifier::external_body]
pub fn json_string_literal(text: &str) -> (r: String)
    ensures
        r@ == json_quoted(text@),
{
    match serde_json::to_string(text) {
        Ok(t) => t,
        Err(_) => String::new(),
    }
}

/// Calls std's `str::to_uppercase`.
#[verifier::external_body]
pub fn to_upper(text: &str) -> (r: String)
    ensures
        r@ == upper_text(text@),
{
    text.to_uppercase()
}

/// Calls std's `str::to_lowercase`.
#[verifier::external_body]
pub fn to_lower(text: &str) -> (r: String)
    ensures
        r@ == lower_text(text@),
{
    text.to_lowercase()
}

/// Calls `chrono::DateTime::<Utc>::from_timestamp` and writes the instant with the
/// format `fmt` (through `write!`, so that a format that `chrono` cannot write gives
/// `None` rather than a panic). `from_timestamp` gives `None` only for seconds outside
/// the range that `chrono` represents or for `nanos` of a second or more; every
/// specifier of `%Y-%m-%dT%H:%M:%S%.3fZ` is one that `chrono` writes for any instant.
#[verifier::external_body]
pub fn format_utc(secs: i64, nanos: u32, fmt: &str) -> (r: Option<String>)
    ensures
        r matches Some(t) ==> t@ == utc_text(secs, nanos, fmt@),
        CHRONO_MIN_SECS <= secs <= CHRONO_MAX_SECS && nanos < 1000000000 && fmt@
            == "%Y-%m-%dT%H:%M:%S%.3fZ"@ ==> r is Some,
{
    let t = match chrono::DateTime::<chrono::Utc>::from_timestamp(secs, nanos) {
        Some(t) => t,
        None => return None,
    };
    let mut out = String::new();
    match write!(out, "{}", t.format(fmt)) {
        Ok(()) => Some(out),
        Err(_) => None,
    }
}

/// Calls `BuildHasher::hash_one` of `BuildHasherDefault<DefaultHasher>`, which hashes
/// the string with a `DefaultHasher` made by `new` (std documents that all hashers made
/// by `new` or `default` are the same) and returns `finish`.
#[verifier::external_body]
pub fn default_hash_of(text: &str) -> (r: u64)
    ensures
        r == default_hash(text@),
{
    std::hash::BuildHasherDefault::<std::collections::hash_map::DefaultHasher>::default().hash_one(text)
}

} // verus!
