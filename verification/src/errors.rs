//! The messages of the library's errors, and the error that the application's commands
//! answer with.
use vstd::prelude::*;
use crate::account_manager::AccountError;
use crate::api::JwtError;
use crate::auth_crypto::AuthCryptoError;
use crate::instance_manager::InstanceError;
use crate::numbers::{decimal_text, u64_decimal};
use crate::storage::{LoginReadError, LoginWriteError};
use crate::text::concat;

verus! {

/// `prefix` followed by the decimal text of `n`.
fn with_number(prefix: &str, n: u64) -> (r: String)
    ensures
        r@ == prefix@ + decimal_text(n as nat),
{
    let d = u64_decimal(n);
    concat(prefix, d.as_str())
}

/// `prefix`, the decimal text of `n`, and " bytes".
fn with_byte_count(prefix: &str, n: u64) -> (r: String)
    ensures
        r@ == prefix@ + decimal_text(n as nat) + " bytes"@,
{
    let a = with_number(prefix, n);
    concat(a.as_str(), " bytes")
}

impl AuthCryptoError {
    /// The message of each error.
    pub open spec fn message_spec(self) -> Seq<char> {
        match self {
            AuthCryptoError::Base64 => "Base64 解码失败"@,
            AuthCryptoError::TooShort(n) => "加密数据太短: "@ + decimal_text(n as nat) + " bytes"@,
            AuthCryptoError::BadMagic => "加密数据头部魔数不正确"@,
            AuthCryptoError::BadVersion(v) => "不支持的加密版本: "@ + decimal_text(v as nat),
            AuthCryptoError::CiphertextLength => "密文长度不是 16 字节的整数倍"@,
            AuthCryptoError::BadPadding(p) => "无效的 PKCS7 填充: "@ + decimal_text(p as nat),
            AuthCryptoError::PaddingMismatch => "PKCS7 填充验证失败"@,
            AuthCryptoError::DecryptedTooShort(n) => "解密数据太短: "@ + decimal_text(n as nat) + " bytes"@,
            AuthCryptoError::HmacMismatch => "HMAC 验证失败"@,
            AuthCryptoError::Utf8 => "UTF-8 解码失败"@,
        }
    }

    /// The message shown to the user.
    pub fn message(&self) -> (r: String)
        ensures
            r@ == self.message_spec(),
    {
        match self {
            AuthCryptoError::Base64 => "Base64 解码失败".to_string(),
            AuthCryptoError::TooShort(n) => with_byte_count("加密数据太短: ", *n as u64),
            AuthCryptoError::BadMagic => "加密数据头部魔数不正确".to_string(),
            AuthCryptoError::BadVersion(v) => with_number("不支持的加密版本: ", *v as u64),
            AuthCryptoError::CiphertextLength => "密文长度不是 16 字节的整数倍".to_string(),
            AuthCryptoError::BadPadding(p) => with_number("无效的 PKCS7 填充: ", *p as u64),
            AuthCryptoError::PaddingMismatch => "PKCS7 填充验证失败".to_string(),
            AuthCryptoError::DecryptedTooShort(n) => with_byte_count("解密数据太短: ", *n as u64),
            AuthCryptoError::HmacMismatch => "HMAC 验证失败".to_string(),
            AuthCryptoError::Utf8 => "UTF-8 解码失败".to_string(),
        }
    }
}

impl JwtError {
    /// The message of each error.
    pub open spec fn message_spec(self) -> Seq<char> {
        match self {
            JwtError::Format => "无效的 JWT Token 格式"@,
            JwtError::Base64 => "解码 JWT payload 失败"@,
            JwtError::Utf8 => "JWT payload 不是有效的 UTF-8"@,
        }
    }

    /// The message shown to the user.
    pub fn message(&self) -> (r: String)
        ensures
            r@ == self.message_spec(),
    {
        match self {
            JwtError::Format => "无效的 JWT Token 格式".to_string(),
            JwtError::Base64 => "解码 JWT payload 失败".to_string(),
            JwtError::Utf8 => "JWT payload 不是有效的 UTF-8".to_string(),
        }
    }
}

impl LoginWriteError {
    /// The message shown to the user.
    pub fn message(&self) -> (r: String)
        ensures
            r@ == "系统时间超出登录信息可写入的范围"@,
    {
        "系统时间超出登录信息可写入的范围".to_string()
    }
}

impl LoginReadError {
    /// The message of each error.
    pub open spec fn message_spec(self) -> Seq<char> {
        match self {
            LoginReadError::NotFound => "未找到 TRAE Work CN 登录信息"@,
            LoginReadError::Sealed(e) => e.message_spec(),
        }
    }

    /// The message shown to the user.
    pub fn message(&self) -> (r: String)
        ensures
            r@ == self.message_spec(),
    {
        match self {
            LoginReadError::NotFound => "未找到 TRAE Work CN 登录信息".to_string(),
            LoginReadError::Sealed(e) => e.message(),
        }
    }
}

/// The error that the application's commands answer with: a message.
#[derive(Debug, Clone, PartialEq, Eq)]
pub struct ApiError {
    pub message: String,
}

impl ApiError {
    /// An error with the given message.
    pub fn new(message: String) -> (r: ApiError)
        ensures
            r.message == message,
    {
        ApiError { message }
    }

    /// The error for a refused account operation.
    pub fn from_account_error(e: AccountError) -> (r: ApiError)
        ensures
            r.message@ == e.message_spec(),
    {
        ApiError { message: e.message() }
    }

    /// The error for a refused instance operation.
    pub fn from_instance_error(e: &InstanceError) -> (r: ApiError)
        ensures
            r.message@ == e.message_spec(),
    {
        ApiError { message: e.message() }
    }

    /// The error for a login record that could not be read.
    pub fn from_login_read_error(e: LoginReadError) -> (r: ApiError)
        ensures
            r.message@ == e.message_spec(),
    {
        ApiError { message: e.message() }
    }
}

} // verus!
