use trae_manager::account_manager::AccountError;
use trae_manager::api::JwtError;
use trae_manager::auth_crypto::AuthCryptoError;
use trae_manager::errors::ApiError;
use trae_manager::instance_manager::InstanceError;
use trae_manager::machine::platform_uuid;
use trae_manager::storage::{LoginReadError, LoginWriteError};

#[test]
fn crypto_error_messages() {
    assert_eq!(AuthCryptoError::TooShort(3).message(), "加密数据太短: 3 bytes");
    assert_eq!(AuthCryptoError::BadVersion(4).message(), "不支持的加密版本: 4");
    assert_eq!(AuthCryptoError::BadPadding(0).message(), "无效的 PKCS7 填充: 0");
    assert_eq!(AuthCryptoError::DecryptedTooShort(15).message(), "解密数据太短: 15 bytes");
    assert_eq!(AuthCryptoError::HmacMismatch.message(), "HMAC 验证失败");
    assert_eq!(AuthCryptoError::BadMagic.message(), "加密数据头部魔数不正确");
}

#[test]
fn other_error_messages() {
    assert_eq!(JwtError::Format.message(), "无效的 JWT Token 格式");
    assert_eq!(LoginReadError::NotFound.message(), "未找到 TRAE Work CN 登录信息");
    assert_eq!(LoginReadError::Sealed(AuthCryptoError::Base64).message(), "Base64 解码失败");
    assert!(!LoginWriteError::TimeOutOfRange.message().is_empty());
    assert_eq!(InstanceError::DefaultNotDeletable.message(), "默认实例不可删除");
    assert_eq!(InstanceError::NoProductPath.message(), "未设置 TRAE 路径，请先在设置中扫描");
}

#[test]
fn api_error_constructors() {
    assert_eq!(ApiError::new("x".to_string()).message, "x");
    assert_eq!(ApiError::from_account_error(AccountError::NotFound).message, "账号不存在");
    assert_eq!(ApiError::from_instance_error(&InstanceError::NotFound).message, "实例不存在");
    assert_eq!(
        ApiError::from_login_read_error(LoginReadError::NotFound).message,
        "未找到 TRAE Work CN 登录信息"
    );
    assert_eq!(
        AccountError::TokenExpired.message(),
        "TRAE Work CN Token 已过期，请重新登录获取新 Token"
    );
}

#[test]
fn platform_uuid_from_ioreg() {
    let out = "+-o Root\r\n    \"IOPlatformSerialNumber\" = \"C02\"\r\n    \"IOPlatformUUID\" = \"1234-ABCD\"\r\n";
    assert_eq!(platform_uuid(out), Some("1234-ABCD".to_string()));
    assert_eq!(platform_uuid("nothing here"), None);
    assert_eq!(platform_uuid("IOPlatformUUID only"), None);
}
