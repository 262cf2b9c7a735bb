//! Plain records of what the TRAE API answers, as the library reads them.
use vstd::prelude::*;

verus! {

/// The answer of `GetUserToken`.
#[derive(Debug, Clone, PartialEq, Eq)]
pub struct UserTokenResult {
    pub token: String,
    pub expired_at: String,
    pub user_id: String,
    pub tenant_id: String,
}

/// The answer of `GetUserInfo` made with cookies.
#[derive(Debug, Clone, PartialEq, Eq)]
pub struct UserInfoResult {
    pub screen_name: String,
    pub avatar_url: String,
    pub non_plain_text_email: Option<String>,
    pub region: String,
    pub user_id: String,
    pub tenant_id: String,
}

/// What is known of a user from a token.
#[derive(Debug, Clone, PartialEq, Eq)]
pub struct TokenUserInfo {
    pub user_id: String,
    pub tenant_id: String,
    pub screen_name: Option<String>,
    pub avatar_url: Option<String>,
    pub email: Option<String>,
}

/// The user and tenant named in a JWT's payload.
#[derive(Debug, Clone, PartialEq, Eq)]
pub struct JwtPayload {
    pub user_id: String,
    pub tenant_id: String,
}

} // verus!
