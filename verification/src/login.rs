//! The browser login: what the local callback does with what the login page posts, and
//! what it answers. The page, the callback server and the window are the application's.
use vstd::prelude::*;
use crate::account_types::BrowserUserInfo;
use crate::text::{has_infix, str_contains};

verus! {

/// What the login page posts to the callback: each field as a string, empty where the
/// page sent none (`cookies` is absent where the page sent no string).
#[derive(Debug, Clone, PartialEq, Eq)]
pub struct LoginCallback {
    pub token: String,
    pub cookies: Option<String>,
    pub refresh_token: String,
    pub screen_name: String,
    pub avatar_url: String,
    pub email: String,
}

/// What the callback does with a post.
#[derive(Debug, Clone, PartialEq, Eq)]
pub enum CallbackRequest {
    /// No token yet: answer "waiting".
    Waiting,
    /// Add the account of the token.
    AddAccount {
        token: String,
        cookies: Option<String>,
        refresh_token: Option<String>,
        browser_user_info: Option<BrowserUserInfo>,
    },
}

/// Whether a browser user information has no field.
pub open spec fn browser_info_empty(cb: LoginCallback) -> bool {
    cb.screen_name@.len() == 0 && cb.avatar_url@.len() == 0 && cb.email@.len() == 0
}

/// The refresh token of a post, where it is not empty.
pub open spec fn posted_refresh_token(cb: LoginCallback) -> Option<String> {
    if cb.refresh_token@.len() == 0 {
        None
    } else {
        Some(cb.refresh_token)
    }
}

/// The user information of a post, where any of its fields is not empty.
pub open spec fn posted_user_info(cb: LoginCallback) -> Option<BrowserUserInfo> {
    if browser_info_empty(cb) {
        None
    } else {
        Some(BrowserUserInfo { screen_name: cb.screen_name, avatar_url: cb.avatar_url, email: cb.email })
    }
}

/// Whether the user information and refresh token taken from a post keep its fields as
/// posted: the e-mail as e-mail, the avatar URL as avatar URL, the screen name as
/// screen name; no information where all three are empty; the refresh token where it
/// is not empty.
pub open spec fn posted_fields_kept(
    cb: LoginCallback,
    info: Option<BrowserUserInfo>,
    refresh_token: Option<String>,
) -> bool {
    &&& info is None <==> (cb.screen_name@.len() == 0 && cb.avatar_url@.len() == 0 && cb.email@.len() == 0)
    &&& info matches Some(b) ==> b.email == cb.email && b.avatar_url == cb.avatar_url && b.screen_name
        == cb.screen_name
    &&& refresh_token is None <==> cb.refresh_token@.len() == 0
    &&& refresh_token matches Some(t) ==> t == cb.refresh_token
}

/// The account a callback post asks to add keeps the posted fields where they belong:
/// the posted e-mail is the e-mail and the posted avatar URL the avatar, never the
/// other way round, and the refresh token is the posted one where one was posted.
pub proof fn posted_user_info_keeps_fields(cb: LoginCallback)
    ensures
        posted_fields_kept(cb, posted_user_info(cb), posted_refresh_token(cb)),
        posted_user_info(cb) matches Some(b) ==> b.email@ == cb.email@ && b.avatar_url@ == cb.avatar_url@,
{
}

/// What the callback does with a post: wait where it carries no token; else add the
/// account, with the refresh token where it is not empty and the user information that
/// the page intercepted where any of its fields is not empty.
pub fn callback_request(cb: LoginCallback) -> (r: CallbackRequest)
    ensures
        cb.token@.len() == 0 ==> r == CallbackRequest::Waiting,
        cb.token@.len() > 0 ==> (r matches CallbackRequest::AddAccount {
            token,
            cookies,
            refresh_token,
            browser_user_info,
        } && token == cb.token && cookies == cb.cookies && refresh_token == posted_refresh_token(cb)
            && browser_user_info == posted_user_info(cb)),
        cb.token@.len() > 0 ==> (r matches CallbackRequest::AddAccount { browser_user_info, refresh_token, .. }
            && posted_fields_kept(cb, browser_user_info, refresh_token) && (browser_user_info matches Some(b)
            ==> b.email == cb.email && b.avatar_url == cb.avatar_url && b.screen_name == cb.screen_name)),
{
    if cb.token.as_str().is_empty() {
        return CallbackRequest::Waiting;
    }
    let refresh_token = if cb.refresh_token.as_str().is_empty() {
        None
    } else {
        Some(cb.refresh_token)
    };
    let browser_user_info = if cb.screen_name.as_str().is_empty() && cb.avatar_url.as_str().is_empty()
        && cb.email.as_str().is_empty() {
        None
    } else {
        Some(BrowserUserInfo { screen_name: cb.screen_name, avatar_url: cb.avatar_url, email: cb.email })
    };
    CallbackRequest::AddAccount { token: cb.token, cookies: cb.cookies, refresh_token, browser_user_info }
}

/// The callback's answer to the page, and what it tells the application's front end.
#[derive(Debug, Clone, PartialEq, Eq)]
pub struct CallbackReply {
    /// "waiting", "ok" or "error".
    pub status: String,
    /// The error message, for "error".
    pub message: Option<String>,
    /// The event to emit to the front end, with its text.
    pub event: Option<(String, String)>,
    /// Whether to close the login window shortly after answering.
    pub close_window: bool,
}

/// The answer to a post without a token.
pub fn waiting_reply() -> (r: CallbackReply)
    ensures
        r.status@ == "waiting"@,
        r.message is None,
        r.event is None,
        !r.close_window,
{
    CallbackReply { status: "waiting".to_string(), message: None, event: None, close_window: false }
}

/// The answer after adding the account: on success (`Ok` with the account's e-mail)
/// "ok", the event "login-success" with the e-mail, and the window closed; on failure
/// "error" with the message, and, where the message says the account exists already
/// ("已存在"), the event "login-failed" and the window closed.
pub fn callback_reply(added: Result<String, String>) -> (r: CallbackReply)
    ensures
        match added {
            Ok(email) => {
                &&& r.status@ == "ok"@
                &&& r.message is None
                &&& r.event matches Some(e) && e.0@ == "login-success"@ && e.1 == email
                &&& r.close_window
            },
            Err(msg) => {
                &&& r.status@ == "error"@
                &&& r.message == Some(msg)
                &&& if has_infix(msg@, "已存在"@) {
                    &&& r.event matches Some(e) && e.0@ == "login-failed"@ && e.1@ == "该账号已存在"@
                    &&& r.close_window
                } else {
                    r.event is None && !r.close_window
                }
            },
        },
{
    match added {
        Ok(email) => CallbackReply {
            status: "ok".to_string(),
            message: None,
            event: Some(("login-success".to_string(), email)),
            close_window: true,
        },
        Err(msg) => {
            if str_contains(msg.as_str(), "已存在") {
                CallbackReply {
                    status: "error".to_string(),
                    message: Some(msg),
                    event: Some(("login-failed".to_string(), "该账号已存在".to_string())),
                    close_window: true,
                }
            } else {
                CallbackReply { status: "error".to_string(), message: Some(msg), event: None, close_window: false }
            }
        },
    }
}

/// The login window's session: whether the callback server still runs, waiting to be
/// shut down. It stops after a successful login or when the window goes.
#[derive(Debug, Clone, PartialEq, Eq)]
pub struct LoginSession {
    pub shutdown_pending: bool,
}

/// Whether destroying the login window now means that the user closed it without a
/// successful login: then "login-cancelled" is emitted and the callback server shut
/// down.
pub open spec fn cancels_on_destroy(s: LoginSession) -> bool {
    s.shutdown_pending
}

/// A session after a step that stops the callback server (a successful login, or the
/// window's destruction).
pub open spec fn stopped(s: LoginSession) -> LoginSession {
    LoginSession { shutdown_pending: false }
}

impl LoginSession {
    /// A session whose callback server runs.
    pub fn new() -> (r: LoginSession)
        ensures
            cancels_on_destroy(r),
    {
        LoginSession { shutdown_pending: true }
    }

    /// A login succeeded ("login-success" was emitted): tells whether to shut the
    /// callback server down now, which happens once; a later destruction of the window
    /// is no cancellation.
    pub fn on_login_success(&mut self) -> (r: bool)
        ensures
            r == old(self).shutdown_pending,
            *final(self) == stopped(*old(self)),
    {
        let pending = self.shutdown_pending;
        self.shutdown_pending = false;
        pending
    }

    /// The login window was destroyed: tells whether to emit "login-cancelled" and
    /// shut the callback server down, which happens only where no login succeeded and
    /// only the first time.
    pub fn on_window_destroyed(&mut self) -> (r: bool)
        ensures
            r == cancels_on_destroy(*old(self)),
            *final(self) == stopped(*old(self)),
    {
        let pending = self.shutdown_pending;
        self.shutdown_pending = false;
        pending
    }
}

/// A window closed after a successful login is no cancellation: once the session has
/// seen a success, destroying the window emits no "login-cancelled", whatever the
/// session was before.
pub proof fn no_cancel_after_success(s: LoginSession)
    ensures
        !cancels_on_destroy(stopped(s)),
{
}

} // verus!
