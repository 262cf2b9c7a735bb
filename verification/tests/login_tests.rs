use trae_manager::account_types::BrowserUserInfo;
use trae_manager::login::{callback_reply, callback_request, waiting_reply, CallbackRequest, LoginCallback, LoginSession};

fn cb(token: &str, refresh: &str, name: &str) -> LoginCallback {
    LoginCallback {
        token: token.to_string(),
        cookies: Some("c=1".to_string()),
        refresh_token: refresh.to_string(),
        screen_name: name.to_string(),
        avatar_url: String::new(),
        email: String::new(),
    }
}

#[test]
fn no_token_waits() {
    assert_eq!(callback_request(cb("", "r", "n")), CallbackRequest::Waiting);
    let w = waiting_reply();
    assert_eq!(w.status, "waiting");
    assert!(!w.close_window);
}

#[test]
fn token_adds_account() {
    match callback_request(cb("tok", "", "")) {
        CallbackRequest::AddAccount { token, cookies, refresh_token, browser_user_info } => {
            assert_eq!(token, "tok");
            assert_eq!(cookies, Some("c=1".to_string()));
            assert_eq!(refresh_token, None);
            assert_eq!(browser_user_info, None);
        }
        _ => panic!("expected an account to add"),
    }
    match callback_request(cb("tok", "rt", "Ann")) {
        CallbackRequest::AddAccount { refresh_token, browser_user_info, .. } => {
            assert_eq!(refresh_token, Some("rt".to_string()));
            assert_eq!(
                browser_user_info,
                Some(BrowserUserInfo { screen_name: "Ann".to_string(), avatar_url: String::new(), email: String::new() })
            );
        }
        _ => panic!("expected an account to add"),
    }
}

#[test]
fn replies() {
    let ok = callback_reply(Ok("a@b".to_string()));
    assert_eq!(ok.status, "ok");
    assert_eq!(ok.event, Some(("login-success".to_string(), "a@b".to_string())));
    assert!(ok.close_window);
    let dup = callback_reply(Err("该账号已存在".to_string()));
    assert_eq!(dup.status, "error");
    assert_eq!(dup.event, Some(("login-failed".to_string(), "该账号已存在".to_string())));
    assert!(dup.close_window);
    let other = callback_reply(Err("网络错误".to_string()));
    assert_eq!(other.message, Some("网络错误".to_string()));
    assert_eq!(other.event, None);
    assert!(!other.close_window);
}

#[test]
fn session_cancels_once() {
    let mut s = LoginSession::new();
    assert!(s.on_window_destroyed());
    assert!(!s.on_window_destroyed());
}

#[test]
fn session_no_cancel_after_success() {
    let mut s = LoginSession::new();
    assert!(s.on_login_success());
    assert!(!s.on_window_destroyed());
    assert!(!s.on_login_success());
}
