use trae_manager::account_manager::{
    is_token_expiring_soon, login_info_of, token_usage_error, uses_fallback_name, wants_cookie_info, AccountError,
    AccountManager, LocalLogin, UsageSource,
};
use trae_manager::account_types::{Account, AccountBrief, AccountStore, BrowserUserInfo};
use trae_manager::api_types::{TokenUserInfo, UserInfoResult, UserTokenResult};

fn account(id: &str, user_id: &str) -> Account {
    Account::new(
        id.to_string(),
        format!("name-{}", id),
        format!("{}@x", id),
        String::new(),
        user_id.to_string(),
        "tenant".to_string(),
        10,
    )
}

fn manager_with(ids: &[(&str, &str)]) -> AccountManager {
    let accounts: Vec<Account> = ids.iter().map(|(i, u)| account(i, u)).collect();
    let active = accounts.first().map(|a| a.id.clone());
    AccountManager::new(AccountStore { accounts, active_account_id: active, current_account_id: None })
}

fn user_info(user_id: &str, name: Option<&str>) -> TokenUserInfo {
    TokenUserInfo {
        user_id: user_id.to_string(),
        tenant_id: "t".to_string(),
        screen_name: name.map(|s| s.to_string()),
        avatar_url: Some("av".to_string()),
        email: Some("mail@x".to_string()),
    }
}

#[test]
fn new_account_defaults() {
    let a = account("a1", "u1");
    assert_eq!(a.plan_type, "Free");
    assert_eq!(a.created_at, 10);
    assert_eq!(a.updated_at, 10);
    assert_eq!(a.jwt_token, None);
    let b = AccountBrief::from(&a);
    assert_eq!(b.id, "a1");
    assert!(!b.is_current);
    assert!(AccountBrief::from_account(&a, true).is_current);
}

#[test]
fn add_account_with_cookies() {
    let mut m = manager_with(&[]);
    let token = UserTokenResult {
        token: "tk".to_string(),
        expired_at: "2030-01-01T00:00:00Z".to_string(),
        user_id: "u9".to_string(),
        tenant_id: "t9".to_string(),
    };
    let info = UserInfoResult {
        screen_name: "Nine".to_string(),
        avatar_url: "av".to_string(),
        non_plain_text_email: None,
        region: "CN".to_string(),
        user_id: "u9".to_string(),
        tenant_id: "t9".to_string(),
    };
    let a = m.add_account("c=1".to_string(), token.clone(), info.clone(), "id9".to_string(), 5).unwrap();
    assert_eq!(a.name, "Nine");
    assert_eq!(a.email, "");
    assert_eq!(a.jwt_token, Some("tk".to_string()));
    assert_eq!(m.store.active_account_id, Some("id9".to_string()));
    assert_eq!(
        m.add_account("c=1".to_string(), token, info, "other".to_string(), 6),
        Err(AccountError::AlreadyExists)
    );
    assert_eq!(m.store.accounts.len(), 1);
}

#[test]
fn add_account_by_token_names() {
    let mut m = manager_with(&[]);
    let a = m
        .add_account_by_token(
            "tok".to_string(),
            None,
            "browser".to_string(),
            Some(BrowserUserInfo { screen_name: "Web".to_string(), avatar_url: String::new(), email: String::new() }),
            user_info("u1", Some("Api")),
            None,
            Some("rt".to_string()),
            "id1".to_string(),
            7,
        )
        .unwrap();
    assert_eq!(a.source, "browser");
    assert_eq!(a.refresh_token, Some("rt".to_string()));
    assert_eq!(a.jwt_token, Some("tok".to_string()));
    let again = m.add_account_by_token(
        "tok2".to_string(),
        None,
        "manual".to_string(),
        None,
        user_info("u1", None),
        None,
        None,
        "id2".to_string(),
        8,
    );
    assert_eq!(again, Err(AccountError::AlreadyExists));
    assert_eq!(AccountError::AlreadyExists.message(), "该账号已存在");
}

#[test]
fn remove_account_resets_active() {
    let mut m = manager_with(&[("a", "u1"), ("b", "u2")]);
    assert_eq!(m.remove_account("zzz"), Err(AccountError::NotFound));
    m.remove_account("a").unwrap();
    assert_eq!(m.store.accounts.len(), 1);
    assert_eq!(m.store.active_account_id, Some("b".to_string()));
    m.remove_account("b").unwrap();
    assert_eq!(m.store.active_account_id, None);
}

#[test]
fn set_active_and_get() {
    let mut m = manager_with(&[("a", "u1"), ("b", "u2")]);
    m.set_active_account("b").unwrap();
    assert_eq!(m.get_active_account().unwrap().id, "b");
    assert_eq!(m.set_active_account("c"), Err(AccountError::NotFound));
    assert_eq!(m.get_account("a").unwrap().user_id, "u1");
    assert_eq!(m.get_account("q"), Err(AccountError::NotFound));
    assert_eq!(m.get_accounts().len(), 2);
    assert!(m.has_user("u2"));
    assert_eq!(m.find_account_by_user_id("u2").unwrap().id, "b");
}

#[test]
fn switch_needs_token() {
    let mut m = manager_with(&[("a", "u1")]);
    assert_eq!(m.switch_account_login("a").map(|_| ()), Err(AccountError::NoTokenForSwitch));
    assert_eq!(m.switch_account_login("x").map(|_| ()), Err(AccountError::NotFound));
    m.store.accounts[0].jwt_token = Some("t".to_string());
    let (info, _) = m.switch_account_login("a").unwrap();
    assert_eq!(info.token, "t");
    assert_eq!(info.region, "CN");
    m.switch_account("a");
    assert_eq!(m.store.current_account_id, Some("a".to_string()));
    assert_eq!(m.store.active_account_id, Some("a".to_string()));
}

#[test]
fn launch_multi_binds_dir_once() {
    let mut m = manager_with(&[("a", "u1")]);
    assert_eq!(m.launch_account_multi_login("a").map(|_| ()), Err(AccountError::NoTokenForMulti));
    assert!(m.launch_account_multi("a", "D:\\x".to_string(), 20));
    assert_eq!(m.store.accounts[0].data_dir, Some("D:\\x".to_string()));
    assert!(!m.launch_account_multi("a", "D:\\y".to_string(), 21));
    assert_eq!(m.store.accounts[0].data_dir, Some("D:\\x".to_string()));
}

#[test]
fn note_and_machine_id() {
    let mut m = manager_with(&[("a", "u1")]);
    m.update_account_note("a", Some("hi".to_string()), 30).unwrap();
    assert_eq!(m.store.accounts[0].note, Some("hi".to_string()));
    assert_eq!(m.store.accounts[0].updated_at, 30);
    assert_eq!(m.update_account_note("z", None, 31), Err(AccountError::NotFound));
    assert_eq!(m.bind_machine_id("a", "mid".to_string(), 32), Ok("mid".to_string()));
    assert_eq!(m.store.accounts[0].machine_id, Some("mid".to_string()));
}

#[test]
fn import_merge_and_overwrite() {
    let mut m = manager_with(&[("a", "u1")]);
    assert_eq!(m.import_accounts(vec![], false), Err(AccountError::ImportEmpty));
    let n = m.import_accounts(vec![account("b", "u1"), account("c", "u3")], false).unwrap();
    assert_eq!(n, 1);
    assert_eq!(m.store.accounts.len(), 2);
    let again = m.import_accounts(vec![account("c", "u3")], false).unwrap();
    assert_eq!(again, 0);
    let n = m.import_accounts(vec![account("x", "u8")], true).unwrap();
    assert_eq!(n, 1);
    assert_eq!(m.store.accounts.len(), 1);
    assert_eq!(m.store.active_account_id, Some("x".to_string()));
}

#[test]
fn usage_source_and_errors() {
    let mut m = manager_with(&[("a", "u1")]);
    assert_eq!(m.usage_source("a"), Err(AccountError::NoCredentials));
    m.store.accounts[0].cookies = "c".to_string();
    assert_eq!(m.usage_source("a"), Ok(UsageSource::Cookies("c".to_string())));
    m.store.accounts[0].jwt_token = Some("t".to_string());
    assert_eq!(m.usage_source("a"), Ok(UsageSource::Token("t".to_string())));
    assert_eq!(token_usage_error("API 返回错误 401 Unauthorized"), Some(AccountError::TokenExpired));
    assert_eq!(token_usage_error("timeout"), None);
    m.set_plan_type("a", "Pro".to_string(), 40);
    assert_eq!(m.store.accounts[0].plan_type, "Pro");
}

#[test]
fn token_updates() {
    let mut m = manager_with(&[("a", "u1")]);
    assert_eq!(m.update_account_token("a", "t".to_string(), "other", 1), Err(AccountError::TokenUserMismatch));
    m.update_account_token("a", "t".to_string(), "u1", 2).unwrap();
    assert_eq!(m.store.accounts[0].jwt_token, Some("t".to_string()));
    let tok = UserTokenResult {
        token: "t2".to_string(),
        expired_at: "e".to_string(),
        user_id: "u2".to_string(),
        tenant_id: String::new(),
    };
    assert_eq!(m.update_cookies("a", "c".to_string(), tok.clone(), 3), Err(AccountError::CookieUserMismatch));
    m.refresh_token("a", tok, 4);
    assert_eq!(m.store.accounts[0].jwt_token, Some("t2".to_string()));
    assert_eq!(m.store.accounts[0].token_expired_at, Some("e".to_string()));
}

#[test]
fn expiry_checks() {
    let mut a = account("a", "u");
    assert!(is_token_expiring_soon(&a, 0, 0));
    a.token_expired_at = Some("1970-01-01T02:00:00Z".to_string());
    assert!(!is_token_expiring_soon(&a, 0, 0));
    assert!(is_token_expiring_soon(&a, 3601, 0));
    a.token_expired_at = Some("7200".to_string());
    assert!(!is_token_expiring_soon(&a, 0, 0));
    a.token_expired_at = Some("garbage".to_string());
    assert!(is_token_expiring_soon(&a, 0, 0));
    let mut m = manager_with(&[("a", "u1"), ("b", "u2")]);
    m.store.accounts[0].cookies = "c".to_string();
    assert_eq!(m.token_refresh_candidates(0, 0), vec!["a".to_string()]);
}

#[test]
fn local_login_accounts() {
    let mut m = manager_with(&[]);
    let a = m
        .add_account_from_local_login(
            "abcdefghijk".to_string(),
            "t".to_string(),
            "tok".to_string(),
            None,
            String::new(),
            String::new(),
            String::new(),
            "CN".to_string(),
            "id1".to_string(),
            3,
        )
        .unwrap();
    assert_eq!(a.name, "User_abcdefgh");
    assert_eq!(a.source, "local");
    let login = LocalLogin {
        token: "tok".to_string(),
        user_id: "zz".to_string(),
        email: String::new(),
        avatar_url: String::new(),
        username: String::new(),
        store_region: None,
    };
    let b = m.read_solo_cn_account(login.clone(), user_info("zz", Some("Zed")), "id2".to_string(), 4).unwrap();
    assert_eq!(b.name, "Zed");
    assert_eq!(b.email, "mail@x");
    assert_eq!(b.region, "CN");
    assert_eq!(m.read_solo_cn_account(login, user_info("zz", None), "id3".to_string(), 5), None);
}

#[test]
fn login_info_of_account() {
    let mut a = account("a", "u");
    a.jwt_token = Some("t".to_string());
    a.region = String::new();
    let info = login_info_of(&a, Some("r".to_string()));
    assert_eq!(info.region, "CN");
    assert_eq!(info.host, "");
    assert_eq!(info.username, a.name);
    assert_eq!(info.refresh_token, Some("r".to_string()));
}

fn cookie_answer(name: &str, email: Option<&str>, avatar: &str) -> UserInfoResult {
    UserInfoResult {
        screen_name: name.to_string(),
        avatar_url: avatar.to_string(),
        non_plain_text_email: email.map(|e| e.to_string()),
        region: "CN".to_string(),
        user_id: "u1".to_string(),
        tenant_id: "t".to_string(),
    }
}

fn add_by_token(
    browser: Option<BrowserUserInfo>,
    info: TokenUserInfo,
    cookie_info: Option<UserInfoResult>,
) -> Account {
    let mut m = manager_with(&[]);
    m.add_account_by_token(
        "tok".to_string(),
        Some("c=1".to_string()),
        "manual".to_string(),
        browser,
        info,
        cookie_info,
        None,
        "id1".to_string(),
        7,
    )
    .unwrap()
}

#[test]
fn add_account_by_token_priority() {
    // The token's screen name wins over the cookies' answer.
    let a = add_by_token(None, user_info("u1", Some("Api")), Some(cookie_answer("Cookie", Some("c@x"), "cav")));
    assert_eq!(a.name, "Api");
    assert_eq!(a.email, "mail@x");
    assert_eq!(a.avatar_url, "av");
    // Fields the token lacks come from the cookies' answer.
    let mut bare = user_info("u1", None);
    bare.email = None;
    bare.avatar_url = None;
    let a = add_by_token(None, bare.clone(), Some(cookie_answer("Cookie", Some("c@x"), "cav")));
    assert_eq!(a.name, "Cookie");
    assert_eq!(a.email, "c@x");
    assert_eq!(a.avatar_url, "cav");
    // The browser's fields win over both.
    let web = BrowserUserInfo { screen_name: "Web".to_string(), avatar_url: String::new(), email: "w@x".to_string() };
    let a = add_by_token(Some(web), user_info("u1", Some("Api")), Some(cookie_answer("Cookie", None, "cav")));
    assert_eq!(a.name, "Web");
    assert_eq!(a.email, "w@x");
    assert_eq!(a.avatar_url, "av");
    // Nothing names the user: the user id gives the name.
    let mut anon = bare.clone();
    anon.user_id = "abcdefghijk".to_string();
    let a = add_by_token(None, anon, None);
    assert_eq!(a.name, "User_abcdefgh");
    assert_eq!(a.email, "");
}

#[test]
fn cookie_answer_needed() {
    let full = user_info("u1", Some("Api"));
    assert!(!wants_cookie_info(&full, &Some("c".to_string()), &None));
    let mut no_mail = full.clone();
    no_mail.email = None;
    assert!(wants_cookie_info(&no_mail, &Some("c".to_string()), &None));
    assert!(!wants_cookie_info(&no_mail, &None, &None));
    let web = BrowserUserInfo { screen_name: String::new(), avatar_url: String::new(), email: "w@x".to_string() };
    assert!(!wants_cookie_info(&no_mail, &Some("c".to_string()), &Some(web)));
    let unnamed = user_info("u1", None);
    assert!(uses_fallback_name(&unnamed, &Some("c".to_string()), &None, &None));
    assert!(!uses_fallback_name(&unnamed, &Some("c".to_string()), &None, &Some(cookie_answer("N", None, ""))));
    assert!(uses_fallback_name(&unnamed, &None, &None, &Some(cookie_answer("N", None, ""))));
}

#[test]
fn import_merge_skips_repeated_user_ids() {
    let mut m = manager_with(&[("a", "u1")]);
    let n = m
        .import_accounts(vec![account("b", "u2"), account("c", "u2"), account("d", "u1"), account("e", "u3")], false)
        .unwrap();
    assert_eq!(n, 2);
    let ids: Vec<&str> = m.store.accounts.iter().map(|a| a.id.as_str()).collect();
    assert_eq!(ids, vec!["a", "b", "e"]);
}
