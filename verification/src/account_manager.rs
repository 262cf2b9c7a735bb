//! The account manager: the rules by which the stored accounts change.
//!
//! Reading and writing `accounts.json`, and the network calls, are made around these
//! functions by the application; every function here states what it does to the store.
use vstd::prelude::*;
use crate::account_types::{
    Account, AccountBrief, AccountStore, AccountView, BrowserUserInfo, copy_opt, new_account_view, opt_view,
};
use crate::api_types::{TokenUserInfo, UserInfoResult, UserTokenResult};
use crate::machine::TraeLoginInfo;
use crate::seq_search::{first_match, lemma_first_match, lemma_first_match_at, lemma_first_match_none};
use crate::numbers::{parse_i64, parse_i64_spec};
use crate::outside::{parse_rfc3339, rfc3339_instant};
use crate::text::{byte_prefix, byte_prefix_ok, concat, has_infix, str_contains, str_eq, utf8_prefix};

verus! {

/// Why an account operation was refused.
#[derive(Debug, Clone, Copy, PartialEq, Eq)]
pub enum AccountError {
    /// No account has the given id.
    NotFound,
    /// An account with the same user id is already stored.
    AlreadyExists,
    /// The account has no token, so the product cannot be switched to it.
    NoTokenForSwitch,
    /// The account has no token, so no instance can be launched for it.
    NoTokenForMulti,
    /// The account has neither a token nor cookies.
    NoCredentials,
    /// The token belongs to another user than the account.
    TokenUserMismatch,
    /// The cookies belong to another user than the account.
    CookieUserMismatch,
    /// The imported data held no account.
    ImportEmpty,
    /// The API refused the token as expired.
    TokenExpired,
}

impl AccountError {
    /// The message shown to the user.
    pub fn message(&self) -> (r: String)
        ensures
            r@ == self.message_spec(),
    {
        match self {
            AccountError::NotFound => "账号不存在".to_string(),
            AccountError::AlreadyExists => "该账号已存在".to_string(),
            AccountError::NoTokenForSwitch => "账号没有有效的 Token，无法切换".to_string(),
            AccountError::NoTokenForMulti => "账号没有有效的 Token，无法多开".to_string(),
            AccountError::NoCredentials => "账号没有有效的 Token 或 Cookies".to_string(),
            AccountError::TokenUserMismatch => "Token 对应的用户与当前账号不匹配".to_string(),
            AccountError::CookieUserMismatch => "Cookies 对应的用户与当前账号不匹配".to_string(),
            AccountError::ImportEmpty => "导入文件中没有有效的账号数据".to_string(),
            AccountError::TokenExpired => "TRAE Work CN Token 已过期，请重新登录获取新 Token".to_string(),
        }
    }

    /// The message of each error.
    pub open spec fn message_spec(self) -> Seq<char> {
        match self {
            AccountError::NotFound => "账号不存在"@,
            AccountError::AlreadyExists => "该账号已存在"@,
            AccountError::NoTokenForSwitch => "账号没有有效的 Token，无法切换"@,
            AccountError::NoTokenForMulti => "账号没有有效的 Token，无法多开"@,
            AccountError::NoCredentials => "账号没有有效的 Token 或 Cookies"@,
            AccountError::TokenUserMismatch => "Token 对应的用户与当前账号不匹配"@,
            AccountError::CookieUserMismatch => "Cookies 对应的用户与当前账号不匹配"@,
            AccountError::ImportEmpty => "导入文件中没有有效的账号数据"@,
            AccountError::TokenExpired => "TRAE Work CN Token 已过期，请重新登录获取新 Token"@,
        }
    }
}

/// How a failed usage request by token is reported: as an expired token where the
/// error's message holds "401", else by the error itself (`None`).
pub fn token_usage_error(message: &str) -> (r: Option<AccountError>)
    ensures
        r == if has_infix(message@, "401"@) {
            Some(AccountError::TokenExpired)
        } else {
            None
        },
{
    if str_contains(message, "401") {
        Some(AccountError::TokenExpired)
    } else {
        None
    }
}

/// The predicate "has this id".
pub open spec fn id_is(id: Seq<char>) -> spec_fn(Account) -> bool {
    |a: Account| a.id@ == id
}

/// The predicate "has this user id".
pub open spec fn user_id_is(user_id: Seq<char>) -> spec_fn(Account) -> bool {
    |a: Account| a.user_id@ == user_id
}

/// The position of the first account with the given id.
pub open spec fn find_id(accounts: Seq<Account>, id: Seq<char>) -> Option<int> {
    first_match(accounts, id_is(id))
}

/// Whether some account has the given user id.
pub open spec fn has_user_id(accounts: Seq<Account>, user_id: Seq<char>) -> bool {
    first_match(accounts, user_id_is(user_id)) is Some
}

/// Whether an optional id is present and equal to `id`.
pub open spec fn names_id(o: Option<String>, id: Seq<char>) -> bool {
    o matches Some(s) && s@ == id
}

/// The id of the first account, if any.
pub open spec fn first_id(accounts: Seq<Account>) -> Option<String> {
    if accounts.len() == 0 {
        None
    } else {
        Some(accounts[0].id)
    }
}

/// The store after `acc` has been appended: it becomes the active account where none was.
pub open spec fn store_with_added(old: AccountStore, acc: Account) -> AccountStore {
    AccountStore {
        accounts: old.accounts,
        active_account_id: if old.active_account_id is None {
            Some(acc.id)
        } else {
            old.active_account_id
        },
        current_account_id: old.current_account_id,
    }
}

/// Whether `new` is `old` with `acc` appended.
pub open spec fn added(old: AccountStore, new: AccountStore, acc: Account) -> bool {
    &&& new.accounts@ == old.accounts@.push(acc)
    &&& new.active_account_id == store_with_added(old, acc).active_account_id
    &&& new.current_account_id == old.current_account_id
}

/// The text of an optional string, empty where it is absent.
pub open spec fn opt_text(o: Option<String>) -> Seq<char> {
    match o {
        Some(s) => s@,
        None => Seq::<char>::empty(),
    }
}

/// The region written into a login record: "CN" where the account has none.
pub open spec fn login_region(region: Seq<char>) -> Seq<char> {
    if region.len() == 0 {
        "CN"@
    } else {
        region
    }
}

/// Whether `info` is the login record of `account`, carrying `refresh_token`.
pub open spec fn is_login_info_of(
    info: TraeLoginInfo,
    account: Account,
    refresh_token: Option<String>,
) -> bool {
    &&& account.jwt_token matches Some(t) && info.token == t
    &&& info.refresh_token == refresh_token
    &&& info.user_id == account.user_id
    &&& info.email == account.email
    &&& info.username == account.name
    &&& info.avatar_url == account.avatar_url
    &&& info.host@ == Seq::<char>::empty()
    &&& info.region@ == login_region(account.region@)
}

/// What switching the product to an account (or opening a separate instance for it)
/// writes: the account's login record without a refresh token, and its machine code.
pub open spec fn is_switch_login(p: (TraeLoginInfo, Option<String>), account: Account) -> bool {
    is_login_info_of(p.0, account, None) && p.1 == account.machine_id
}

/// The login record of an account that has a token: the account's TRAE user id (not the
/// manager's own account id), token, e-mail, name and avatar, the refresh token given,
/// no host, and the account's region or "CN".
pub fn login_info_of(account: &Account, refresh_token: Option<String>) -> (r: TraeLoginInfo)
    requires
        account.jwt_token is Some,
    ensures
        is_login_info_of(r, *account, refresh_token),
        r.user_id == account.user_id,
        account.jwt_token == Some(r.token),
        r.refresh_token == refresh_token,
        r.email == account.email,
        r.username == account.name,
        r.avatar_url == account.avatar_url,
{
    let token = match &account.jwt_token {
        Some(t) => t.clone(),
        None => String::new(),
    };
    let region = if account.region.as_str().is_empty() {
        "CN".to_string()
    } else {
        account.region.clone()
    };
    TraeLoginInfo {
        token,
        refresh_token,
        user_id: account.user_id.clone(),
        email: account.email.clone(),
        username: account.name.clone(),
        avatar_url: account.avatar_url.clone(),
        host: String::new(),
        region,
    }
}

/// The position of the first account with id `id`.
pub fn index_of_id(accounts: &Vec<Account>, id: &str) -> (r: Option<usize>)
    ensures
        r matches Some(i) ==> find_id(accounts@, id@) == Some(i as int) && i < accounts@.len()
            && accounts@[i as int].id@ == id@,
        r is None ==> find_id(accounts@, id@) is None,
{
    let mut i: usize = 0;
    while i < accounts.len()
        invariant
            i <= accounts@.len(),
            forall|j: int| 0 <= j < i ==> !id_is(id@)(#[trigger] accounts@[j]),
        decreases accounts@.len() - i,
    {
        if str_eq(accounts[i].id.as_str(), id) {
            proof {
                lemma_first_match_at(accounts@, id_is(id@), i as int);
            }
            return Some(i);
        }
        i = i + 1;
    }
    proof {
        lemma_first_match_none(accounts@, id_is(id@));
    }
    None
}

/// Whether one of the first `n` accounts has user id `user_id`.
pub fn has_user_id_among(accounts: &Vec<Account>, n: usize, user_id: &str) -> (r: bool)
    requires
        n <= accounts@.len(),
    ensures
        r == has_user_id(accounts@.subrange(0, n as int), user_id@),
{
    let ghost prefix = accounts@.subrange(0, n as int);
    let mut i: usize = 0;
    while i < n
        invariant
            n <= accounts@.len(),
            prefix == accounts@.subrange(0, n as int),
            i <= n,
            forall|j: int| 0 <= j < i ==> !user_id_is(user_id@)(#[trigger] prefix[j]),
        decreases n - i,
    {
        if str_eq(accounts[i].user_id.as_str(), user_id) {
            proof {
                assert(user_id_is(user_id@)(prefix[i as int]));
                lemma_first_match(prefix, user_id_is(user_id@));
            }
            return true;
        }
        i = i + 1;
    }
    proof {
        lemma_first_match_none(prefix, user_id_is(user_id@));
    }
    false
}


/// The name given to a user that has no screen name: `"User_"` and the first eight
/// bytes of the user id.
pub open spec fn fallback_name(info: TokenUserInfo) -> Seq<char> {
    match info.screen_name {
        Some(n) => n@,
        None => "User_"@ + byte_prefix(info.user_id@, 8),
    }
}

/// Whether `fallback_name` can be formed: a screen name is present, or the user id
/// can be cut after its eighth byte.
pub open spec fn fallback_name_ok(info: TokenUserInfo) -> bool {
    info.screen_name is Some || byte_prefix_ok(info.user_id@, 8)
}

/// The user information that `GetUserInfo` gave with the cookies, where cookies were
/// given and the call answered.
pub open spec fn usable_cookie_info(
    cookies: Option<String>,
    cookie_info: Option<UserInfoResult>,
) -> Option<UserInfoResult> {
    if cookies is Some {
        cookie_info
    } else {
        None
    }
}

/// Whether the browser intercepted a non-empty field (chosen by `field`).
pub open spec fn browser_has(browser: Option<BrowserUserInfo>, field: spec_fn(BrowserUserInfo) -> Seq<char>) -> bool {
    browser matches Some(b) && field(b).len() > 0
}

/// The name of an account added by token, by priority: the screen name the browser
/// intercepted, else the one the token gave, else the one `GetUserInfo` with the
/// cookies gave, else `"User_"` and the first eight bytes of the user id.
pub open spec fn token_login_name(
    info: TokenUserInfo,
    browser: Option<BrowserUserInfo>,
    ci: Option<UserInfoResult>,
) -> Seq<char> {
    if browser_has(browser, |b: BrowserUserInfo| b.screen_name@) {
        browser->Some_0.screen_name@
    } else if info.screen_name is Some {
        info.screen_name->Some_0@
    } else if ci matches Some(c) && c.screen_name@.len() > 0 {
        ci->Some_0.screen_name@
    } else {
        "User_"@ + byte_prefix(info.user_id@, 8)
    }
}

/// The e-mail of an account added by token, by the same priority; empty where none of
/// the three has one.
pub open spec fn token_login_email(
    info: TokenUserInfo,
    browser: Option<BrowserUserInfo>,
    ci: Option<UserInfoResult>,
) -> Seq<char> {
    if browser_has(browser, |b: BrowserUserInfo| b.email@) {
        browser->Some_0.email@
    } else if info.email is Some {
        info.email->Some_0@
    } else if ci is Some {
        opt_text(ci->Some_0.non_plain_text_email)
    } else {
        Seq::<char>::empty()
    }
}

/// The avatar of an account added by token, by the same priority; empty where none of
/// the three has one.
pub open spec fn token_login_avatar(
    info: TokenUserInfo,
    browser: Option<BrowserUserInfo>,
    ci: Option<UserInfoResult>,
) -> Seq<char> {
    if browser_has(browser, |b: BrowserUserInfo| b.avatar_url@) {
        browser->Some_0.avatar_url@
    } else if info.avatar_url is Some {
        info.avatar_url->Some_0@
    } else if ci is Some {
        ci->Some_0.avatar_url@
    } else {
        Seq::<char>::empty()
    }
}

/// Name, e-mail and avatar of an account added by token, each field by the priority
/// browser-intercepted information, then the token's, then that of `GetUserInfo` with
/// the cookies.
pub open spec fn token_login_identity(
    info: TokenUserInfo,
    cookies: Option<String>,
    browser: Option<BrowserUserInfo>,
    cookie_info: Option<UserInfoResult>,
) -> (Seq<char>, Seq<char>, Seq<char>) {
    let ci = usable_cookie_info(cookies, cookie_info);
    (token_login_name(info, browser, ci), token_login_email(info, browser, ci), token_login_avatar(info, browser, ci))
}

/// Whether the name of an account added by token falls back to the user id: neither
/// the browser, nor the token, nor `GetUserInfo` with the cookies gave a screen name.
pub open spec fn token_login_uses_fallback(
    info: TokenUserInfo,
    cookies: Option<String>,
    browser: Option<BrowserUserInfo>,
    cookie_info: Option<UserInfoResult>,
) -> bool {
    &&& !browser_has(browser, |b: BrowserUserInfo| b.screen_name@)
    &&& info.screen_name is None
    &&& !(usable_cookie_info(cookies, cookie_info) matches Some(c) && c.screen_name@.len() > 0)
}

/// Whether `GetUserInfo` with the cookies can decide a field of an account added by
/// token: cookies were given, and some field is given neither by the browser nor by
/// the token.
pub open spec fn token_login_wants_cookie_info(
    info: TokenUserInfo,
    cookies: Option<String>,
    browser: Option<BrowserUserInfo>,
) -> bool {
    &&& cookies is Some
    &&& {
        ||| !browser_has(browser, |b: BrowserUserInfo| b.screen_name@) && info.screen_name is None
        ||| !browser_has(browser, |b: BrowserUserInfo| b.email@) && info.email is None
        ||| !browser_has(browser, |b: BrowserUserInfo| b.avatar_url@) && info.avatar_url is None
    }
}

/// Tells whether the user information that `GetUserInfo` gives with the cookies is
/// needed to add an account by token (see [`token_login_wants_cookie_info`]).
pub fn wants_cookie_info(
    info: &TokenUserInfo,
    cookies: &Option<String>,
    browser: &Option<BrowserUserInfo>,
) -> (r: bool)
    ensures
        r == token_login_wants_cookie_info(*info, *cookies, *browser),
{
    if cookies.is_none() {
        return false;
    }
    let (has_name, has_email, has_avatar) = match browser {
        Some(b) => (!b.screen_name.as_str().is_empty(), !b.email.as_str().is_empty(), !b.avatar_url.as_str().is_empty()),
        None => (false, false, false),
    };
    (!has_name && info.screen_name.is_none()) || (!has_email && info.email.is_none()) || (!has_avatar
        && info.avatar_url.is_none())
}

/// Tells whether the name of an account added by token falls back to the user id (see
/// [`token_login_uses_fallback`]); then the user id must be cut after its eighth byte.
pub fn uses_fallback_name(
    info: &TokenUserInfo,
    cookies: &Option<String>,
    browser: &Option<BrowserUserInfo>,
    cookie_info: &Option<UserInfoResult>,
) -> (r: bool)
    ensures
        r == token_login_uses_fallback(*info, *cookies, *browser, *cookie_info),
{
    let browser_named = match browser {
        Some(b) => !b.screen_name.as_str().is_empty(),
        None => false,
    };
    let cookie_named = match (cookies, cookie_info) {
        (Some(_), Some(c)) => !c.screen_name.as_str().is_empty(),
        _ => false,
    };
    !browser_named && info.screen_name.is_none() && !cookie_named
}

/// The local login record of the product, as read from its `storage.json`.
#[derive(Debug, Clone, PartialEq, Eq)]
pub struct LocalLogin {
    pub token: String,
    pub user_id: String,
    pub email: String,
    pub avatar_url: String,
    pub username: String,
    /// The record's `storeRegion`, where it has one.
    pub store_region: Option<String>,
}

/// The text of `o`, or of `default` where `o` is absent.
pub open spec fn text_or(o: Option<String>, default: Seq<char>) -> Seq<char> {
    match o {
        Some(s) => s@,
        None => default,
    }
}

/// The account at position `i` with its note replaced and its update time set.
pub open spec fn with_note(a: Account, note: Option<String>, now: i64) -> Account {
    Account { note: note, updated_at: now, ..a }
}

/// Whether `new` holds the same accounts as `old` but for position `i`, which holds `a`.
pub open spec fn replaced_at(old: AccountStore, new: AccountStore, i: int, a: Account) -> bool {
    &&& new.accounts@ == old.accounts@.update(i, a)
    &&& new.active_account_id == old.active_account_id
    &&& new.current_account_id == old.current_account_id
}

/// The text of an optional string, or empty.
fn opt_or_empty(o: &Option<String>) -> (r: String)
    ensures
        r@ == opt_text(*o),
{
    match o {
        Some(s) => s.clone(),
        None => String::new(),
    }
}

/// The name of a user without a screen name: `"User_"` and the first eight bytes of
/// the user id; the screen name where there is one.
pub fn fallback_name_of(info: &TokenUserInfo) -> (r: String)
    requires
        fallback_name_ok(*info),
    ensures
        r@ == fallback_name(*info),
{
    match &info.screen_name {
        Some(n) => n.clone(),
        None => {
            let p = utf8_prefix(info.user_id.as_str(), 8);
            concat("User_", p.as_str())
        },
    }
}

/// The imported accounts that a merging import keeps, in their order: each whose user
/// id neither a stored account nor an imported account kept before it has.
pub open spec fn merged_in(existing: Seq<Account>, imported: Seq<Account>) -> Seq<Account>
    decreases imported.len(),
{
    if imported.len() == 0 {
        Seq::<Account>::empty()
    } else {
        let prev = merged_in(existing, imported.drop_last());
        if has_user_id(existing + prev, imported.last().user_id@) {
            prev
        } else {
            prev.push(imported.last())
        }
    }
}

/// Appending an account whose user id is not stored keeps user ids unique.
pub proof fn lemma_push_unique(s: Seq<Account>, a: Account)
    requires
        user_ids_unique(s),
        !has_user_id(s, a.user_id@),
    ensures
        user_ids_unique(s.push(a)),
{
    let t = s.push(a);
    assert forall|i: int, j: int|
        0 <= i < t.len() && 0 <= j < t.len() && i != j implies #[trigger] t[i].user_id@
            != #[trigger] t[j].user_id@ by {
        if i < s.len() && j < s.len() {
            assert(t[i] == s[i] && t[j] == s[j]);
        } else {
            let k = if i < s.len() { i } else { j };
            assert(t[k] == s[k]);
            if s[k].user_id@ == a.user_id@ {
                lemma_has_user_id(s, a.user_id@, k);
            }
        }
    }
}

/// A merging import keeps user ids unique where they were unique before.
pub proof fn lemma_merged_unique(existing: Seq<Account>, imported: Seq<Account>)
    requires
        user_ids_unique(existing),
    ensures
        user_ids_unique(existing + merged_in(existing, imported)),
    decreases imported.len(),
{
    if imported.len() == 0 {
        assert(existing + merged_in(existing, imported) =~= existing);
    } else {
        let prev = merged_in(existing, imported.drop_last());
        lemma_merged_unique(existing, imported.drop_last());
        let a = imported.last();
        if !has_user_id(existing + prev, a.user_id@) {
            lemma_push_unique(existing + prev, a);
            assert(existing + prev.push(a) =~= (existing + prev).push(a));
        }
    }
}

/// Appending keeps every stored user id.
pub proof fn lemma_has_user_id_push(s: Seq<Account>, a: Account, user_id: Seq<char>)
    requires
        has_user_id(s, user_id),
    ensures
        has_user_id(s.push(a), user_id),
{
    lemma_has_user_id_witness(s, user_id);
    let k = choose|k: int| 0 <= k < s.len() && #[trigger] s[k].user_id@ == user_id;
    assert(s.push(a)[k] == s[k]);
    lemma_has_user_id(s.push(a), user_id, k);
}

/// How the application reaches the usage of an account.
#[derive(Debug, Clone, PartialEq, Eq)]
pub enum UsageSource {
    /// Through the token.
    Token(String),
    /// Through the cookies.
    Cookies(String),
}

/// Whether the instant `(secs, nanos)` comes before `(b_secs, b_nanos)`.
pub open spec fn instant_before(a: (i64, u32), b_secs: int, b_nanos: u32) -> bool {
    a.0 < b_secs || (a.0 == b_secs && a.1 < b_nanos)
}

/// Whether an account's token expires within the hour after `now` (or has expired):
/// true where no expiry is known or it cannot be read. The expiry is RFC 3339 text or
/// a count of seconds since the Unix epoch.
pub open spec fn token_expiring_soon(a: Account, now_secs: i64, now_nanos: u32) -> bool {
    match a.token_expired_at {
        None => true,
        Some(e) => match rfc3339_instant(e@) {
            Some(t) => instant_before(t, now_secs + 3600, now_nanos),
            None => match parse_i64_spec(e@) {
                Some(ts) => ts < now_secs + 3600,
                None => true,
            },
        },
    }
}

/// The predicate "has cookies, and its token expires within the hour".
pub open spec fn needs_refresh(now_secs: i64, now_nanos: u32) -> spec_fn(Account) -> bool {
    |a: Account| a.cookies@.len() > 0 && token_expiring_soon(a, now_secs, now_nanos)
}

/// Whether an account's token expires within the hour after the instant
/// `(now_secs, now_nanos)`.
pub fn is_token_expiring_soon(account: &Account, now_secs: i64, now_nanos: u32) -> (r: bool)
    requires
        now_secs <= i64::MAX - 3600,
    ensures
        r == token_expiring_soon(*account, now_secs, now_nanos),
{
    match &account.token_expired_at {
        None => true,
        Some(expired_at) => match parse_rfc3339(expired_at.as_str()) {
            Some((secs, nanos)) => {
                let limit = now_secs + 3600;
                secs < limit || (secs == limit && nanos < now_nanos)
            },
            None => match parse_i64(expired_at.as_str()) {
                Some(ts) => ts < now_secs + 3600,
                None => true,
            },
        },
    }
}

/// Whether the active account id, where there is one, names a stored account.
pub open spec fn active_valid(s: AccountStore) -> bool {
    s.active_account_id matches Some(a) ==> find_id(s.accounts@, a@) is Some
}

/// Whether no two accounts share a user id.
pub open spec fn user_ids_unique(accounts: Seq<Account>) -> bool {
    forall|i: int, j: int|
        0 <= i < accounts.len() && 0 <= j < accounts.len() && i != j ==> #[trigger] accounts[i].user_id@
            != #[trigger] accounts[j].user_id@
}

/// Whether no two accounts share an id.
pub open spec fn ids_unique(accounts: Seq<Account>) -> bool {
    forall|i: int, j: int|
        0 <= i < accounts.len() && 0 <= j < accounts.len() && i != j ==> #[trigger] accounts[i].id@
            != #[trigger] accounts[j].id@
}

/// An account with the id at position `k` makes `find_id` succeed.
pub proof fn lemma_find_id_some(s: Seq<Account>, id: Seq<char>, k: int)
    requires
        0 <= k < s.len(),
        s[k].id@ == id,
    ensures
        find_id(s, id) is Some,
{
    lemma_first_match(s, id_is(id));
    if find_id(s, id) is None {
        assert(!id_is(id)(s[k]));
    }
}

/// An account with the user id at position `k` makes `has_user_id` hold.
pub proof fn lemma_has_user_id(s: Seq<Account>, user_id: Seq<char>, k: int)
    requires
        0 <= k < s.len(),
        s[k].user_id@ == user_id,
    ensures
        has_user_id(s, user_id),
{
    lemma_first_match(s, user_id_is(user_id));
    if !has_user_id(s, user_id) {
        assert(!user_id_is(user_id)(s[k]));
    }
}

/// `has_user_id` holds exactly when some account has the user id.
pub proof fn lemma_has_user_id_witness(s: Seq<Account>, user_id: Seq<char>)
    ensures
        has_user_id(s, user_id) <==> exists|k: int| 0 <= k < s.len() && #[trigger] s[k].user_id@ == user_id,
{
    lemma_first_match(s, user_id_is(user_id));
    if has_user_id(s, user_id) {
        let k = first_match(s, user_id_is(user_id))->Some_0;
        assert(s[k].user_id@ == user_id);
    }
    if exists|k: int| 0 <= k < s.len() && #[trigger] s[k].user_id@ == user_id {
        let k = choose|k: int| 0 <= k < s.len() && #[trigger] s[k].user_id@ == user_id;
        lemma_has_user_id(s, user_id, k);
    }
}

/// Appending an account keeps the active id valid, and keeps user ids unique where the
/// new account's user id was not stored.
proof fn lemma_added_keeps(old: AccountStore, new: AccountStore, acc: Account)
    requires
        added(old, new, acc),
    ensures
        active_valid(old) ==> active_valid(new),
        user_ids_unique(old.accounts@) && !has_user_id(old.accounts@, acc.user_id@)
            ==> user_ids_unique(new.accounts@),
{
    let n = old.accounts@.len();
    if let Some(a) = new.active_account_id {
        if old.active_account_id is None {
            lemma_find_id_some(new.accounts@, a@, n as int);
        } else if active_valid(old) {
            lemma_first_match(old.accounts@, id_is(a@));
            let k = find_id(old.accounts@, a@)->Some_0;
            assert(new.accounts@[k] == old.accounts@[k]);
            lemma_find_id_some(new.accounts@, a@, k);
        }
    }
    if user_ids_unique(old.accounts@) && !has_user_id(old.accounts@, acc.user_id@) {
        assert forall|i: int, j: int|
            0 <= i < new.accounts@.len() && 0 <= j < new.accounts@.len() && i != j implies #[trigger] new.accounts@[i].user_id@
                != #[trigger] new.accounts@[j].user_id@ by {
            if i == n {
                if new.accounts@[j].user_id@ == acc.user_id@ {
                    lemma_has_user_id(old.accounts@, acc.user_id@, j);
                }
            } else if j == n {
                if new.accounts@[i].user_id@ == acc.user_id@ {
                    lemma_has_user_id(old.accounts@, acc.user_id@, i);
                }
            } else {
                assert(new.accounts@[i] == old.accounts@[i]);
                assert(new.accounts@[j] == old.accounts@[j]);
            }
        }
    }
}

/// Replacing an account by one with the same id and user id keeps the active id valid
/// and user ids unique.
proof fn lemma_replaced_keeps(old: AccountStore, new: AccountStore, i: int, a: Account)
    requires
        0 <= i < old.accounts@.len(),
        replaced_at(old, new, i, a),
        a.id == old.accounts@[i].id,
        a.user_id == old.accounts@[i].user_id,
    ensures
        active_valid(old) ==> active_valid(new),
        user_ids_unique(old.accounts@) ==> user_ids_unique(new.accounts@),
{
    if let Some(x) = old.active_account_id {
        if active_valid(old) {
            lemma_first_match(old.accounts@, id_is(x@));
            let k = find_id(old.accounts@, x@)->Some_0;
            assert(new.accounts@[k].id@ == x@);
            lemma_find_id_some(new.accounts@, x@, k);
        }
    }
    if user_ids_unique(old.accounts@) {
        assert forall|p: int, q: int|
            0 <= p < new.accounts@.len() && 0 <= q < new.accounts@.len() && p != q implies #[trigger] new.accounts@[p].user_id@
                != #[trigger] new.accounts@[q].user_id@ by {
            assert(new.accounts@[p].user_id == old.accounts@[p].user_id);
            assert(new.accounts@[q].user_id == old.accounts@[q].user_id);
        }
    }
}

/// The account manager.
pub struct AccountManager {
    pub store: AccountStore,
}

impl AccountManager {
    /// A manager over a store read by the application.
    pub fn new(store: AccountStore) -> (r: AccountManager)
        ensures
            r.store == store,
    {
        AccountManager { store }
    }

    /// Removes the first account with id `account_id`. Where it was the active account,
    /// the first remaining account (if any) becomes active.
    pub fn remove_account(&mut self, account_id: &str) -> (r: Result<(), AccountError>)
        ensures
            find_id(old(self).store.accounts@, account_id@) is None ==> r == Err::<(), AccountError>(
                AccountError::NotFound,
            ) && *final(self) == *old(self),
            find_id(old(self).store.accounts@, account_id@) matches Some(i) ==> {
                &&& r is Ok
                &&& final(self).store.accounts@ == old(self).store.accounts@.remove(i)
                &&& final(self).store.current_account_id == old(self).store.current_account_id
                &&& final(self).store.active_account_id == if old(self).store.active_account_id matches Some(a) && a@ == account_id@ {
                    first_id(final(self).store.accounts@)
                } else {
                    old(self).store.active_account_id
                }
            },
            active_valid(old(self).store) ==> active_valid(final(self).store),
            user_ids_unique(old(self).store.accounts@) ==> user_ids_unique(final(self).store.accounts@),
    {
        let index = match index_of_id(&self.store.accounts, account_id) {
            Some(i) => i,
            None => return Err(AccountError::NotFound),
        };
        self.store.accounts.remove(index);
        let was_active = match &self.store.active_account_id {
            Some(a) => str_eq(a.as_str(), account_id),
            None => false,
        };
        if was_active {
            self.store.active_account_id = if self.store.accounts.len() == 0 {
                None
            } else {
                Some(self.store.accounts[0].id.clone())
            };
        }
        proof {
            let olds = old(self).store.accounts@;
            let news = self.store.accounts@;
            let act = self.store.active_account_id;
            if let Some(a) = act {
                if was_active {
                    lemma_find_id_some(news, a@, 0);
                } else if active_valid(old(self).store) {
                    lemma_first_match(olds, id_is(a@));
                    let k = find_id(olds, a@)->Some_0;
                    assert(k != index);
                    let k2 = if k < index { k } else { k - 1 };
                    assert(news[k2] == olds[k]);
                    lemma_find_id_some(news, a@, k2);
                }
            }
        }
        Ok(())
    }

    /// Makes the account with id `account_id` the active one.
    pub fn set_active_account(&mut self, account_id: &str) -> (r: Result<(), AccountError>)
        ensures
            find_id(old(self).store.accounts@, account_id@) is None ==> r == Err::<(), AccountError>(
                AccountError::NotFound,
            ) && *final(self) == *old(self),
            find_id(old(self).store.accounts@, account_id@) is Some ==> {
                &&& r is Ok
                &&& final(self).store.accounts == old(self).store.accounts
                &&& final(self).store.current_account_id == old(self).store.current_account_id
                &&& final(self).store.active_account_id matches Some(a) && a@ == account_id@
            },
            active_valid(old(self).store) ==> active_valid(final(self).store),
            user_ids_unique(old(self).store.accounts@) ==> user_ids_unique(final(self).store.accounts@),
    {
        if index_of_id(&self.store.accounts, account_id).is_none() {
            return Err(AccountError::NotFound);
        }
        self.store.active_account_id = Some(account_id.to_owned());
        Ok(())
    }

    /// The brief of every account, in order; exactly those whose id is the current
    /// account id are marked current.
    pub fn get_accounts(&self) -> (r: Vec<AccountBrief>)
        ensures
            r@.len() == self.store.accounts@.len(),
            forall|i: int|
                0 <= i < r@.len() ==> #[trigger] r@[i].is_brief_of(
                    self.store.accounts@[i],
                    names_id(self.store.current_account_id, self.store.accounts@[i].id@),
                ),
    {
        let mut r: Vec<AccountBrief> = Vec::new();
        let mut i: usize = 0;
        while i < self.store.accounts.len()
            invariant
                i <= self.store.accounts@.len(),
                r@.len() == i,
                forall|k: int|
                    0 <= k < i ==> #[trigger] r@[k].is_brief_of(
                        self.store.accounts@[k],
                        names_id(self.store.current_account_id, self.store.accounts@[k].id@),
                    ),
            decreases self.store.accounts@.len() - i,
        {
            let account = &self.store.accounts[i];
            let is_current = match &self.store.current_account_id {
                Some(c) => str_eq(c.as_str(), account.id.as_str()),
                None => false,
            };
            r.push(AccountBrief::from_account(account, is_current));
            i = i + 1;
        }
        r
    }

    /// The active account, if the active id names a stored account.
    pub fn get_active_account(&self) -> (r: Option<&Account>)
        ensures
            match self.store.active_account_id {
                None => r is None,
                Some(id) => match find_id(self.store.accounts@, id@) {
                    Some(i) => r matches Some(a) && *a == self.store.accounts@[i],
                    None => r is None,
                },
            },
    {
        match &self.store.active_account_id {
            None => None,
            Some(id) => match index_of_id(&self.store.accounts, id.as_str()) {
                Some(i) => Some(&self.store.accounts[i]),
                None => None,
            },
        }
    }

    /// The first account with id `account_id`, or `None`.
    pub fn get_account_ref(&self, account_id: &str) -> (r: Option<&Account>)
        ensures
            match find_id(self.store.accounts@, account_id@) {
                Some(i) => r matches Some(a) && *a == self.store.accounts@[i],
                None => r is None,
            },
    {
        match index_of_id(&self.store.accounts, account_id) {
            Some(i) => Some(&self.store.accounts[i]),
            None => None,
        }
    }

    /// A copy of the first account with id `account_id`.
    pub fn get_account(&self, account_id: &str) -> (r: Result<Account, AccountError>)
        ensures
            match find_id(self.store.accounts@, account_id@) {
                Some(i) => r == Ok::<Account, AccountError>(self.store.accounts@[i]),
                None => r == Err::<Account, AccountError>(AccountError::NotFound),
            },
    {
        match index_of_id(&self.store.accounts, account_id) {
            Some(i) => Ok(self.store.accounts[i].copy()),
            None => Err(AccountError::NotFound),
        }
    }

    /// Replaces the account at position `i`.
    fn replace_account(&mut self, i: usize, a: Account)
        requires
            i < old(self).store.accounts@.len(),
            a.id == old(self).store.accounts@[i as int].id,
            a.user_id == old(self).store.accounts@[i as int].user_id,
        ensures
            replaced_at(old(self).store, final(self).store, i as int, a),
            active_valid(old(self).store) ==> active_valid(final(self).store),
            user_ids_unique(old(self).store.accounts@) ==> user_ids_unique(final(self).store.accounts@),
    {
        self.store.accounts.set(i, a);
        proof {
            lemma_replaced_keeps(old(self).store, self.store, i as int, a);
        }
    }

    /// Appends `account`; it becomes the active account where none was.
    fn push_account(&mut self, account: Account)
        ensures
            added(old(self).store, final(self).store, account),
            active_valid(old(self).store) ==> active_valid(final(self).store),
            user_ids_unique(old(self).store.accounts@) && !has_user_id(
                old(self).store.accounts@,
                account.user_id@,
            ) ==> user_ids_unique(final(self).store.accounts@),
    {
        let ghost acc = account;
        let id = account.id.clone();
        self.store.accounts.push(account);
        if self.store.active_account_id.is_none() {
            self.store.active_account_id = Some(id);
        }
        proof {
            lemma_added_keeps(old(self).store, self.store, acc);
        }
    }

    /// The first account with user id `user_id`, if any.
    pub fn find_account_by_user_id(&self, user_id: &str) -> (r: Option<&Account>)
        ensures
            match first_match(self.store.accounts@, user_id_is(user_id@)) {
                Some(i) => r matches Some(a) && *a == self.store.accounts@[i],
                None => r is None,
            },
    {
        let mut i: usize = 0;
        while i < self.store.accounts.len()
            invariant
                i <= self.store.accounts@.len(),
                forall|j: int|
                    0 <= j < i ==> !user_id_is(user_id@)(#[trigger] self.store.accounts@[j]),
            decreases self.store.accounts@.len() - i,
        {
            if str_eq(self.store.accounts[i].user_id.as_str(), user_id) {
                proof {
                    lemma_first_match_at(self.store.accounts@, user_id_is(user_id@), i as int);
                }
                return Some(&self.store.accounts[i]);
            }
            i = i + 1;
        }
        proof {
            lemma_first_match_none(self.store.accounts@, user_id_is(user_id@));
        }
        None
    }

    /// Whether some stored account has user id `user_id`.
    pub fn has_user(&self, user_id: &str) -> (r: bool)
        ensures
            r == has_user_id(self.store.accounts@, user_id@),
    {
        self.find_account_by_user_id(user_id).is_some()
    }

    /// Adds an account from cookies, given the answers of `GetUserToken` and
    /// `GetUserInfo`; refused where an account with the token's user id exists.
    pub fn add_account(
        &mut self,
        cookies: String,
        token: UserTokenResult,
        info: UserInfoResult,
        id: String,
        now: i64,
    ) -> (r: Result<Account, AccountError>)
        ensures
            has_user_id(old(self).store.accounts@, token.user_id@) ==> r == Err::<Account, AccountError>(
                AccountError::AlreadyExists,
            ) && *final(self) == *old(self),
            !has_user_id(old(self).store.accounts@, token.user_id@) ==> (r matches Ok(a) && added(
                old(self).store,
                final(self).store,
                a,
            ) && a@ == (AccountView {
                avatar_url: info.avatar_url@,
                region: info.region@,
                jwt_token: Some(token.token@),
                token_expired_at: Some(token.expired_at@),
                ..new_account_view(
                    id@,
                    info.screen_name@,
                    opt_text(info.non_plain_text_email),
                    cookies@,
                    token.user_id@,
                    token.tenant_id@,
                    now,
                )
            })),
            active_valid(old(self).store) ==> active_valid(final(self).store),
            user_ids_unique(old(self).store.accounts@) ==> user_ids_unique(final(self).store.accounts@),
    {
        if self.has_user(token.user_id.as_str()) {
            return Err(AccountError::AlreadyExists);
        }
        let email = opt_or_empty(&info.non_plain_text_email);
        let mut account = Account::new(
            id,
            info.screen_name,
            email,
            cookies,
            token.user_id,
            token.tenant_id,
            now,
        );
        account.avatar_url = info.avatar_url;
        account.region = info.region;
        account.jwt_token = Some(token.token);
        account.token_expired_at = Some(token.expired_at);
        let result = account.copy();
        self.push_account(account);
        Ok(result)
    }

    /// Adds an account from a token, given what the token tells of its user
    /// (`user_info`) and, where the application asked `GetUserInfo` with the cookies
    /// and it answered, that answer (`cookie_info`). Refused where an account with the
    /// user id exists. Name, e-mail and avatar each come from what the browser
    /// intercepted where it has them, else from the token's information, else from the
    /// cookies' answer.
    pub fn add_account_by_token(
        &mut self,
        token: String,
        cookies: Option<String>,
        source: String,
        browser_user_info: Option<BrowserUserInfo>,
        user_info: TokenUserInfo,
        cookie_info: Option<UserInfoResult>,
        refresh_token: Option<String>,
        id: String,
        now: i64,
    ) -> (r: Result<Account, AccountError>)
        requires
            !has_user_id(old(self).store.accounts@, user_info.user_id@) && token_login_uses_fallback(
                user_info,
                cookies,
                browser_user_info,
                cookie_info,
            ) ==> byte_prefix_ok(user_info.user_id@, 8),
        ensures
            has_user_id(old(self).store.accounts@, user_info.user_id@) ==> r == Err::<
                Account,
                AccountError,
            >(AccountError::AlreadyExists) && *final(self) == *old(self),
            !has_user_id(old(self).store.accounts@, user_info.user_id@) ==> (r matches Ok(a) && added(
                old(self).store,
                final(self).store,
                a,
            ) && ({
                let (name, email, avatar) = token_login_identity(
                    user_info,
                    cookies,
                    browser_user_info,
                    cookie_info,
                );
                a@ == AccountView {
                    avatar_url: avatar,
                    jwt_token: Some(token@),
                    source: source@,
                    refresh_token: opt_view(refresh_token),
                    ..new_account_view(
                        id@,
                        name,
                        email,
                        opt_text(cookies),
                        user_info.user_id@,
                        user_info.tenant_id@,
                        now,
                    )
                }
            })),
            active_valid(old(self).store) ==> active_valid(final(self).store),
            user_ids_unique(old(self).store.accounts@) ==> user_ids_unique(final(self).store.accounts@),
    {
        if self.has_user(user_info.user_id.as_str()) {
            return Err(AccountError::AlreadyExists);
        }
        let ci: Option<UserInfoResult> = if cookies.is_some() {
            cookie_info
        } else {
            None
        };
        let browser_name = match &browser_user_info {
            Some(b) => !b.screen_name.as_str().is_empty(),
            None => false,
        };
        let browser_email = match &browser_user_info {
            Some(b) => !b.email.as_str().is_empty(),
            None => false,
        };
        let browser_avatar = match &browser_user_info {
            Some(b) => !b.avatar_url.as_str().is_empty(),
            None => false,
        };
        let name: String = if browser_name {
            browser_user_info.as_ref().unwrap().screen_name.clone()
        } else {
            match &user_info.screen_name {
                Some(n) => n.clone(),
                None => match &ci {
                    Some(c) => if !c.screen_name.as_str().is_empty() {
                        c.screen_name.clone()
                    } else {
                        fallback_name_of(&user_info)
                    },
                    None => fallback_name_of(&user_info),
                },
            }
        };
        let email: String = if browser_email {
            browser_user_info.as_ref().unwrap().email.clone()
        } else {
            match &user_info.email {
                Some(e) => e.clone(),
                None => match &ci {
                    Some(c) => opt_or_empty(&c.non_plain_text_email),
                    None => String::new(),
                },
            }
        };
        let avatar_url: String = if browser_avatar {
            browser_user_info.as_ref().unwrap().avatar_url.clone()
        } else {
            match &user_info.avatar_url {
                Some(a) => a.clone(),
                None => match &ci {
                    Some(c) => c.avatar_url.clone(),
                    None => String::new(),
                },
            }
        };
        let cookie_text = opt_or_empty(&cookies);
        let mut account = Account::new(
            id,
            name,
            email,
            cookie_text,
            user_info.user_id,
            user_info.tenant_id,
            now,
        );
        account.avatar_url = avatar_url;
        account.jwt_token = Some(token);
        account.token_expired_at = None;
        account.source = source;
        account.refresh_token = refresh_token;
        let result = account.copy();
        self.push_account(account);
        Ok(result)
    }

    /// Adds the account that the product's own login record names, given what the
    /// token tells of its user. Nothing is added (and `None` returned) where an account
    /// with that user id exists. Name, e-mail and avatar come from the record where it
    /// has them, else from the token's information; the region is the record's
    /// `storeRegion`, or "CN".
    pub fn read_solo_cn_account(
        &mut self,
        login: LocalLogin,
        user_info: TokenUserInfo,
        id: String,
        now: i64,
    ) -> (r: Option<Account>)
        requires
            !has_user_id(old(self).store.accounts@, login.user_id@) && login.username@.len() == 0 ==> (
            user_info.screen_name is Some || byte_prefix_ok(login.user_id@, 8)),
        ensures
            has_user_id(old(self).store.accounts@, login.user_id@) ==> r is None && *final(self)
                == *old(self),
            !has_user_id(old(self).store.accounts@, login.user_id@) ==> (r matches Some(a) && added(
                old(self).store,
                final(self).store,
                a,
            ) && a@ == (AccountView {
                avatar_url: if login.avatar_url@.len() == 0 {
                    opt_text(user_info.avatar_url)
                } else {
                    login.avatar_url@
                },
                jwt_token: Some(login.token@),
                source: "local"@,
                region: text_or(login.store_region, "CN"@),
                ..new_account_view(
                    id@,
                    if login.username@.len() == 0 {
                        text_or(user_info.screen_name, "User_"@ + byte_prefix(login.user_id@, 8))
                    } else {
                        login.username@
                    },
                    if login.email@.len() == 0 {
                        opt_text(user_info.email)
                    } else {
                        login.email@
                    },
                    Seq::<char>::empty(),
                    login.user_id@,
                    user_info.tenant_id@,
                    now,
                )
            })),
            active_valid(old(self).store) ==> active_valid(final(self).store),
            user_ids_unique(old(self).store.accounts@) ==> user_ids_unique(final(self).store.accounts@),
    {
        if self.has_user(login.user_id.as_str()) {
            return None;
        }
        let name = if login.username.as_str().is_empty() {
            match &user_info.screen_name {
                Some(n) => n.clone(),
                None => {
                    let p = utf8_prefix(login.user_id.as_str(), 8);
                    concat("User_", p.as_str())
                },
            }
        } else {
            login.username
        };
        let email = if login.email.as_str().is_empty() {
            opt_or_empty(&user_info.email)
        } else {
            login.email
        };
        let avatar_url = if login.avatar_url.as_str().is_empty() {
            opt_or_empty(&user_info.avatar_url)
        } else {
            login.avatar_url
        };
        let region = match login.store_region {
            Some(r) => r,
            None => "CN".to_string(),
        };
        let mut account = Account::new(
            id,
            name,
            email,
            String::new(),
            login.user_id,
            user_info.tenant_id,
            now,
        );
        account.avatar_url = avatar_url;
        account.jwt_token = Some(login.token);
        account.source = "local".to_string();
        account.region = region;
        let result = account.copy();
        self.push_account(account);
        Some(result)
    }

    /// Adds an account from a login found in an instance's data directory, without
    /// asking the API: source "local", named by the username, or `"User_"` and the first
    /// eight bytes of the user id. Refused where an account with the user id exists.
    pub fn add_account_from_local_login(
        &mut self,
        user_id: String,
        tenant_id: String,
        token: String,
        refresh_token: Option<String>,
        email: String,
        username: String,
        avatar_url: String,
        region: String,
        id: String,
        now: i64,
    ) -> (r: Result<Account, AccountError>)
        requires
            !has_user_id(old(self).store.accounts@, user_id@) && username@.len() == 0 ==> byte_prefix_ok(
                user_id@,
                8,
            ),
        ensures
            has_user_id(old(self).store.accounts@, user_id@) ==> r == Err::<Account, AccountError>(
                AccountError::AlreadyExists,
            ) && *final(self) == *old(self),
            !has_user_id(old(self).store.accounts@, user_id@) ==> (r matches Ok(a) && added(
                old(self).store,
                final(self).store,
                a,
            ) && a@ == (AccountView {
                avatar_url: avatar_url@,
                jwt_token: Some(token@),
                refresh_token: opt_view(refresh_token),
                source: "local"@,
                region: region@,
                ..new_account_view(
                    id@,
                    if username@.len() == 0 {
                        "User_"@ + byte_prefix(user_id@, 8)
                    } else {
                        username@
                    },
                    email@,
                    Seq::<char>::empty(),
                    user_id@,
                    tenant_id@,
                    now,
                )
            })),
            active_valid(old(self).store) ==> active_valid(final(self).store),
            user_ids_unique(old(self).store.accounts@) ==> user_ids_unique(final(self).store.accounts@),
    {
        if self.has_user(user_id.as_str()) {
            return Err(AccountError::AlreadyExists);
        }
        let name = if username.as_str().is_empty() {
            let p = utf8_prefix(user_id.as_str(), 8);
            concat("User_", p.as_str())
        } else {
            username
        };
        let mut account = Account::new(id, name, email, String::new(), user_id, tenant_id, now);
        account.avatar_url = avatar_url;
        account.jwt_token = Some(token);
        account.refresh_token = refresh_token;
        account.source = "local".to_string();
        account.region = region;
        let result = account.copy();
        self.push_account(account);
        Ok(result)
    }

    /// The login record for switching the product to the account with id `account_id`,
    /// and the account's machine code.
    pub fn switch_account_login(&self, account_id: &str) -> (r: Result<
        (TraeLoginInfo, Option<String>),
        AccountError,
    >)
        ensures
            match find_id(self.store.accounts@, account_id@) {
                None => r == Err::<(TraeLoginInfo, Option<String>), AccountError>(
                    AccountError::NotFound,
                ),
                Some(i) => {
                    let a = self.store.accounts@[i];
                    if a.jwt_token is None {
                        r == Err::<(TraeLoginInfo, Option<String>), AccountError>(
                            AccountError::NoTokenForSwitch,
                        )
                    } else {
                        r matches Ok(p) && is_switch_login(p, a)
                    }
                },
            },
    {
        let i = match index_of_id(&self.store.accounts, account_id) {
            Some(i) => i,
            None => return Err(AccountError::NotFound),
        };
        let account = &self.store.accounts[i];
        if account.jwt_token.is_none() {
            return Err(AccountError::NoTokenForSwitch);
        }
        Ok((login_info_of(account, None), copy_opt(&account.machine_id)))
    }

    /// Records that the product now runs as the account with id `account_id`: it becomes
    /// both the active and the current account.
    pub fn switch_account(&mut self, account_id: &str)
        ensures
            final(self).store.accounts == old(self).store.accounts,
            names_id(final(self).store.active_account_id, account_id@),
            names_id(final(self).store.current_account_id, account_id@),
            find_id(old(self).store.accounts@, account_id@) is Some ==> active_valid(final(self).store),
    {
        self.store.active_account_id = Some(account_id.to_owned());
        self.store.current_account_id = Some(account_id.to_owned());
        proof {
            if find_id(self.store.accounts@, account_id@) is Some {
                let a = self.store.active_account_id->Some_0;
                assert(a@ == account_id@);
            }
        }
    }

    /// The login record (whose user id names the account's own data directory) and the
    /// machine code for launching a separate instance for the account with id
    /// `account_id`.
    pub fn launch_account_multi_login(&self, account_id: &str) -> (r: Result<
        (TraeLoginInfo, Option<String>),
        AccountError,
    >)
        ensures
            match find_id(self.store.accounts@, account_id@) {
                None => r == Err::<(TraeLoginInfo, Option<String>), AccountError>(
                    AccountError::NotFound,
                ),
                Some(i) => {
                    let a = self.store.accounts@[i];
                    if a.jwt_token is None {
                        r == Err::<(TraeLoginInfo, Option<String>), AccountError>(
                            AccountError::NoTokenForMulti,
                        )
                    } else {
                        r matches Ok(p) && is_switch_login(p, a)
                    }
                },
            },
    {
        let i = match index_of_id(&self.store.accounts, account_id) {
            Some(i) => i,
            None => return Err(AccountError::NotFound),
        };
        let account = &self.store.accounts[i];
        if account.jwt_token.is_none() {
            return Err(AccountError::NoTokenForMulti);
        }
        Ok((login_info_of(account, None), copy_opt(&account.machine_id)))
    }

    /// Records the data directory of a launched separate instance on the account with id
    /// `account_id`, where none was recorded yet; tells whether it did.
    pub fn launch_account_multi(&mut self, account_id: &str, data_dir: String, now: i64) -> (r: bool)
        ensures
            match find_id(old(self).store.accounts@, account_id@) {
                Some(i) => if old(self).store.accounts@[i].data_dir is None {
                    r && replaced_at(
                        old(self).store,
                        final(self).store,
                        i,
                        Account { data_dir: Some(data_dir), updated_at: now, ..old(self).store.accounts@[i] },
                    )
                } else {
                    !r && *final(self) == *old(self)
                },
                None => !r && *final(self) == *old(self),
            },
            active_valid(old(self).store) ==> active_valid(final(self).store),
            user_ids_unique(old(self).store.accounts@) ==> user_ids_unique(final(self).store.accounts@),
    {
        match index_of_id(&self.store.accounts, account_id) {
            Some(i) => {
                if self.store.accounts[i].data_dir.is_some() {
                    return false;
                }
                let mut a = self.store.accounts[i].copy();
                a.data_dir = Some(data_dir);
                a.updated_at = now;
                self.replace_account(i, a);
                true
            },
            None => false,
        }
    }

    /// Binds the machine code `machine_id` to the account with id `account_id`.
    pub fn bind_machine_id(&mut self, account_id: &str, machine_id: String, now: i64) -> (r: Result<
        String,
        AccountError,
    >)
        ensures
            match find_id(old(self).store.accounts@, account_id@) {
                None => r == Err::<String, AccountError>(AccountError::NotFound) && *final(self)
                    == *old(self),
                Some(i) => r == Ok::<String, AccountError>(machine_id) && replaced_at(
                    old(self).store,
                    final(self).store,
                    i,
                    Account {
                        machine_id: Some(machine_id),
                        updated_at: now,
                        ..old(self).store.accounts@[i]
                    },
                ),
            },
            active_valid(old(self).store) ==> active_valid(final(self).store),
            user_ids_unique(old(self).store.accounts@) ==> user_ids_unique(final(self).store.accounts@),
    {
        match index_of_id(&self.store.accounts, account_id) {
            Some(i) => {
                let mut a = self.store.accounts[i].copy();
                a.machine_id = Some(machine_id.clone());
                a.updated_at = now;
                self.replace_account(i, a);
                Ok(machine_id)
            },
            None => Err(AccountError::NotFound),
        }
    }

    /// Replaces the note of the account with id `account_id`.
    pub fn update_account_note(&mut self, account_id: &str, note: Option<String>, now: i64) -> (r:
        Result<(), AccountError>)
        ensures
            match find_id(old(self).store.accounts@, account_id@) {
                None => r == Err::<(), AccountError>(AccountError::NotFound) && *final(self) == *old(self),
                Some(i) => r is Ok && replaced_at(
                    old(self).store,
                    final(self).store,
                    i,
                    with_note(old(self).store.accounts@[i], note, now),
                ),
            },
            active_valid(old(self).store) ==> active_valid(final(self).store),
            user_ids_unique(old(self).store.accounts@) ==> user_ids_unique(final(self).store.accounts@),
    {
        match index_of_id(&self.store.accounts, account_id) {
            Some(i) => {
                let mut a = self.store.accounts[i].copy();
                a.note = note;
                a.updated_at = now;
                self.replace_account(i, a);
                Ok(())
            },
            None => Err(AccountError::NotFound),
        }
    }

    /// Imports accounts. Refused where there are none. Replacing (`overwrite`): the
    /// imported accounts become the store, the first of them active and none current.
    /// Merging: each imported account whose user id neither a stored account nor an
    /// imported account appended before it has is appended (so user ids stay distinct),
    /// and the first account becomes active where none was. Returns how many accounts
    /// were imported.
    pub fn import_accounts(&mut self, accounts: Vec<Account>, overwrite: bool) -> (r: Result<
        usize,
        AccountError,
    >)
        ensures
            accounts@.len() == 0 ==> r == Err::<usize, AccountError>(AccountError::ImportEmpty)
                && *final(self) == *old(self),
            accounts@.len() > 0 && overwrite ==> {
                &&& r == Ok::<usize, AccountError>(accounts@.len() as usize)
                &&& final(self).store.accounts@ == accounts@
                &&& final(self).store.active_account_id == first_id(accounts@)
                &&& final(self).store.current_account_id is None
            },
            accounts@.len() > 0 && !overwrite ==> {
                let kept = merged_in(old(self).store.accounts@, accounts@);
                &&& r == Ok::<usize, AccountError>(kept.len() as usize)
                &&& final(self).store.accounts@ == old(self).store.accounts@ + kept
                &&& final(self).store.current_account_id == old(self).store.current_account_id
                &&& final(self).store.active_account_id == if old(self).store.active_account_id is None {
                    first_id(final(self).store.accounts@)
                } else {
                    old(self).store.active_account_id
                }
            },
            accounts@.len() > 0 && overwrite ==> active_valid(final(self).store),
            active_valid(old(self).store) ==> active_valid(final(self).store),
            accounts@.len() > 0 && overwrite && user_ids_unique(accounts@) ==> user_ids_unique(
                final(self).store.accounts@,
            ),
            !overwrite && user_ids_unique(old(self).store.accounts@) ==> user_ids_unique(
                final(self).store.accounts@,
            ),
    {
        if accounts.len() == 0 {
            return Err(AccountError::ImportEmpty);
        }
        if overwrite {
            let n = accounts.len();
            let first = accounts[0].id.clone();
            self.store.accounts = accounts;
            self.store.active_account_id = Some(first);
            self.store.current_account_id = None;
            proof {
                lemma_find_id_some(self.store.accounts@, self.store.accounts@[0].id@, 0);
            }
            return Ok(n);
        }
        let ghost old_accounts = self.store.accounts@;
        let mut added_count: usize = 0;
        let mut i: usize = 0;
        while i < accounts.len()
            invariant
                i <= accounts@.len(),
                self.store.accounts@ == old_accounts + merged_in(old_accounts, accounts@.take(i as int)),
                added_count == merged_in(old_accounts, accounts@.take(i as int)).len(),
                added_count <= i,
                self.store.active_account_id == old(self).store.active_account_id,
                self.store.current_account_id == old(self).store.current_account_id,
            decreases accounts@.len() - i,
        {
            proof {
                assert(accounts@.take(i + 1).drop_last() =~= accounts@.take(i as int));
                assert(accounts@.take(i + 1).last() == accounts@[i as int]);
                assert(self.store.accounts@.subrange(0, self.store.accounts@.len() as int)
                    =~= self.store.accounts@);
            }
            let known = has_user_id_among(
                &self.store.accounts,
                self.store.accounts.len(),
                accounts[i].user_id.as_str(),
            );
            if !known {
                self.store.accounts.push(accounts[i].copy());
                proof {
                    assert(self.store.accounts@ =~= old_accounts + merged_in(
                        old_accounts,
                        accounts@.take(i + 1),
                    ));
                }
                added_count = added_count + 1;
            }
            i = i + 1;
        }
        proof {
            assert(accounts@.take(accounts@.len() as int) =~= accounts@);
        }
        if self.store.active_account_id.is_none() && self.store.accounts.len() > 0 {
            self.store.active_account_id = Some(self.store.accounts[0].id.clone());
        }
        proof {
            let olds = old_accounts;
            let kept = merged_in(olds, accounts@);
            let news = self.store.accounts@;
            assert(news == olds + kept);
            let act = self.store.active_account_id;
            if let Some(a) = act {
                if old(self).store.active_account_id is None {
                    lemma_find_id_some(news, a@, 0);
                } else if active_valid(old(self).store) {
                    lemma_first_match(olds, id_is(a@));
                    let k = find_id(olds, a@)->Some_0;
                    assert(news[k] == olds[k]);
                    lemma_find_id_some(news, a@, k);
                }
            }
            if user_ids_unique(olds) {
                lemma_merged_unique(olds, accounts@);
            }
        }
        Ok(added_count)
    }

    /// How the usage of the account with id `account_id` is fetched: by its token where
    /// it has one, else by its cookies where they are not empty.
    pub fn usage_source(&self, account_id: &str) -> (r: Result<UsageSource, AccountError>)
        ensures
            match find_id(self.store.accounts@, account_id@) {
                None => r == Err::<UsageSource, AccountError>(AccountError::NotFound),
                Some(i) => {
                    let a = self.store.accounts@[i];
                    match a.jwt_token {
                        Some(t) => r matches Ok(UsageSource::Token(x)) && x == t,
                        None => if a.cookies@.len() > 0 {
                            r matches Ok(UsageSource::Cookies(c)) && c == a.cookies
                        } else {
                            r == Err::<UsageSource, AccountError>(AccountError::NoCredentials)
                        },
                    }
                },
            },
    {
        let i = match index_of_id(&self.store.accounts, account_id) {
            Some(i) => i,
            None => return Err(AccountError::NotFound),
        };
        let a = &self.store.accounts[i];
        match &a.jwt_token {
            Some(t) => Ok(UsageSource::Token(t.clone())),
            None => {
                if a.cookies.as_str().is_empty() {
                    Err(AccountError::NoCredentials)
                } else {
                    Ok(UsageSource::Cookies(a.cookies.clone()))
                }
            },
        }
    }

    /// Records the plan type reported for the account with id `account_id`; nothing
    /// changes where no account has that id.
    pub fn set_plan_type(&mut self, account_id: &str, plan_type: String, now: i64)
        ensures
            match find_id(old(self).store.accounts@, account_id@) {
                None => *final(self) == *old(self),
                Some(i) => replaced_at(
                    old(self).store,
                    final(self).store,
                    i,
                    Account { plan_type: plan_type, updated_at: now, ..old(self).store.accounts@[i] },
                ),
            },
            active_valid(old(self).store) ==> active_valid(final(self).store),
            user_ids_unique(old(self).store.accounts@) ==> user_ids_unique(final(self).store.accounts@),
    {
        if let Some(i) = index_of_id(&self.store.accounts, account_id) {
            let mut a = self.store.accounts[i].copy();
            a.plan_type = plan_type;
            a.updated_at = now;
            self.replace_account(i, a);
        }
    }

    /// Records a token fetched anew with the account's cookies; nothing changes where no
    /// account has the id.
    pub fn refresh_token(&mut self, account_id: &str, token: UserTokenResult, now: i64)
        ensures
            match find_id(old(self).store.accounts@, account_id@) {
                None => *final(self) == *old(self),
                Some(i) => replaced_at(
                    old(self).store,
                    final(self).store,
                    i,
                    Account {
                        jwt_token: Some(token.token),
                        token_expired_at: Some(token.expired_at),
                        updated_at: now,
                        ..old(self).store.accounts@[i]
                    },
                ),
            },
            active_valid(old(self).store) ==> active_valid(final(self).store),
            user_ids_unique(old(self).store.accounts@) ==> user_ids_unique(final(self).store.accounts@),
    {
        if let Some(i) = index_of_id(&self.store.accounts, account_id) {
            let mut a = self.store.accounts[i].copy();
            a.jwt_token = Some(token.token);
            a.token_expired_at = Some(token.expired_at);
            a.updated_at = now;
            self.replace_account(i, a);
        }
    }

    /// Replaces the token of the account with id `account_id` by `token`, whose user
    /// (as the API reported it) is `token_user_id`; refused where that user is not the
    /// account's.
    pub fn update_account_token(
        &mut self,
        account_id: &str,
        token: String,
        token_user_id: &str,
        now: i64,
    ) -> (r: Result<(), AccountError>)
        ensures
            match find_id(old(self).store.accounts@, account_id@) {
                None => r == Err::<(), AccountError>(AccountError::NotFound) && *final(self) == *old(self),
                Some(i) => if old(self).store.accounts@[i].user_id@ != token_user_id@ {
                    r == Err::<(), AccountError>(AccountError::TokenUserMismatch) && *final(self)
                        == *old(self)
                } else {
                    r is Ok && replaced_at(
                        old(self).store,
                        final(self).store,
                        i,
                        Account { jwt_token: Some(token), updated_at: now, ..old(self).store.accounts@[i] },
                    )
                },
            },
            active_valid(old(self).store) ==> active_valid(final(self).store),
            user_ids_unique(old(self).store.accounts@) ==> user_ids_unique(final(self).store.accounts@),
    {
        let i = match index_of_id(&self.store.accounts, account_id) {
            Some(i) => i,
            None => return Err(AccountError::NotFound),
        };
        if !str_eq(self.store.accounts[i].user_id.as_str(), token_user_id) {
            return Err(AccountError::TokenUserMismatch);
        }
        let mut a = self.store.accounts[i].copy();
        a.jwt_token = Some(token);
        a.updated_at = now;
        self.replace_account(i, a);
        Ok(())
    }

    /// Replaces the cookies of the account with id `account_id`, with the token that
    /// they gave; refused where the token's user is not the account's.
    pub fn update_cookies(
        &mut self,
        account_id: &str,
        cookies: String,
        token: UserTokenResult,
        now: i64,
    ) -> (r: Result<(), AccountError>)
        ensures
            match find_id(old(self).store.accounts@, account_id@) {
                None => r == Err::<(), AccountError>(AccountError::NotFound) && *final(self) == *old(self),
                Some(i) => if old(self).store.accounts@[i].user_id@ != token.user_id@ {
                    r == Err::<(), AccountError>(AccountError::CookieUserMismatch) && *final(self)
                        == *old(self)
                } else {
                    r is Ok && replaced_at(
                        old(self).store,
                        final(self).store,
                        i,
                        Account {
                            cookies: cookies,
                            jwt_token: Some(token.token),
                            token_expired_at: Some(token.expired_at),
                            updated_at: now,
                            ..old(self).store.accounts@[i]
                        },
                    )
                },
            },
            active_valid(old(self).store) ==> active_valid(final(self).store),
            user_ids_unique(old(self).store.accounts@) ==> user_ids_unique(final(self).store.accounts@),
    {
        let i = match index_of_id(&self.store.accounts, account_id) {
            Some(i) => i,
            None => return Err(AccountError::NotFound),
        };
        if !str_eq(self.store.accounts[i].user_id.as_str(), token.user_id.as_str()) {
            return Err(AccountError::CookieUserMismatch);
        }
        let mut a = self.store.accounts[i].copy();
        a.cookies = cookies;
        a.jwt_token = Some(token.token);
        a.token_expired_at = Some(token.expired_at);
        a.updated_at = now;
        self.replace_account(i, a);
        Ok(())
    }

    /// The ids of the accounts, in order, that have cookies and whose token expires
    /// within the hour after `(now_secs, now_nanos)`: those that a bulk refresh renews.
    pub fn token_refresh_candidates(&self, now_secs: i64, now_nanos: u32) -> (r: Vec<String>)
        requires
            now_secs <= i64::MAX - 3600,
        ensures
            r@ == self.store.accounts@.filter(needs_refresh(now_secs, now_nanos)).map_values(
                |a: Account| a.id,
            ),
    {
        let ghost pred = needs_refresh(now_secs, now_nanos);
        let mut r: Vec<String> = Vec::new();
        let mut i: usize = 0;
        while i < self.store.accounts.len()
            invariant
                i <= self.store.accounts@.len(),
                now_secs <= i64::MAX - 3600,
                pred == needs_refresh(now_secs, now_nanos),
                r@ == self.store.accounts@.take(i as int).filter(pred).map_values(|a: Account| a.id),
            decreases self.store.accounts@.len() - i,
        {
            proof {
                reveal_with_fuel(Seq::<_>::filter, 1);
                assert(self.store.accounts@.take(i + 1).drop_last() =~= self.store.accounts@.take(
                    i as int,
                ));
            }
            let a = &self.store.accounts[i];
            if !a.cookies.as_str().is_empty() && is_token_expiring_soon(a, now_secs, now_nanos) {
                r.push(a.id.clone());
            }
            proof {
                let t = self.store.accounts@.take(i + 1).filter(pred);
                assert(r@ =~= t.map_values(|a: Account| a.id));
            }
            i = i + 1;
        }
        proof {
            assert(self.store.accounts@.take(self.store.accounts@.len() as int)
                =~= self.store.accounts@);
        }
        r
    }

    /// All stored accounts.
    pub fn get_all_accounts(&self) -> (r: &Vec<Account>)
        ensures
            *r == self.store.accounts,
    {
        &self.store.accounts
    }
}

} // verus!
