//! Account records, the store that holds them and the brief form shown in lists.
use vstd::prelude::*;

verus! {

/// The user information intercepted in the browser during a login.
#[derive(Debug, Clone, PartialEq, Eq, Default)]
pub struct BrowserUserInfo {
    pub screen_name: String,
    pub avatar_url: String,
    pub email: String,
}

/// One stored account.
#[derive(Debug, Clone, PartialEq, Eq)]
pub struct Account {
    pub id: String,
    pub name: String,
    pub email: String,
    pub avatar_url: String,
    pub cookies: String,
    pub jwt_token: Option<String>,
    pub token_expired_at: Option<String>,
    pub user_id: String,
    pub tenant_id: String,
    pub region: String,
    pub plan_type: String,
    pub created_at: i64,
    pub updated_at: i64,
    pub is_active: bool,
    /// Machine code bound to the account.
    pub machine_id: Option<String>,
    /// Where the account came from: "browser", "local" or "manual".
    pub source: String,
    /// The user's own note.
    pub note: Option<String>,
    /// Data directory bound to the account by a multi-instance launch.
    pub data_dir: Option<String>,
    /// Refresh token kept from a browser login or a local login record.
    pub refresh_token: Option<String>,
}

/// The stored list of accounts.
#[derive(Debug, Clone, PartialEq, Eq, Default)]
pub struct AccountStore {
    pub accounts: Vec<Account>,
    pub active_account_id: Option<String>,
    /// The account that the TRAE IDE is using now.
    pub current_account_id: Option<String>,
}

/// The brief form of an account shown in lists.
#[derive(Debug, Clone, PartialEq, Eq)]
pub struct AccountBrief {
    pub id: String,
    pub name: String,
    pub email: String,
    pub avatar_url: String,
    pub plan_type: String,
    pub is_active: bool,
    pub created_at: i64,
    pub machine_id: Option<String>,
    /// Whether the TRAE IDE is using this account now.
    pub is_current: bool,
    pub token_expired_at: Option<String>,
    pub source: String,
    pub note: Option<String>,
    pub data_dir: Option<String>,
}

/// A copy of an optional string.
pub fn copy_opt(o: &Option<String>) -> (r: Option<String>)
    ensures
        r == *o,
{
    match o {
        Some(s) => Some(s.clone()),
        None => None,
    }
}

/// The plan type of a new account.
pub open spec fn free_plan() -> Seq<char> {
    "Free"@
}

/// The value of an account, with its strings taken as character sequences.
pub struct AccountView {
    pub id: Seq<char>,
    pub name: Seq<char>,
    pub email: Seq<char>,
    pub avatar_url: Seq<char>,
    pub cookies: Seq<char>,
    pub jwt_token: Option<Seq<char>>,
    pub token_expired_at: Option<Seq<char>>,
    pub user_id: Seq<char>,
    pub tenant_id: Seq<char>,
    pub region: Seq<char>,
    pub plan_type: Seq<char>,
    pub created_at: i64,
    pub updated_at: i64,
    pub is_active: bool,
    pub machine_id: Option<Seq<char>>,
    pub source: Seq<char>,
    pub note: Option<Seq<char>>,
    pub data_dir: Option<Seq<char>>,
    pub refresh_token: Option<Seq<char>>,
}

/// The characters of an optional string.
pub open spec fn opt_view(o: Option<String>) -> Option<Seq<char>> {
    match o {
        Some(s) => Some(s@),
        None => None,
    }
}

impl View for Account {
    type V = AccountView;

    open spec fn view(&self) -> AccountView {
        AccountView {
            id: self.id@,
            name: self.name@,
            email: self.email@,
            avatar_url: self.avatar_url@,
            cookies: self.cookies@,
            jwt_token: opt_view(self.jwt_token),
            token_expired_at: opt_view(self.token_expired_at),
            user_id: self.user_id@,
            tenant_id: self.tenant_id@,
            region: self.region@,
            plan_type: self.plan_type@,
            created_at: self.created_at,
            updated_at: self.updated_at,
            is_active: self.is_active,
            machine_id: opt_view(self.machine_id),
            source: self.source@,
            note: opt_view(self.note),
            data_dir: opt_view(self.data_dir),
            refresh_token: opt_view(self.refresh_token),
        }
    }
}

/// The value of a new account: active, on the free plan, created and updated at
/// `now`, with every other field empty.
pub open spec fn new_account_view(
    id: Seq<char>,
    name: Seq<char>,
    email: Seq<char>,
    cookies: Seq<char>,
    user_id: Seq<char>,
    tenant_id: Seq<char>,
    now: i64,
) -> AccountView {
    AccountView {
        id,
        name,
        email,
        avatar_url: Seq::<char>::empty(),
        cookies,
        jwt_token: None,
        token_expired_at: None,
        user_id,
        tenant_id,
        region: Seq::<char>::empty(),
        plan_type: free_plan(),
        created_at: now,
        updated_at: now,
        is_active: true,
        machine_id: None,
        source: Seq::<char>::empty(),
        note: None,
        data_dir: None,
        refresh_token: None,
    }
}

impl Account {
    /// A new active account on the free plan, created and updated at `now`, with
    /// the given id.
    pub fn new(
        id: String,
        name: String,
        email: String,
        cookies: String,
        user_id: String,
        tenant_id: String,
        now: i64,
    ) -> (r: Account)
        ensures
            r@ == new_account_view(id@, name@, email@, cookies@, user_id@, tenant_id@, now),
    {
        Account {
            id,
            name,
            email,
            avatar_url: String::new(),
            cookies,
            jwt_token: None,
            token_expired_at: None,
            user_id,
            tenant_id,
            region: String::new(),
            plan_type: "Free".to_string(),
            created_at: now,
            updated_at: now,
            is_active: true,
            machine_id: None,
            source: String::new(),
            note: None,
            data_dir: None,
            refresh_token: None,
        }
    }

    /// A field-by-field copy.
    pub fn copy(&self) -> (r: Account)
        ensures
            r == *self,
    {
        Account {
            id: self.id.clone(),
            name: self.name.clone(),
            email: self.email.clone(),
            avatar_url: self.avatar_url.clone(),
            cookies: self.cookies.clone(),
            jwt_token: copy_opt(&self.jwt_token),
            token_expired_at: copy_opt(&self.token_expired_at),
            user_id: self.user_id.clone(),
            tenant_id: self.tenant_id.clone(),
            region: self.region.clone(),
            plan_type: self.plan_type.clone(),
            created_at: self.created_at,
            updated_at: self.updated_at,
            is_active: self.is_active,
            machine_id: copy_opt(&self.machine_id),
            source: self.source.clone(),
            note: copy_opt(&self.note),
            data_dir: copy_opt(&self.data_dir),
            refresh_token: copy_opt(&self.refresh_token),
        }
    }
}

impl AccountBrief {
    /// Whether `self` is the brief of `account` with the given current-account flag.
    pub open spec fn is_brief_of(self, account: Account, is_current: bool) -> bool {
        &&& self.id == account.id
        &&& self.name == account.name
        &&& self.email == account.email
        &&& self.avatar_url == account.avatar_url
        &&& self.plan_type == account.plan_type
        &&& self.is_active == account.is_active
        &&& self.created_at == account.created_at
        &&& self.machine_id == account.machine_id
        &&& self.is_current == is_current
        &&& self.token_expired_at == account.token_expired_at
        &&& self.source == account.source
        &&& self.note == account.note
        &&& self.data_dir == account.data_dir
    }

    /// The brief of an account, with the given current-account flag.
    pub fn from_account(account: &Account, is_current: bool) -> (r: AccountBrief)
        ensures
            r.is_brief_of(*account, is_current),
    {
        AccountBrief {
            id: account.id.clone(),
            name: account.name.clone(),
            email: account.email.clone(),
            avatar_url: account.avatar_url.clone(),
            plan_type: account.plan_type.clone(),
            is_active: account.is_active,
            created_at: account.created_at,
            machine_id: copy_opt(&account.machine_id),
            is_current,
            token_expired_at: copy_opt(&account.token_expired_at),
            source: account.source.clone(),
            note: copy_opt(&account.note),
            data_dir: copy_opt(&account.data_dir),
        }
    }

    /// The brief of an account, not marked as current.
    pub fn from(account: &Account) -> (r: AccountBrief)
        ensures
            r.is_brief_of(*account, false),
    {
        AccountBrief::from_account(account, false)
    }
}

} // verus!
