//! The instance manager: the rules by which the stored instances and the cache of
//! disk usage change.
//!
//! Reading and writing `instances.json`, measuring directories, checking processes and
//! starting the product are done around these functions by the application.
use vstd::prelude::*;
use crate::account_manager::{
    ids_unique, active_valid, find_id, has_user_id, id_is, is_login_info_of, login_info_of, user_id_is,
    user_ids_unique,
    AccountManager,
};
use crate::account_types::{Account, AccountView, copy_opt, new_account_view, opt_view};
use crate::instance_types::{InstanceBrief, InstanceStore, TraeInstance};
use crate::machine::TraeLoginInfo;
use crate::seq_search::{
    first_match, lemma_first_match, lemma_first_match_at, lemma_first_match_none,
    lemma_first_match_append, lemma_first_match_push, lemma_first_match_same,
};
use crate::text::{
    byte_prefix, byte_prefix_ok, concat, is_prefix, push_char, str_chars, str_eq, strip_prefix, trim,
    trim_spec, utf8_prefix,
};

verus! {

/// How long a measured disk usage stays fresh, in seconds.
pub const DISK_CACHE_TTL_SECS: i64 = 300;

/// Why an instance operation was refused.
#[derive(Debug, Clone, PartialEq, Eq)]
pub enum InstanceError {
    /// No instance has the given id.
    NotFound,
    /// A new instance's name is blank.
    EmptyInstanceName,
    /// A new name is blank.
    EmptyName,
    /// No data directory was given and the application data directory is unknown.
    NoAppData,
    /// Another instance uses the data directory (which is given).
    DataDirTaken(String),
    /// The default instance cannot be deleted.
    DefaultNotDeletable,
    /// The account to bind does not exist.
    AccountNotFound,
    /// The account to bind has no token.
    NoToken,
    /// The product's program has not been located.
    NoProductPath,
}

impl InstanceError {
    /// The message shown to the user.
    pub fn message(&self) -> (r: String)
        ensures
            r@ == self.message_spec(),
    {
        match self {
            InstanceError::NotFound => "实例不存在".to_string(),
            InstanceError::EmptyInstanceName => "实例名称不能为空".to_string(),
            InstanceError::EmptyName => "名称不能为空".to_string(),
            InstanceError::NoAppData => "无法获取 APPDATA".to_string(),
            InstanceError::DataDirTaken(dir) => concat("数据目录已被其他实例占用: ", dir.as_str()),
            InstanceError::DefaultNotDeletable => "默认实例不可删除".to_string(),
            InstanceError::AccountNotFound => "账号不存在".to_string(),
            InstanceError::NoToken => "账号没有有效 Token".to_string(),
            InstanceError::NoProductPath => "未设置 TRAE 路径，请先在设置中扫描".to_string(),
        }
    }

    /// The message of each error.
    pub open spec fn message_spec(self) -> Seq<char> {
        match self {
            InstanceError::NotFound => "实例不存在"@,
            InstanceError::EmptyInstanceName => "实例名称不能为空"@,
            InstanceError::EmptyName => "名称不能为空"@,
            InstanceError::NoAppData => "无法获取 APPDATA"@,
            InstanceError::DataDirTaken(dir) => "数据目录已被其他实例占用: "@ + dir@,
            InstanceError::DefaultNotDeletable => "默认实例不可删除"@,
            InstanceError::AccountNotFound => "账号不存在"@,
            InstanceError::NoToken => "账号没有有效 Token"@,
            InstanceError::NoProductPath => "未设置 TRAE 路径，请先在设置中扫描"@,
        }
    }
}

/// One measured disk usage: when it was measured and how many bytes.
#[derive(Debug, Clone, PartialEq, Eq)]
pub struct DiskCacheEntry {
    pub data_dir: String,
    pub computed_at: i64,
    pub size: u64,
}

/// The predicate "instance has this id".
pub open spec fn inst_id_is(id: Seq<char>) -> spec_fn(TraeInstance) -> bool {
    |i: TraeInstance| i.id@ == id
}

/// The predicate "instance uses this data directory".
pub open spec fn inst_dir_is(dir: Seq<char>) -> spec_fn(TraeInstance) -> bool {
    |i: TraeInstance| i.data_dir@ == dir
}

/// The predicate "cache entry is for this data directory".
pub open spec fn entry_dir_is(dir: Seq<char>) -> spec_fn(DiskCacheEntry) -> bool {
    |e: DiskCacheEntry| e.data_dir@ == dir
}

/// The position of the first instance with the given id.
pub open spec fn find_inst(instances: Seq<TraeInstance>, id: Seq<char>) -> Option<int> {
    first_match(instances, inst_id_is(id))
}

/// Whether some instance uses the data directory.
pub open spec fn dir_in_use(instances: Seq<TraeInstance>, dir: Seq<char>) -> bool {
    first_match(instances, inst_dir_is(dir)) is Some
}

/// Whether no two instances use the same data directory.
pub open spec fn dirs_unique(instances: Seq<TraeInstance>) -> bool {
    forall|i: int, j: int|
        0 <= i < instances.len() && 0 <= j < instances.len() && i != j ==> #[trigger] instances[i].data_dir@
            != #[trigger] instances[j].data_dir@
}

/// Whether no two instances share an id.
pub open spec fn instance_ids_unique(instances: Seq<TraeInstance>) -> bool {
    forall|i: int, j: int|
        0 <= i < instances.len() && 0 <= j < instances.len() && i != j ==> #[trigger] instances[i].id@
            != #[trigger] instances[j].id@
}

/// What the cache holds for a data directory: measurement time and size.
pub open spec fn cache_get(entries: Seq<DiskCacheEntry>, dir: Seq<char>) -> Option<(i64, u64)> {
    match first_match(entries, entry_dir_is(dir)) {
        Some(k) => Some((entries[k].computed_at, entries[k].size)),
        None => None,
    }
}

/// The account that an instance's binding names, if it names a stored account.
pub open spec fn bound_account(inst: TraeInstance, accounts: Seq<Account>) -> Option<Account> {
    match inst.bound_account_id {
        Some(aid) => match find_id(accounts, aid@) {
            Some(k) => Some(accounts[k]),
            None => None,
        },
        None => None,
    }
}

/// Whether `b` is the basic brief of `inst`: the instance's own fields, the bound
/// account's e-mail, name, avatar and note, and no run-time information yet.
pub open spec fn is_basic_brief(b: InstanceBrief, inst: TraeInstance, accounts: Seq<Account>) -> bool {
    &&& b.id == inst.id
    &&& b.name == inst.name
    &&& b.data_dir == inst.data_dir
    &&& b.is_default == inst.is_default
    &&& b.bound_account_id == inst.bound_account_id
    &&& b.note == inst.note
    &&& b.machine_id == inst.machine_id
    &&& b.created_at == inst.created_at
    &&& b.last_launched_at == inst.last_launched_at
    &&& b.disk_usage == 0
    &&& !b.is_running
    &&& b.pid is None
    &&& match bound_account(inst, accounts) {
        Some(a) => {
            &&& b.bound_account_email == Some(a.email)
            &&& b.bound_account_name == Some(a.name)
            &&& b.bound_account_avatar == Some(a.avatar_url)
            &&& b.bound_account_note == a.note
        },
        None => {
            &&& b.bound_account_email is None
            &&& b.bound_account_name is None
            &&& b.bound_account_avatar is None
            &&& b.bound_account_note is None
        },
    }
}

/// The predicate "running-state entry is for this data directory".
pub open spec fn running_dir_is(dir: Seq<char>) -> spec_fn((String, bool, Option<u32>)) -> bool {
    |e: (String, bool, Option<u32>)| e.0@ == dir
}

/// A brief with the run-time information filled in: running state and process id from
/// the first running-state entry for its directory, disk usage from the cache; what
/// has no entry is left as it was.
pub open spec fn with_runtime(
    b: InstanceBrief,
    running: Seq<(String, bool, Option<u32>)>,
    cache: Seq<DiskCacheEntry>,
) -> InstanceBrief {
    let b1 = match first_match(running, running_dir_is(b.data_dir@)) {
        Some(k) => InstanceBrief { is_running: running[k].1, pid: running[k].2, ..b },
        None => b,
    };
    match cache_get(cache, b.data_dir@) {
        Some((_, size)) => InstanceBrief { disk_usage: size, ..b1 },
        None => b1,
    }
}

/// Whether a directory's usage needs measuring at `now`: not cached, or measured
/// `DISK_CACHE_TTL_SECS` seconds ago or earlier.
pub open spec fn needs_measuring(cache: Seq<DiskCacheEntry>, dir: Seq<char>, now: i64) -> bool {
    match cache_get(cache, dir) {
        Some((at, _)) => now - at >= DISK_CACHE_TTL_SECS,
        None => true,
    }
}

/// The predicate "brief's directory needs measuring at `now`".
pub open spec fn brief_uncached(cache: Seq<DiskCacheEntry>, now: i64) -> spec_fn(InstanceBrief) -> bool {
    |b: InstanceBrief| needs_measuring(cache, b.data_dir@, now)
}

/// The last size measured for `dir` in `measured`, if any.
pub open spec fn last_measured(measured: Seq<(String, u64)>, dir: Seq<char>) -> Option<u64>
    decreases measured.len(),
{
    if measured.len() == 0 {
        None
    } else if measured.last().0@ == dir {
        Some(measured.last().1)
    } else {
        last_measured(measured.drop_last(), dir)
    }
}

/// The position of the first cache entry for `dir`.
fn cache_index(entries: &Vec<DiskCacheEntry>, dir: &str) -> (r: Option<usize>)
    ensures
        r matches Some(k) ==> first_match(entries@, entry_dir_is(dir@)) == Some(k as int) && k
            < entries@.len(),
        r is None ==> first_match(entries@, entry_dir_is(dir@)) is None,
{
    let mut i: usize = 0;
    while i < entries.len()
        invariant
            i <= entries@.len(),
            forall|j: int| 0 <= j < i ==> !entry_dir_is(dir@)(#[trigger] entries@[j]),
        decreases entries@.len() - i,
    {
        if str_eq(entries[i].data_dir.as_str(), dir) {
            proof {
                lemma_first_match_at(entries@, entry_dir_is(dir@), i as int);
            }
            return Some(i);
        }
        i = i + 1;
    }
    proof {
        lemma_first_match_none(entries@, entry_dir_is(dir@));
    }
    None
}

/// The position of the first running-state entry for `dir`.
fn running_index(running: &Vec<(String, bool, Option<u32>)>, dir: &str) -> (r: Option<usize>)
    ensures
        r matches Some(k) ==> first_match(running@, running_dir_is(dir@)) == Some(k as int) && k
            < running@.len(),
        r is None ==> first_match(running@, running_dir_is(dir@)) is None,
{
    let mut i: usize = 0;
    while i < running.len()
        invariant
            i <= running@.len(),
            forall|j: int| 0 <= j < i ==> !running_dir_is(dir@)(#[trigger] running@[j]),
        decreases running@.len() - i,
    {
        if str_eq(running[i].0.as_str(), dir) {
            proof {
                lemma_first_match_at(running@, running_dir_is(dir@), i as int);
            }
            return Some(i);
        }
        i = i + 1;
    }
    proof {
        lemma_first_match_none(running@, running_dir_is(dir@));
    }
    None
}

/// The position of the first instance with id `id`.
pub fn index_of_instance(instances: &Vec<TraeInstance>, id: &str) -> (r: Option<usize>)
    ensures
        r matches Some(i) ==> find_inst(instances@, id@) == Some(i as int) && i < instances@.len(),
        r is None ==> find_inst(instances@, id@) is None,
{
    let mut i: usize = 0;
    while i < instances.len()
        invariant
            i <= instances@.len(),
            forall|j: int| 0 <= j < i ==> !inst_id_is(id@)(#[trigger] instances@[j]),
        decreases instances@.len() - i,
    {
        if str_eq(instances[i].id.as_str(), id) {
            proof {
                lemma_first_match_at(instances@, inst_id_is(id@), i as int);
            }
            return Some(i);
        }
        i = i + 1;
    }
    proof {
        lemma_first_match_none(instances@, inst_id_is(id@));
    }
    None
}

/// Whether some instance uses data directory `dir`.
pub fn dir_taken(instances: &Vec<TraeInstance>, dir: &str) -> (r: bool)
    ensures
        r == dir_in_use(instances@, dir@),
{
    let mut i: usize = 0;
    while i < instances.len()
        invariant
            i <= instances@.len(),
            forall|j: int| 0 <= j < i ==> !inst_dir_is(dir@)(#[trigger] instances@[j]),
        decreases instances@.len() - i,
    {
        if str_eq(instances[i].data_dir.as_str(), dir) {
            proof {
                lemma_first_match_at(instances@, inst_dir_is(dir@), i as int);
            }
            return true;
        }
        i = i + 1;
    }
    proof {
        lemma_first_match_none(instances@, inst_dir_is(dir@));
    }
    false
}

/// The data directory that a new instance gets: the one given, trimmed, where it is not
/// blank; else the one the application made up (`None` where it could not).
pub open spec fn chosen_dir(data_dir: Option<String>, auto_dir: Option<String>) -> Option<Seq<char>> {
    match data_dir {
        Some(d) => if trim_spec(d@).len() > 0 {
            Some(trim_spec(d@))
        } else {
            opt_view(auto_dir)
        },
        None => opt_view(auto_dir),
    }
}

/// Whether `new` is `old` with only the instance at `i` replaced by `inst`, and the
/// cache untouched.
pub open spec fn instance_replaced(old: InstanceManager, new: InstanceManager, i: int, inst: TraeInstance) -> bool {
    &&& new.store.instances@ == old.store.instances@.update(i, inst)
    &&& new.disk_cache == old.disk_cache
}

/// What launching an instance needs: its data directory, its name, and, where it is
/// bound to a stored account with a token, that account's login record and machine
/// code.
#[derive(Debug, Clone, PartialEq, Eq)]
pub struct LaunchPlan {
    pub data_dir: String,
    pub name: String,
    pub login: Option<(TraeLoginInfo, Option<String>)>,
}

/// What launching an instance (or binding it) writes for its account: the account's
/// login record with the account's own refresh token, and its machine code.
pub open spec fn is_account_login(p: (TraeLoginInfo, Option<String>), a: Account) -> bool {
    is_login_info_of(p.0, a, a.refresh_token) && p.1 == a.machine_id
}

/// Whether `login` is what an instance bound (or not) to stored accounts gives: the
/// bound account's login record and machine code, where it has a token.
pub open spec fn is_bound_login(
    login: Option<(TraeLoginInfo, Option<String>)>,
    inst: TraeInstance,
    accounts: Seq<Account>,
) -> bool {
    match bound_account(inst, accounts) {
        Some(a) => if a.jwt_token is Some {
            login matches Some(p) && is_account_login(p, a)
        } else {
            login is None
        },
        None => login is None,
    }
}

/// The name of the product's own data directory.
pub open spec fn default_dir_name() -> Seq<char> {
    "TRAE SOLO CN"@
}

/// The prefix of the names of further data directories.
pub open spec fn extra_dir_prefix() -> Seq<char> {
    "TRAE SOLO CN_"@
}

/// Whether a directory of that name may hold an instance: the product's own data
/// directory or one named `TRAE SOLO CN_…`, but not the shared extensions directory.
pub open spec fn discovery_candidate(name: Seq<char>) -> bool {
    &&& (name == default_dir_name() || is_prefix(extra_dir_prefix(), name))
    &&& name != "TRAE SOLO CN_SharedExtensions"@
}

/// Whether a directory of that name may hold an instance.
pub fn is_discovery_candidate(name: &str) -> (r: bool)
    ensures
        r == discovery_candidate(name@),
{
    (str_eq(name, "TRAE SOLO CN") || strip_prefix(name, "TRAE SOLO CN_").is_some()) && !str_eq(
        name,
        "TRAE SOLO CN_SharedExtensions",
    )
}

/// The name given to a discovered instance: from the login found in it (the username,
/// or `"用户_"` and the first six bytes of the user id), else from the directory name
/// (`"实例_"` and the first eight bytes after `TRAE SOLO CN_`), else `"默认"`.
pub open spec fn inferred_name(login: Option<(Seq<char>, Seq<char>)>, dir_name: Seq<char>) -> Seq<char> {
    match login {
        Some((username, user_id)) => if username.len() > 0 {
            username
        } else {
            "用户_"@ + byte_prefix(user_id, 6)
        },
        None => if is_prefix(extra_dir_prefix(), dir_name) {
            "实例_"@ + byte_prefix(dir_name.skip(extra_dir_prefix().len() as int), 8)
        } else {
            "默认"@
        },
    }
}

/// Whether `inferred_name` can be formed (the byte cuts fall on character boundaries).
pub open spec fn inferred_name_ok(login: Option<(Seq<char>, Seq<char>)>, dir_name: Seq<char>) -> bool {
    match login {
        Some((username, user_id)) => username.len() > 0 || byte_prefix_ok(user_id, 6),
        None => is_prefix(extra_dir_prefix(), dir_name) ==> byte_prefix_ok(
            dir_name.skip(extra_dir_prefix().len() as int),
            8,
        ),
    }
}

/// The name given to a discovered instance, from the login found in it (username and
/// user id) or from its directory name.
pub fn inferred_instance_name(login: Option<(&str, &str)>, dir_name: &str) -> (r: String)
    requires
        inferred_name_ok(
            match login {
                Some((u, id)) => Some((u@, id@)),
                None => None,
            },
            dir_name@,
        ),
    ensures
        r@ == inferred_name(
            match login {
                Some((u, id)) => Some((u@, id@)),
                None => None,
            },
            dir_name@,
        ),
{
    match login {
        Some((username, user_id)) => {
            if !username.is_empty() {
                username.to_owned()
            } else {
                let p = utf8_prefix(user_id, 6);
                concat("用户_", p.as_str())
            }
        },
        None => {
            proof {
                reveal_strlit("TRAE SOLO CN_");
            }
            match strip_prefix(dir_name, "TRAE SOLO CN_") {
                Some(suffix) => {
                    let p = utf8_prefix(suffix.as_str(), 8);
                    concat("实例_", p.as_str())
                },
                None => "默认".to_string(),
            }
        },
    }
}

/// The window title of an instance: its name and `" - TRAE Work CN"`.
pub fn window_title(name: &str) -> (r: String)
    ensures
        r@ == name@ + " - TRAE Work CN"@,
{
    concat(name, " - TRAE Work CN")
}

/// Whether the window title is written into this data directory: not where the data
/// directory is the bare name `TRAE SOLO CN`.
pub fn writes_window_title(data_dir: &str) -> (r: bool)
    ensures
        r == (data_dir@ != default_dir_name()),
{
    !str_eq(data_dir, "TRAE SOLO CN")
}

/// The name of the data directory made for a new instance: `TRAE SOLO CN_` and the
/// first eight bytes of a fresh id.
pub fn instance_dir_name(id: &str) -> (r: String)
    requires
        byte_prefix_ok(id@, 8),
    ensures
        r@ == extra_dir_prefix() + byte_prefix(id@, 8),
{
    let p = utf8_prefix(id, 8);
    concat("TRAE SOLO CN_", p.as_str())
}

/// The name of the data directory of a separate instance launched for a user:
/// `TRAE SOLO CN_` and the user id.
pub fn multi_data_dir_name(user_id: &str) -> (r: String)
    ensures
        r@ == extra_dir_prefix() + user_id@,
{
    concat("TRAE SOLO CN_", user_id)
}

/// The store made on first start: the default instance, named "默认", over the
/// product's own data directory.
pub fn migrate_from_accounts(default_data_dir: String, id: String, now: i64) -> (r: InstanceStore)
    ensures
        r.instances@.len() == 1,
        r.instances@[0].id == id,
        r.instances@[0].name@ == "默认"@,
        r.instances@[0].data_dir == default_data_dir,
        r.instances@[0].is_default,
        r.instances@[0].bound_account_id is None,
        r.instances@[0].machine_id is None,
        r.instances@[0].note is None,
        r.instances@[0].created_at == now,
        r.instances@[0].updated_at == now,
        r.instances@[0].last_launched_at == 0,
{
    let mut instances: Vec<TraeInstance> = Vec::new();
    instances.push(TraeInstance::new(id, "默认".to_string(), default_data_dir, true, now));
    InstanceStore { instances }
}

/// A login found in an instance's data directory.
#[derive(Debug, Clone, PartialEq, Eq)]
pub struct DirLogin {
    pub info: TraeLoginInfo,
    /// The tenant named in the login's token.
    pub tenant_id: String,
    /// A fresh id for the account made from this login where no account of its user
    /// is stored.
    pub new_account_id: String,
}

/// The user of a login that names one.
pub open spec fn login_user(l: Option<DirLogin>) -> Option<Seq<char>> {
    match l {
        Some(x) => if x.info.user_id@.len() > 0 {
            Some(x.info.user_id@)
        } else {
            None
        },
        None => None,
    }
}

/// Whether an instance is bound to a stored account of user `user_id`.
pub open spec fn bound_to_user(inst: TraeInstance, accounts: Seq<Account>, user_id: Seq<char>) -> bool {
    bound_account(inst, accounts) matches Some(a) && a.user_id@ == user_id
}

/// The id of the first stored account of user `user_id`.
pub open spec fn first_user_account(accounts: Seq<Account>, user_id: Seq<char>) -> Option<String> {
    match first_match(accounts, user_id_is(user_id)) {
        Some(i) => Some(accounts[i].id),
        None => None,
    }
}

/// An instance after automatic binding: where its directory holds a login of a user
/// and it is not bound to an account of that user already (`old_accounts`), it is bound
/// to the first account of that user (`new_accounts`) and updated at `now`, unless
/// already bound to that id.
pub open spec fn auto_bound(
    inst: TraeInstance,
    login: Option<DirLogin>,
    old_accounts: Seq<Account>,
    new_accounts: Seq<Account>,
    now: i64,
) -> TraeInstance {
    match login_user(login) {
        None => inst,
        Some(uid) => if bound_to_user(inst, old_accounts, uid) {
            inst
        } else {
            match first_user_account(new_accounts, uid) {
                Some(id) => if names_opt(inst.bound_account_id, id@) {
                    inst
                } else {
                    TraeInstance { bound_account_id: Some(id), updated_at: now, ..inst }
                },
                None => inst,
            }
        },
    }
}

/// Whether an optional id is present and equal to `id`.
pub open spec fn names_opt(o: Option<String>, id: Seq<char>) -> bool {
    o matches Some(s) && s@ == id
}

/// Whether `new` differs from `old` at most in binding and update time.
pub open spec fn only_binding_changed(old: TraeInstance, new: TraeInstance) -> bool {
    new == TraeInstance { bound_account_id: new.bound_account_id, updated_at: new.updated_at, ..old }
}

/// Whether the fresh account ids of the logins are fresh: no stored account and no
/// instance binding uses them, and no two logins share one.
pub open spec fn fresh_ids(
    logins: Seq<Option<DirLogin>>,
    accounts: Seq<Account>,
    instances: Seq<TraeInstance>,
) -> bool {
    &&& forall|k: int|
        0 <= k < logins.len() && #[trigger] logins[k] is Some ==> find_id(
            accounts,
            logins[k]->Some_0.new_account_id@,
        ) is None
    &&& forall|k: int, j: int|
        0 <= k < logins.len() && 0 <= j < instances.len() && #[trigger] logins[k] is Some
            ==> !names_opt(#[trigger] instances[j].bound_account_id, logins[k]->Some_0.new_account_id@)
    &&& forall|k1: int, k2: int|
        0 <= k1 < logins.len() && 0 <= k2 < logins.len() && k1 != k2 && #[trigger] logins[k1] is Some
            && #[trigger] logins[k2] is Some ==> logins[k1]->Some_0.new_account_id@
            != logins[k2]->Some_0.new_account_id@
}

/// Whether the account that a login would make can be named: where the login has no
/// username and no stored account has its user, the user id can be cut after its eighth
/// byte.
pub open spec fn logins_nameable(logins: Seq<Option<DirLogin>>, accounts: Seq<Account>) -> bool {
    forall|k: int|
        0 <= k < logins.len() && #[trigger] logins[k] is Some && logins[k]->Some_0.info.username@.len()
            == 0 && !has_user_id(accounts, logins[k]->Some_0.info.user_id@) ==> crate::text::byte_prefix_ok(
            logins[k]->Some_0.info.user_id@,
            8,
        )
}

/// The account made from a login found in a data directory, at `now`: named by the
/// login's username or `"User_"` and the first eight bytes of the user id, with the
/// login's token, refresh token, e-mail, avatar and region, source "local", the login's
/// tenant and its fresh id.
pub open spec fn local_login_view(l: DirLogin, now: i64) -> AccountView {
    AccountView {
        avatar_url: l.info.avatar_url@,
        jwt_token: Some(l.info.token@),
        refresh_token: opt_view(l.info.refresh_token),
        source: "local"@,
        region: l.info.region@,
        ..new_account_view(
            l.new_account_id@,
            if l.info.username@.len() == 0 {
                "User_"@ + byte_prefix(l.info.user_id@, 8)
            } else {
                l.info.username@
            },
            l.info.email@,
            Seq::<char>::empty(),
            l.info.user_id@,
            l.tenant_id@,
            now,
        )
    }
}

/// The views of a list of accounts.
pub open spec fn account_views(accounts: Seq<Account>) -> Seq<AccountView> {
    accounts.map_values(|a: Account| a@)
}

/// Whether automatic binding makes an account for an instance: its directory holds a
/// login of a user to none of whose stored accounts it is bound, and no account of that
/// user is stored yet (`prev`).
pub open spec fn creates_account(
    inst: TraeInstance,
    login: Option<DirLogin>,
    old_accounts: Seq<Account>,
    prev: Seq<AccountView>,
) -> bool {
    match login_user(login) {
        Some(uid) => !bound_to_user(inst, old_accounts, uid) && !(exists|j: int|
            0 <= j < prev.len() && #[trigger] prev[j].user_id == uid),
        None => false,
    }
}

/// The accounts after automatic binding has gone through the first `k` instances: the
/// stored ones, then one made from each login that needed one, in the instances' order.
pub open spec fn accounts_after_binding(
    insts: Seq<TraeInstance>,
    logins: Seq<Option<DirLogin>>,
    old_accounts: Seq<Account>,
    now: i64,
    k: nat,
) -> Seq<AccountView>
    decreases k,
{
    if k == 0 {
        account_views(old_accounts)
    } else {
        let prev = accounts_after_binding(insts, logins, old_accounts, now, (k - 1) as nat);
        if creates_account(insts[k - 1], logins[k - 1], old_accounts, prev) {
            prev.push(local_login_view(logins[k - 1]->Some_0, now))
        } else {
            prev
        }
    }
}

/// Where the accounts only grow, an account found by an id that the old accounts hold
/// is still found, and an id that neither the old accounts nor any added account holds
/// is still not found.
proof fn lemma_find_id_grown(olds: Seq<Account>, news: Seq<Account>, id: Seq<char>)
    requires
        olds.len() <= news.len(),
        news.subrange(0, olds.len() as int) == olds,
        forall|m: int| olds.len() <= m < news.len() ==> #[trigger] news[m].id@ != id,
    ensures
        find_id(news, id) == find_id(olds, id),
{
    assert(news =~= olds + news.subrange(olds.len() as int, news.len() as int));
    if find_id(olds, id) is Some {
        lemma_first_match_append(olds, news.subrange(olds.len() as int, news.len() as int), id_is(id));
    } else {
        lemma_first_match(olds, id_is(id));
        assert forall|j: int| 0 <= j < news.len() implies !id_is(id)(#[trigger] news[j]) by {
            if j < olds.len() {
                assert(news[j] == olds[j]);
            }
        }
        lemma_first_match_none(news, id_is(id));
    }
}

/// Appending accounts keeps the first account of a user that has one.
proof fn lemma_first_user_grown(olds: Seq<Account>, news: Seq<Account>, uid: Seq<char>)
    requires
        olds.len() <= news.len(),
        news.subrange(0, olds.len() as int) == olds,
        first_match(olds, user_id_is(uid)) is Some,
    ensures
        first_match(news, user_id_is(uid)) == first_match(olds, user_id_is(uid)),
        first_user_account(news, uid) == first_user_account(olds, uid),
{
    assert(news =~= olds + news.subrange(olds.len() as int, news.len() as int));
    lemma_first_match_append(olds, news.subrange(olds.len() as int, news.len() as int), user_id_is(uid));
    let i = first_match(olds, user_id_is(uid))->Some_0;
    lemma_first_match(olds, user_id_is(uid));
    assert(news[i] == olds[i]);
}

/// Where account ids are unique and a user has an account, the instance that automatic
/// binding gives is bound to an account of that user.
proof fn lemma_auto_bound_binds(
    inst: TraeInstance,
    login: Option<DirLogin>,
    olds: Seq<Account>,
    news: Seq<Account>,
    now: i64,
)
    requires
        login_user(login) is Some,
        olds.len() <= news.len(),
        news.subrange(0, olds.len() as int) == olds,
        ids_unique(news),
        first_match(news, user_id_is(login_user(login)->Some_0)) is Some,
    ensures
        bound_to_user(auto_bound(inst, login, olds, news, now), news, login_user(login)->Some_0),
{
    let uid = login_user(login)->Some_0;
    if bound_to_user(inst, olds, uid) {
        let b = inst.bound_account_id->Some_0;
        lemma_first_match(olds, id_is(b@));
        let i = find_id(olds, b@)->Some_0;
        assert(news =~= olds + news.subrange(olds.len() as int, news.len() as int));
        lemma_first_match_append(olds, news.subrange(olds.len() as int, news.len() as int), id_is(b@));
        assert(news[i] == olds[i]);
    } else {
        lemma_first_match(news, user_id_is(uid));
        let i = first_match(news, user_id_is(uid))->Some_0;
        let id = news[i].id;
        assert forall|j: int| 0 <= j < i implies !id_is(id@)(#[trigger] news[j]) by {
            assert(news[j].id@ != news[i].id@);
        }
        lemma_first_match_at(news, id_is(id@), i);
    }
}

/// The instance manager.
pub struct InstanceManager {
    pub store: InstanceStore,
    /// Measured disk usage, looked up by data directory (first entry).
    pub disk_cache: Vec<DiskCacheEntry>,
}

impl InstanceManager {
    /// A manager over a store read by the application, with nothing measured yet.
    pub fn new(store: InstanceStore) -> (r: InstanceManager)
        ensures
            r.store == store,
            r.disk_cache@.len() == 0,
    {
        InstanceManager { store, disk_cache: Vec::new() }
    }

    /// The basic brief of every instance, in order.
    pub fn list_instances_basic(&self, account_manager: &AccountManager) -> (r: Vec<InstanceBrief>)
        ensures
            r@.len() == self.store.instances@.len(),
            forall|i: int|
                0 <= i < r@.len() ==> is_basic_brief(
                    #[trigger] r@[i],
                    self.store.instances@[i],
                    account_manager.store.accounts@,
                ),
    {
        let accounts = account_manager.get_all_accounts();
        let mut r: Vec<InstanceBrief> = Vec::new();
        let mut i: usize = 0;
        while i < self.store.instances.len()
            invariant
                i <= self.store.instances@.len(),
                *accounts == account_manager.store.accounts,
                r@.len() == i,
                forall|k: int|
                    0 <= k < i ==> is_basic_brief(
                        #[trigger] r@[k],
                        self.store.instances@[k],
                        account_manager.store.accounts@,
                    ),
            decreases self.store.instances@.len() - i,
        {
            let inst = &self.store.instances[i];
            let found = match &inst.bound_account_id {
                Some(aid) => account_manager.get_account_ref(aid.as_str()),
                None => None,
            };
            let (email, name, avatar, account_note) = match found {
                Some(a) => (
                    Some(a.email.clone()),
                    Some(a.name.clone()),
                    Some(a.avatar_url.clone()),
                    copy_opt(&a.note),
                ),
                None => (None, None, None, None),
            };
            r.push(
                InstanceBrief {
                    id: inst.id.clone(),
                    name: inst.name.clone(),
                    data_dir: inst.data_dir.clone(),
                    is_default: inst.is_default,
                    bound_account_id: copy_opt(&inst.bound_account_id),
                    bound_account_email: email,
                    bound_account_name: name,
                    bound_account_avatar: avatar,
                    bound_account_note: account_note,
                    note: copy_opt(&inst.note),
                    machine_id: copy_opt(&inst.machine_id),
                    created_at: inst.created_at,
                    last_launched_at: inst.last_launched_at,
                    disk_usage: 0,
                    is_running: false,
                    pid: None,
                },
            );
            i = i + 1;
        }
        r
    }

    /// Fills in the run-time information of each brief: running state and process id
    /// from `running` (one entry per data directory checked, as the application found
    /// it), disk usage from the cache.
    pub fn compute_runtime_info(
        &self,
        briefs: &mut Vec<InstanceBrief>,
        running: &Vec<(String, bool, Option<u32>)>,
    )
        ensures
            final(briefs)@.len() == old(briefs)@.len(),
            forall|i: int|
                0 <= i < final(briefs)@.len() ==> #[trigger] final(briefs)@[i] == with_runtime(
                    old(briefs)@[i],
                    running@,
                    self.disk_cache@,
                ),
    {
        let mut i: usize = 0;
        while i < briefs.len()
            invariant
                i <= briefs@.len(),
                briefs@.len() == old(briefs)@.len(),
                forall|k: int|
                    0 <= k < i ==> #[trigger] briefs@[k] == with_runtime(
                        old(briefs)@[k],
                        running@,
                        self.disk_cache@,
                    ),
                forall|k: int| i <= k < briefs@.len() ==> #[trigger] briefs@[k] == old(briefs)@[k],
            decreases briefs@.len() - i,
        {
            let mut b = InstanceBrief {
                id: briefs[i].id.clone(),
                name: briefs[i].name.clone(),
                data_dir: briefs[i].data_dir.clone(),
                is_default: briefs[i].is_default,
                bound_account_id: copy_opt(&briefs[i].bound_account_id),
                bound_account_email: copy_opt(&briefs[i].bound_account_email),
                bound_account_name: copy_opt(&briefs[i].bound_account_name),
                bound_account_avatar: copy_opt(&briefs[i].bound_account_avatar),
                bound_account_note: copy_opt(&briefs[i].bound_account_note),
                note: copy_opt(&briefs[i].note),
                machine_id: copy_opt(&briefs[i].machine_id),
                created_at: briefs[i].created_at,
                last_launched_at: briefs[i].last_launched_at,
                disk_usage: briefs[i].disk_usage,
                is_running: briefs[i].is_running,
                pid: briefs[i].pid,
            };
            if let Some(k) = running_index(running, b.data_dir.as_str()) {
                b.is_running = running[k].1;
                b.pid = running[k].2;
            }
            if let Some(c) = cache_index(&self.disk_cache, b.data_dir.as_str()) {
                b.disk_usage = self.disk_cache[c].size;
            }
            briefs.set(i, b);
            i = i + 1;
        }
    }

    /// The data directories of the briefs, in order, whose usage needs measuring at
    /// `now`.
    pub fn get_uncached_data_dirs(&self, briefs: &Vec<InstanceBrief>, now: i64) -> (r: Vec<String>)
        ensures
            r@ == briefs@.filter(brief_uncached(self.disk_cache@, now)).map_values(
                |b: InstanceBrief| b.data_dir,
            ),
    {
        let ghost pred = brief_uncached(self.disk_cache@, now);
        let mut r: Vec<String> = Vec::new();
        let mut i: usize = 0;
        while i < briefs.len()
            invariant
                i <= briefs@.len(),
                pred == brief_uncached(self.disk_cache@, now),
                r@ == briefs@.take(i as int).filter(pred).map_values(|b: InstanceBrief| b.data_dir),
            decreases briefs@.len() - i,
        {
            proof {
                reveal_with_fuel(Seq::<_>::filter, 1);
                assert(briefs@.take(i + 1).drop_last() =~= briefs@.take(i as int));
            }
            let b = &briefs[i];
            let stale = match cache_index(&self.disk_cache, b.data_dir.as_str()) {
                Some(c) => (now as i128) - (self.disk_cache[c].computed_at as i128) >= 300,
                None => true,
            };
            if stale {
                r.push(b.data_dir.clone());
            }
            proof {
                assert(r@ =~= briefs@.take(i + 1).filter(pred).map_values(|b: InstanceBrief| b.data_dir));
            }
            i = i + 1;
        }
        proof {
            assert(briefs@.take(briefs@.len() as int) =~= briefs@);
        }
        r
    }

    /// Records that `dir` measured `size` bytes at `at`.
    fn cache_put(&mut self, dir: String, at: i64, size: u64)
        ensures
            final(self).store == old(self).store,
            forall|d: Seq<char>|
                #[trigger] cache_get(final(self).disk_cache@, d) == if d == dir@ {
                    Some((at, size))
                } else {
                    cache_get(old(self).disk_cache@, d)
                },
    {
        let ghost dv = dir@;
        let ghost olde = self.disk_cache@;
        let entry = DiskCacheEntry { data_dir: dir, computed_at: at, size };
        match cache_index(&self.disk_cache, entry.data_dir.as_str()) {
            Some(k) => {
                self.disk_cache.set(k, entry);
                proof {
                    let newe = self.disk_cache@;
                    assert forall|d: Seq<char>|
                        #[trigger] cache_get(newe, d) == if d == dv {
                            Some((at, size))
                        } else {
                            cache_get(olde, d)
                        } by {
                        if d == dv {
                            lemma_first_match(olde, entry_dir_is(dv));
                            assert forall|j: int| 0 <= j < k implies !entry_dir_is(dv)(#[trigger] newe[j]) by {
                                assert(newe[j] == olde[j]);
                            }
                            lemma_first_match_at(newe, entry_dir_is(dv), k as int);
                        } else {
                            lemma_first_match(olde, entry_dir_is(dv));
                            assert(newe[k as int].data_dir@ == dv);
                            assert forall|j: int| 0 <= j < olde.len() implies entry_dir_is(d)(#[trigger] olde[j])
                                == entry_dir_is(d)(newe[j]) by {
                                if j != k {
                                    assert(newe[j] == olde[j]);
                                }
                            }
                            lemma_first_match_same(olde, newe, entry_dir_is(d));
                            lemma_first_match(olde, entry_dir_is(d));
                            if let Some(j) = first_match(olde, entry_dir_is(d)) {
                                assert(j != k);
                                assert(newe[j] == olde[j]);
                            }
                        }
                    }
                }
            },
            None => {
                let ghost x = entry;
                self.disk_cache.push(entry);
                proof {
                    assert forall|d: Seq<char>|
                        #[trigger] cache_get(self.disk_cache@, d) == if d == dv {
                            Some((at, size))
                        } else {
                            cache_get(olde, d)
                        } by {
                        lemma_first_match_push(olde, x, entry_dir_is(d));
                        lemma_first_match(olde, entry_dir_is(d));
                        if let Some(j) = first_match(olde, entry_dir_is(d)) {
                            assert(self.disk_cache@[j] == olde[j]);
                        }
                    }
                }
            },
        }
    }

    /// Records the sizes that the application measured at `now`, in order (for a
    /// directory measured twice, the later size stands).
    pub fn compute_disk_usage_for_dirs(&mut self, measured: &Vec<(String, u64)>, now: i64)
        ensures
            final(self).store == old(self).store,
            forall|d: Seq<char>|
                #[trigger] cache_get(final(self).disk_cache@, d) == match last_measured(measured@, d) {
                    Some(size) => Some((now, size)),
                    None => cache_get(old(self).disk_cache@, d),
                },
    {
        let mut i: usize = 0;
        while i < measured.len()
            invariant
                i <= measured@.len(),
                self.store == old(self).store,
                forall|d: Seq<char>|
                    #[trigger] cache_get(self.disk_cache@, d) == match last_measured(
                        measured@.take(i as int),
                        d,
                    ) {
                        Some(size) => Some((now, size)),
                        None => cache_get(old(self).disk_cache@, d),
                    },
            decreases measured@.len() - i,
        {
            let dir = measured[i].0.clone();
            let size = measured[i].1;
            self.cache_put(dir, now, size);
            proof {
                assert(measured@.take(i + 1).drop_last() =~= measured@.take(i as int));
                assert(measured@.take(i + 1).last() == measured@[i as int]);
            }
            i = i + 1;
        }
        proof {
            assert(measured@.take(measured@.len() as int) =~= measured@);
        }
    }

    /// Forgets what was measured for `data_dir`.
    pub fn invalidate_disk_cache(&mut self, data_dir: &str)
        ensures
            final(self).store == old(self).store,
            cache_get(final(self).disk_cache@, data_dir@) is None,
            forall|d: Seq<char>|
                d != data_dir@ ==> #[trigger] cache_get(final(self).disk_cache@, d) == cache_get(
                    old(self).disk_cache@,
                    d,
                ),
    {
        let ghost olde = self.disk_cache@;
        let mut kept: Vec<DiskCacheEntry> = Vec::new();
        let mut i: usize = 0;
        while i < self.disk_cache.len()
            invariant
                i <= olde.len(),
                self.disk_cache@ == olde,
                self.store == old(self).store,
                olde == old(self).disk_cache@,
                forall|j: int| 0 <= j < kept@.len() ==> !entry_dir_is(data_dir@)(#[trigger] kept@[j]),
                forall|d: Seq<char>|
                    d != data_dir@ ==> #[trigger] cache_get(kept@, d) == cache_get(olde.take(i as int), d),
            decreases olde.len() - i,
        {
            let e = &self.disk_cache[i];
            let ghost x = *e;
            let ghost before = kept@;
            assert(olde.take(i + 1) =~= olde.take(i as int).push(x));
            let same = str_eq(e.data_dir.as_str(), data_dir);
            if !same {
                kept.push(DiskCacheEntry {
                    data_dir: e.data_dir.clone(),
                    computed_at: e.computed_at,
                    size: e.size,
                });
                proof {
                    assert(kept@ == before.push(x));
                }
            }
            proof {
                assert forall|d: Seq<char>| d != data_dir@ implies #[trigger] cache_get(kept@, d) == cache_get(
                    olde.take(i + 1),
                    d,
                ) by {
                    assert(cache_get(before, d) == cache_get(olde.take(i as int), d));
                    lemma_first_match_push(olde.take(i as int), x, entry_dir_is(d));
                    lemma_first_match(olde.take(i as int), entry_dir_is(d));
                    if !same {
                        lemma_first_match_push(before, x, entry_dir_is(d));
                        lemma_first_match(before, entry_dir_is(d));
                        if let Some(j) = first_match(before, entry_dir_is(d)) {
                            assert(kept@[j] == before[j]);
                        }
                    }
                    if let Some(j) = first_match(olde.take(i as int), entry_dir_is(d)) {
                        assert(olde.take(i + 1)[j] == olde.take(i as int)[j]);
                    }
                }
            }
            i = i + 1;
        }
        proof {
            assert(olde.take(olde.len() as int) =~= olde);
            lemma_first_match_none(kept@, entry_dir_is(data_dir@));
        }
        self.disk_cache = kept;
    }

    /// Creates an instance named by the trimmed `name`, over the data directory that
    /// `chosen_dir` picks, bound to `account_id`; refused where the name is blank, no
    /// directory could be picked, or another instance uses the directory.
    pub fn create_instance(
        &mut self,
        name: String,
        data_dir: Option<String>,
        account_id: Option<String>,
        auto_dir: Option<String>,
        id: String,
        now: i64,
    ) -> (r: Result<TraeInstance, InstanceError>)
        ensures
            trim_spec(name@).len() == 0 ==> r == Err::<TraeInstance, InstanceError>(
                InstanceError::EmptyInstanceName,
            ) && *final(self) == *old(self),
            trim_spec(name@).len() > 0 ==> match chosen_dir(data_dir, auto_dir) {
                None => r == Err::<TraeInstance, InstanceError>(InstanceError::NoAppData) && *final(self)
                    == *old(self),
                Some(dir) => if dir_in_use(old(self).store.instances@, dir) {
                    r matches Err(InstanceError::DataDirTaken(x)) && x@ == dir && *final(self) == *old(self)
                } else {
                    r matches Ok(inst) && {
                        &&& inst.id == id
                        &&& inst.name@ == trim_spec(name@)
                        &&& inst.data_dir@ == dir
                        &&& !inst.is_default
                        &&& inst.bound_account_id == account_id
                        &&& inst.machine_id is None
                        &&& inst.note is None
                        &&& inst.created_at == now
                        &&& inst.updated_at == now
                        &&& inst.last_launched_at == 0
                        &&& final(self).store.instances@ == old(self).store.instances@.push(inst)
                        &&& final(self).disk_cache == old(self).disk_cache
                    }
                },
            },
            dirs_unique(old(self).store.instances@) ==> dirs_unique(final(self).store.instances@),
    {
        let trimmed = trim(name.as_str());
        if trimmed.as_str().is_empty() {
            return Err(InstanceError::EmptyInstanceName);
        }
        let dir = match data_dir {
            Some(d) => {
                let t = trim(d.as_str());
                if !t.as_str().is_empty() {
                    t
                } else {
                    match auto_dir {
                        Some(a) => a,
                        None => return Err(InstanceError::NoAppData),
                    }
                }
            },
            None => match auto_dir {
                Some(a) => a,
                None => return Err(InstanceError::NoAppData),
            },
        };
        if dir_taken(&self.store.instances, dir.as_str()) {
            return Err(InstanceError::DataDirTaken(dir));
        }
        let mut inst = TraeInstance::new(id, trimmed, dir, false, now);
        inst.bound_account_id = account_id;
        let result = inst.copy();
        let ghost olds = self.store.instances@;
        self.store.instances.push(inst);
        proof {
            let news = self.store.instances@;
            lemma_first_match(olds, inst_dir_is(result.data_dir@));
            assert forall|i: int, j: int|
                0 <= i < news.len() && 0 <= j < news.len() && i != j && dirs_unique(olds) implies #[trigger] news[i].data_dir@
                    != #[trigger] news[j].data_dir@ by {
                if i < olds.len() && j < olds.len() {
                    assert(news[i] == olds[i]);
                    assert(news[j] == olds[j]);
                } else if i < olds.len() {
                    assert(news[i] == olds[i]);
                    assert(!inst_dir_is(result.data_dir@)(olds[i]));
                } else {
                    assert(news[j] == olds[j]);
                    assert(!inst_dir_is(result.data_dir@)(olds[j]));
                }
            }
        }
        Ok(result)
    }

    /// Checks that the instance with id `id` may be deleted, and returns it: refused where
    /// there is none or it is the default instance.
    pub fn delete_instance_check(&self, id: &str) -> (r: Result<TraeInstance, InstanceError>)
        ensures
            match find_inst(self.store.instances@, id@) {
                None => r == Err::<TraeInstance, InstanceError>(InstanceError::NotFound),
                Some(i) => if self.store.instances@[i].is_default {
                    r == Err::<TraeInstance, InstanceError>(InstanceError::DefaultNotDeletable)
                } else {
                    r == Ok::<TraeInstance, InstanceError>(self.store.instances@[i])
                },
            },
    {
        match index_of_instance(&self.store.instances, id) {
            None => Err(InstanceError::NotFound),
            Some(i) => {
                if self.store.instances[i].is_default {
                    Err(InstanceError::DefaultNotDeletable)
                } else {
                    Ok(self.store.instances[i].copy())
                }
            },
        }
    }

    /// Deletes the instance with id `id` and forgets its measured disk usage; refused as
    /// `delete_instance_check` refuses. Removing its data directory is the application's
    /// part, done between the check and this call.
    pub fn delete_instance(&mut self, id: &str) -> (r: Result<TraeInstance, InstanceError>)
        ensures
            match find_inst(old(self).store.instances@, id@) {
                None => r == Err::<TraeInstance, InstanceError>(InstanceError::NotFound) && *final(self) == *old(self),
                Some(i) => if old(self).store.instances@[i].is_default {
                    r == Err::<TraeInstance, InstanceError>(InstanceError::DefaultNotDeletable)
                        && *final(self) == *old(self)
                } else {
                    let dir = old(self).store.instances@[i].data_dir@;
                    &&& r == Ok::<TraeInstance, InstanceError>(old(self).store.instances@[i])
                    &&& final(self).store.instances@ == old(self).store.instances@.remove(i)
                    &&& cache_get(final(self).disk_cache@, dir) is None
                    &&& forall|d: Seq<char>|
                        d != dir ==> #[trigger] cache_get(final(self).disk_cache@, d) == cache_get(
                            old(self).disk_cache@,
                            d,
                        )
                },
            },
            dirs_unique(old(self).store.instances@) ==> dirs_unique(final(self).store.instances@),
    {
        let inst = match self.delete_instance_check(id) {
            Ok(inst) => inst,
            Err(e) => return Err(e),
        };
        let pos = match index_of_instance(&self.store.instances, id) {
            Some(p) => p,
            None => return Err(InstanceError::NotFound),
        };
        self.invalidate_disk_cache(inst.data_dir.as_str());
        let ghost olds = self.store.instances@;
        self.store.instances.remove(pos);
        proof {
            let news = self.store.instances@;
            assert forall|i: int, j: int|
                0 <= i < news.len() && 0 <= j < news.len() && i != j && dirs_unique(olds) implies #[trigger] news[i].data_dir@
                    != #[trigger] news[j].data_dir@ by {
                let i2 = if i < pos { i } else { i + 1 };
                let j2 = if j < pos { j } else { j + 1 };
                assert(news[i] == olds[i2]);
                assert(news[j] == olds[j2]);
            }
        }
        Ok(inst)
    }

    /// Renames the instance with id `id` to the trimmed `new_name` and returns it renamed;
    /// refused where the name is blank or there is no such instance.
    pub fn rename_instance(&mut self, id: &str, new_name: &str, now: i64) -> (r: Result<
        TraeInstance,
        InstanceError,
    >)
        ensures
            trim_spec(new_name@).len() == 0 ==> r == Err::<TraeInstance, InstanceError>(
                InstanceError::EmptyName,
            ) && *final(self) == *old(self),
            trim_spec(new_name@).len() > 0 ==> match find_inst(old(self).store.instances@, id@) {
                None => r == Err::<TraeInstance, InstanceError>(InstanceError::NotFound) && *final(self) == *old(self),
                Some(i) => r matches Ok(inst) && inst.name@ == trim_spec(new_name@) && inst == (
                TraeInstance { name: inst.name, updated_at: now, ..old(self).store.instances@[i] })
                    && instance_replaced(*old(self), *final(self), i, inst),
            },
            dirs_unique(old(self).store.instances@) ==> dirs_unique(final(self).store.instances@),
    {
        let name = trim(new_name);
        if name.as_str().is_empty() {
            return Err(InstanceError::EmptyName);
        }
        let i = match index_of_instance(&self.store.instances, id) {
            Some(i) => i,
            None => return Err(InstanceError::NotFound),
        };
        let mut inst = self.store.instances[i].copy();
        inst.name = name;
        inst.updated_at = now;
        let result = inst.copy();
        self.replace_instance(i, inst);
        Ok(result)
    }

    /// Replaces the instance at position `i` by one with the same data directory.
    fn replace_instance(&mut self, i: usize, inst: TraeInstance)
        requires
            i < old(self).store.instances@.len(),
            inst.data_dir == old(self).store.instances@[i as int].data_dir,
        ensures
            instance_replaced(*old(self), *final(self), i as int, inst),
            dirs_unique(old(self).store.instances@) ==> dirs_unique(final(self).store.instances@),
    {
        let ghost olds = self.store.instances@;
        self.store.instances.set(i, inst);
        proof {
            let news = self.store.instances@;
            assert forall|p: int, q: int|
                0 <= p < news.len() && 0 <= q < news.len() && p != q && dirs_unique(olds) implies #[trigger] news[p].data_dir@
                    != #[trigger] news[q].data_dir@ by {
                assert(news[p].data_dir == olds[p].data_dir);
                assert(news[q].data_dir == olds[q].data_dir);
            }
        }
    }

    /// Replaces the note of the instance with id `id`.
    pub fn update_instance_note(&mut self, id: &str, note: Option<String>, now: i64) -> (r: Result<
        (),
        InstanceError,
    >)
        ensures
            match find_inst(old(self).store.instances@, id@) {
                None => r == Err::<(), InstanceError>(InstanceError::NotFound) && *final(self) == *old(self),
                Some(i) => r is Ok && instance_replaced(
                    *old(self),
                    *final(self),
                    i,
                    TraeInstance { note: note, updated_at: now, ..old(self).store.instances@[i] },
                ),
            },
            dirs_unique(old(self).store.instances@) ==> dirs_unique(final(self).store.instances@),
    {
        let i = match index_of_instance(&self.store.instances, id) {
            Some(i) => i,
            None => return Err(InstanceError::NotFound),
        };
        let mut inst = self.store.instances[i].copy();
        inst.note = note;
        inst.updated_at = now;
        self.replace_instance(i, inst);
        Ok(())
    }

    /// Binds the instance with id `instance_id` to `account_id` (or unbinds it). Where an
    /// account is given, returns its login record (with its refresh token) and machine
    /// code for the application to write into the data directory; refused where the
    /// account does not exist or has no token, the binding being recorded all the same.
    pub fn bind_account(
        &mut self,
        instance_id: &str,
        account_id: Option<&str>,
        account_manager: &AccountManager,
        now: i64,
    ) -> (r: Result<Option<(TraeLoginInfo, Option<String>)>, InstanceError>)
        ensures
            match find_inst(old(self).store.instances@, instance_id@) {
                None => r == Err::<Option<(TraeLoginInfo, Option<String>)>, InstanceError>(
                    InstanceError::NotFound,
                ) && *final(self) == *old(self),
                Some(i) => {
                    &&& instance_replaced(
                        *old(self),
                        *final(self),
                        i,
                        TraeInstance {
                            bound_account_id: final(self).store.instances@[i].bound_account_id,
                            updated_at: now,
                            ..old(self).store.instances@[i]
                        },
                    )
                    &&& match account_id {
                        None => final(self).store.instances@[i].bound_account_id is None && r
                            == Ok::<Option<(TraeLoginInfo, Option<String>)>, InstanceError>(None),
                        Some(aid) => final(self).store.instances@[i].bound_account_id matches Some(
                            b,
                        ) && b@ == aid@ && match find_id(account_manager.store.accounts@, aid@) {
                            None => r == Err::<Option<(TraeLoginInfo, Option<String>)>, InstanceError>(
                                InstanceError::AccountNotFound,
                            ),
                            Some(k) => {
                                let a = account_manager.store.accounts@[k];
                                if a.jwt_token is None {
                                    r == Err::<Option<(TraeLoginInfo, Option<String>)>, InstanceError>(
                                        InstanceError::NoToken,
                                    )
                                } else {
                                    r matches Ok(Some(p)) && is_account_login(p, a)
                                }
                            },
                        },
                    }
                },
            },
            dirs_unique(old(self).store.instances@) ==> dirs_unique(final(self).store.instances@),
    {
        let i = match index_of_instance(&self.store.instances, instance_id) {
            Some(i) => i,
            None => return Err(InstanceError::NotFound),
        };
        let mut inst = self.store.instances[i].copy();
        inst.bound_account_id = match account_id {
            Some(a) => Some(a.to_owned()),
            None => None,
        };
        inst.updated_at = now;
        self.replace_instance(i, inst);
        match account_id {
            None => Ok(None),
            Some(aid) => {
                let account = match account_manager.get_account_ref(aid) {
                    Some(a) => a,
                    None => return Err(InstanceError::AccountNotFound),
                };
                if account.jwt_token.is_none() {
                    return Err(InstanceError::NoToken);
                }
                let login = login_info_of(account, copy_opt(&account.refresh_token));
                Ok(Some((login, copy_opt(&account.machine_id))))
            },
        }
    }

    /// What launching the instance with id `id` needs.
    pub fn launch_plan(&self, id: &str, account_manager: &AccountManager) -> (r: Result<
        LaunchPlan,
        InstanceError,
    >)
        ensures
            match find_inst(self.store.instances@, id@) {
                None => r == Err::<LaunchPlan, InstanceError>(InstanceError::NotFound),
                Some(i) => r matches Ok(p) && p.data_dir == self.store.instances@[i].data_dir && p.name
                    == self.store.instances@[i].name && is_bound_login(
                    p.login,
                    self.store.instances@[i],
                    account_manager.store.accounts@,
                ),
            },
    {
        let i = match index_of_instance(&self.store.instances, id) {
            Some(i) => i,
            None => return Err(InstanceError::NotFound),
        };
        let inst = &self.store.instances[i];
        let found = match &inst.bound_account_id {
            Some(aid) => account_manager.get_account_ref(aid.as_str()),
            None => None,
        };
        let login = match found {
            Some(a) => if a.jwt_token.is_some() {
                Some((login_info_of(a, copy_opt(&a.refresh_token)), copy_opt(&a.machine_id)))
            } else {
                None
            },
            None => None,
        };
        Ok(LaunchPlan { data_dir: inst.data_dir.clone(), name: inst.name.clone(), login })
    }

    /// Records that the instance with id `id` was launched at `now`; tells whether there
    /// was such an instance.
    pub fn launch_instance(&mut self, id: &str, now: i64) -> (r: bool)
        ensures
            match find_inst(old(self).store.instances@, id@) {
                None => !r && *final(self) == *old(self),
                Some(i) => r && instance_replaced(
                    *old(self),
                    *final(self),
                    i,
                    TraeInstance {
                        last_launched_at: now,
                        updated_at: now,
                        ..old(self).store.instances@[i]
                    },
                ),
            },
            dirs_unique(old(self).store.instances@) ==> dirs_unique(final(self).store.instances@),
    {
        match index_of_instance(&self.store.instances, id) {
            Some(i) => {
                let mut inst = self.store.instances[i].copy();
                inst.last_launched_at = now;
                inst.updated_at = now;
                self.replace_instance(i, inst);
                true
            },
            None => false,
        }
    }

    /// Adds an instance found on disk over `data_dir`, with the note "自动发现", unless an
    /// instance already uses that directory; tells whether it added one.
    pub fn add_discovered(
        &mut self,
        data_dir: String,
        name: String,
        is_default: bool,
        id: String,
        now: i64,
    ) -> (r: bool)
        ensures
            dir_in_use(old(self).store.instances@, data_dir@) ==> !r && *final(self) == *old(self),
            !dir_in_use(old(self).store.instances@, data_dir@) ==> r && final(self).disk_cache
                == old(self).disk_cache && final(self).store.instances@.len()
                == old(self).store.instances@.len() + 1 && final(self).store.instances@.drop_last()
                == old(self).store.instances@ && ({
                let inst = final(self).store.instances@.last();
                &&& inst.id == id
                &&& inst.name == name
                &&& inst.data_dir == data_dir
                &&& inst.is_default == is_default
                &&& inst.bound_account_id is None
                &&& inst.machine_id is None
                &&& inst.note matches Some(n) && n@ == "自动发现"@
                &&& inst.created_at == now
                &&& inst.updated_at == now
                &&& inst.last_launched_at == 0
            }),
            dirs_unique(old(self).store.instances@) ==> dirs_unique(final(self).store.instances@),
    {
        if dir_taken(&self.store.instances, data_dir.as_str()) {
            return false;
        }
        let ghost dv = data_dir@;
        let mut inst = TraeInstance::new(id, name, data_dir, is_default, now);
        inst.note = Some("自动发现".to_string());
        let ghost olds = self.store.instances@;
        self.store.instances.push(inst);
        proof {
            let news = self.store.instances@;
            assert(news.drop_last() =~= olds);
            lemma_first_match(olds, inst_dir_is(dv));
            assert forall|i: int, j: int|
                0 <= i < news.len() && 0 <= j < news.len() && i != j && dirs_unique(olds) implies #[trigger] news[i].data_dir@
                    != #[trigger] news[j].data_dir@ by {
                if i < olds.len() && j < olds.len() {
                    assert(news[i] == olds[i]);
                    assert(news[j] == olds[j]);
                } else if i < olds.len() {
                    assert(news[i] == olds[i]);
                    assert(!inst_dir_is(dv)(olds[i]));
                } else {
                    assert(news[j] == olds[j]);
                    assert(!inst_dir_is(dv)(olds[j]));
                }
            }
        }
        true
    }

    /// Binds each instance whose data directory holds a login (`logins`, one entry per
    /// instance, as the application read them) to an account of that login's user: an
    /// instance already bound to such an account is left alone; otherwise it is bound to
    /// the first stored account of the user, and where there is none, an account is made
    /// from the login (source "local"). Tells whether any binding changed.
    #[verifier::loop_isolation(false)]
    pub fn auto_bind_accounts(
        &mut self,
        account_manager: &mut AccountManager,
        logins: &Vec<Option<DirLogin>>,
        now: i64,
    ) -> (changed: bool)
        requires
            logins@.len() == old(self).store.instances@.len(),
            logins_nameable(logins@, old(account_manager).store.accounts@),
            fresh_ids(logins@, old(account_manager).store.accounts@, old(self).store.instances@),
        ensures
            final(self).disk_cache == old(self).disk_cache,
            final(self).store.instances@.len() == old(self).store.instances@.len(),
            forall|k: int|
                0 <= k < old(self).store.instances@.len() ==> only_binding_changed(
                    old(self).store.instances@[k],
                    #[trigger] final(self).store.instances@[k],
                ),
            !changed ==> final(self).store.instances == old(self).store.instances,
            old(account_manager).store.accounts@.len() <= final(account_manager).store.accounts@.len(),
            final(account_manager).store.accounts@.subrange(
                0,
                old(account_manager).store.accounts@.len() as int,
            ) == old(account_manager).store.accounts@,
            active_valid(old(account_manager).store) ==> active_valid(final(account_manager).store),
            user_ids_unique(old(account_manager).store.accounts@) ==> user_ids_unique(
                final(account_manager).store.accounts@,
            ),
            ids_unique(old(account_manager).store.accounts@) ==> ids_unique(
                final(account_manager).store.accounts@,
            ),
            account_views(final(account_manager).store.accounts@) == accounts_after_binding(
                old(self).store.instances@,
                logins@,
                old(account_manager).store.accounts@,
                now,
                old(self).store.instances@.len(),
            ),
            instance_ids_unique(old(self).store.instances@) ==> forall|k: int|
                0 <= k < old(self).store.instances@.len() ==> #[trigger] final(self).store.instances@[k]
                    == auto_bound(
                    old(self).store.instances@[k],
                    logins@[k],
                    old(account_manager).store.accounts@,
                    final(account_manager).store.accounts@,
                    now,
                ),
            instance_ids_unique(old(self).store.instances@) && ids_unique(
                old(account_manager).store.accounts@,
            ) ==> forall|k: int|
                0 <= k < old(self).store.instances@.len() && login_user(#[trigger] logins@[k]) is Some
                    ==> bound_to_user(
                    final(self).store.instances@[k],
                    final(account_manager).store.accounts@,
                    login_user(logins@[k])->Some_0,
                ),
    {
        let n = self.store.instances.len();
        let ghost old_insts = self.store.instances@;
        let ghost old_accs = account_manager.store.accounts@;
        let ghost old_len = old_accs.len();
        let mut snap_ids: Vec<String> = Vec::new();
        let mut snap_bound: Vec<Option<String>> = Vec::new();
        let mut p: usize = 0;
        while p < n
            invariant
                p <= n,
                self.store.instances@ == old_insts,
                snap_ids@.len() == p,
                snap_bound@.len() == p,
                forall|j: int| 0 <= j < p ==> #[trigger] snap_ids@[j] == old_insts[j].id,
                forall|j: int| 0 <= j < p ==> #[trigger] snap_bound@[j] == old_insts[j].bound_account_id,
            decreases n - p,
        {
            snap_ids.push(self.store.instances[p].id.clone());
            snap_bound.push(copy_opt(&self.store.instances[p].bound_account_id));
            p = p + 1;
        }
        let mut changed = false;
        let mut k: usize = 0;
        while k < n
            invariant
                k <= n,
                n == old_insts.len(),
                logins@.len() == n,
                snap_ids@.len() == n,
                snap_bound@.len() == n,
                forall|j: int| 0 <= j < n ==> #[trigger] snap_ids@[j] == old_insts[j].id,
                forall|j: int| 0 <= j < n ==> #[trigger] snap_bound@[j] == old_insts[j].bound_account_id,
                old_insts == old(self).store.instances@,
                old_accs == old(account_manager).store.accounts@,
                old_len == old_accs.len(),
                self.disk_cache == old(self).disk_cache,
                self.store.instances@.len() == n,
                forall|j: int|
                    0 <= j < n ==> only_binding_changed(old_insts[j], #[trigger] self.store.instances@[j]),
                forall|j: int| 0 <= j < n ==> #[trigger] self.store.instances@[j].id == old_insts[j].id,
                !changed ==> self.store.instances == old(self).store.instances,
                old_len <= account_manager.store.accounts@.len(),
                account_manager.store.accounts@.subrange(0, old_len as int) == old_accs,
                forall|m: int|
                    #![trigger account_manager.store.accounts@[m]]
                    old_len <= m < account_manager.store.accounts@.len() ==> exists|j: int|
                        #![trigger logins@[j]]
                        0 <= j < k && logins@[j] is Some && account_manager.store.accounts@[m].id@
                            == logins@[j]->Some_0.new_account_id@,
                active_valid(old(account_manager).store) ==> active_valid(account_manager.store),
                user_ids_unique(old_accs) ==> user_ids_unique(account_manager.store.accounts@),
                ids_unique(old_accs) ==> ids_unique(account_manager.store.accounts@),
                account_views(account_manager.store.accounts@) == accounts_after_binding(
                    old_insts,
                    logins@,
                    old_accs,
                    now,
                    k as nat,
                ),
                instance_ids_unique(old_insts) ==> forall|j: int|
                    0 <= j < k ==> #[trigger] self.store.instances@[j] == auto_bound(
                        old_insts[j],
                        logins@[j],
                        old_accs,
                        account_manager.store.accounts@,
                        now,
                    ),
                forall|j: int|
                    0 <= j < k && login_user(#[trigger] logins@[j]) is Some ==> first_match(
                        account_manager.store.accounts@,
                        user_id_is(login_user(logins@[j])->Some_0),
                    ) is Some,
                instance_ids_unique(old_insts) ==> forall|j: int|
                    k <= j < n ==> #[trigger] self.store.instances@[j] == old_insts[j],
            decreases n - k,
        {
            let ghost accs_before = account_manager.store.accounts@;
            let ghost insts_before = self.store.instances@;
            let mut target: Option<String> = None;
            match &logins[k] {
                None => {},
                Some(login) => {
                    if !login.info.user_id.as_str().is_empty() {
                        let uid = login.info.user_id.as_str();
                        let current_valid = match &snap_bound[k] {
                            Some(aid) => match account_manager.get_account_ref(aid.as_str()) {
                                Some(a) => str_eq(a.user_id.as_str(), uid),
                                None => false,
                            },
                            None => false,
                        };
                        proof {
                            if let Some(b) = old_insts[k as int].bound_account_id {
                                assert forall|m: int|
                                    old_len <= m < accs_before.len() implies #[trigger] accs_before[m].id@
                                        != b@ by {
                                    let j = choose|j: int|
                                        #![trigger logins@[j]]
                                        0 <= j < k && logins@[j] is Some && accs_before[m].id@
                                            == logins@[j]->Some_0.new_account_id@;
                                    assert(!names_opt(old_insts[k as int].bound_account_id, logins@[j]->Some_0.new_account_id@));
                                }
                                lemma_find_id_grown(old_accs, accs_before, b@);
                                if let Some(i) = find_id(old_accs, b@) {
                                    lemma_first_match(old_accs, id_is(b@));
                                    assert(accs_before[i] == old_accs[i]);
                                }
                            }
                            assert(current_valid == bound_to_user(old_insts[k as int], old_accs, uid@));
                            if current_valid {
                                let b = old_insts[k as int].bound_account_id->Some_0;
                                let i = find_id(old_accs, b@)->Some_0;
                                lemma_first_match(old_accs, id_is(b@));
                                lemma_first_match(old_accs, user_id_is(uid@));
                                assert(user_id_is(uid@)(old_accs[i]));
                                lemma_first_user_grown(old_accs, accs_before, uid@);
                            }
                        }
                        if !current_valid {
                            match account_manager.find_account_by_user_id(uid) {
                                Some(a) => {
                                    proof {
                                        lemma_first_match(accs_before, user_id_is(uid@));
                                        let i = first_match(accs_before, user_id_is(uid@))->Some_0;
                                        assert(account_views(accs_before)[i].user_id == uid@);
                                    }
                                    let same = match &snap_bound[k] {
                                        Some(b) => str_eq(b.as_str(), a.id.as_str()),
                                        None => false,
                                    };
                                    if !same {
                                        target = Some(a.id.clone());
                                    }
                                },
                                None => {
                                    proof {
                                        lemma_first_match(accs_before, user_id_is(uid@));
                                        if first_match(old_accs, user_id_is(uid@)) is Some {
                                            lemma_first_user_grown(old_accs, accs_before, uid@);
                                        }
                                        assert(logins@[k as int] is Some);
                                        assert forall|j: int|
                                            0 <= j < accs_before.len() implies account_views(accs_before)[j].user_id
                                                != uid@ by {
                                            assert(!user_id_is(uid@)(accs_before[j]));
                                        }
                                    }
                                    let made = account_manager.add_account_from_local_login(
                                        login.info.user_id.clone(),
                                        login.tenant_id.clone(),
                                        login.info.token.clone(),
                                        copy_opt(&login.info.refresh_token),
                                        login.info.email.clone(),
                                        login.info.username.clone(),
                                        login.info.avatar_url.clone(),
                                        login.info.region.clone(),
                                        login.new_account_id.clone(),
                                        now,
                                    );
                                    match made {
                                        Ok(a) => {
                                            proof {
                                                let accs_after = account_manager.store.accounts@;
                                                assert(accs_after == accs_before.push(a));
                                                assert(account_views(accs_after) =~= account_views(accs_before).push(a@));
                                                assert(a@ == local_login_view(logins@[k as int]->Some_0, now));
                                                lemma_first_match_push(accs_before, a, user_id_is(uid@));
                                                assert forall|j: int|
                                                    0 <= j < k && login_user(#[trigger] logins@[j]) is Some implies first_match(
                                                        accs_after,
                                                        user_id_is(login_user(logins@[j])->Some_0),
                                                    ) is Some by {
                                                    lemma_first_match_push(
                                                        accs_before,
                                                        a,
                                                        user_id_is(login_user(logins@[j])->Some_0),
                                                    );
                                                }
                                                if ids_unique(old_accs) {
                                                    lemma_first_match(old_accs, id_is(a.id@));
                                                    assert forall|m: int|
                                                        0 <= m < accs_before.len() implies #[trigger] accs_before[m].id@
                                                            != a.id@ by {
                                                        if m < old_len {
                                                            assert(accs_before.subrange(0, old_len as int)[m]
                                                                == accs_before[m]);
                                                            assert(!id_is(a.id@)(old_accs[m]));
                                                        } else {
                                                            let j = choose|j: int|
                                                                #![trigger logins@[j]]
                                                                0 <= j < k && logins@[j] is Some && accs_before[m].id@
                                                                    == logins@[j]->Some_0.new_account_id@;
                                                            assert(logins@[j] is Some);
                                                            assert(logins@[k as int] is Some);
                                                        }
                                                    }
                                                }
                                            }
                                            target = Some(a.id);
                                        },
                                        Err(_) => {},
                                    }
                                },
                            }
                        }
                    }
                },
            }
            proof {
                let accs_after = account_manager.store.accounts@;
                assert(accs_after.subrange(0, accs_before.len() as int) =~= accs_before);
                assert forall|j: int|
                    0 <= j < k && login_user(#[trigger] logins@[j]) is Some implies first_user_account(
                        accs_after,
                        login_user(logins@[j])->Some_0,
                    ) == first_user_account(accs_before, login_user(logins@[j])->Some_0) by {
                    lemma_first_user_grown(accs_before, accs_after, login_user(logins@[j])->Some_0);
                }
                assert(match target {
                    Some(t) => auto_bound(old_insts[k as int], logins@[k as int], old_accs, accs_after, now)
                        == (TraeInstance {
                        bound_account_id: Some(t),
                        updated_at: now,
                        ..old_insts[k as int]
                    }),
                    None => auto_bound(old_insts[k as int], logins@[k as int], old_accs, accs_after, now)
                        == old_insts[k as int],
                });
            }
            if let Some(new_id) = target {
                match index_of_instance(&self.store.instances, snap_ids[k].as_str()) {
                    Some(i) => {
                        proof {
                            lemma_first_match(self.store.instances@, inst_id_is(snap_ids@[k as int]@));
                            assert(self.store.instances@[i as int].id == old_insts[i as int].id);
                        }
                        let mut inst = self.store.instances[i].copy();
                        inst.bound_account_id = Some(new_id);
                        inst.updated_at = now;
                        self.replace_instance(i, inst);
                        changed = true;
                    },
                    None => {
                        proof {
                            lemma_first_match(self.store.instances@, inst_id_is(snap_ids@[k as int]@));
                            assert(self.store.instances@[k as int].id == old_insts[k as int].id);
                        }
                    },
                }
            }
            k = k + 1;
        }
        proof {
            let accs = account_manager.store.accounts@;
            if instance_ids_unique(old_insts) && ids_unique(old_accs) {
                assert forall|j: int|
                    0 <= j < n && login_user(#[trigger] logins@[j]) is Some implies bound_to_user(
                        self.store.instances@[j],
                        accs,
                        login_user(logins@[j])->Some_0,
                    ) by {
                    lemma_auto_bound_binds(old_insts[j], logins@[j], old_accs, accs, now);
                }
            }
        }
        changed
    }

    /// The data directory of the first instance with id `id`.
    pub fn get_instance_data_dir(&self, id: &str) -> (r: Option<String>)
        ensures
            match find_inst(self.store.instances@, id@) {
                Some(i) => r == Some(self.store.instances@[i].data_dir),
                None => r is None,
            },
    {
        match index_of_instance(&self.store.instances, id) {
            Some(i) => Some(self.store.instances[i].data_dir.clone()),
            None => None,
        }
    }
}

/// `s` written inside a single-quoted PowerShell string: each quote doubled.
pub open spec fn ps_escape(s: Seq<char>) -> Seq<char>
    decreases s.len(),
{
    if s.len() == 0 {
        s
    } else {
        ps_escape(s.drop_last()) + if s.last() == '\'' {
            seq!['\'', '\'']
        } else {
            seq![s.last()]
        }
    }
}

/// `s` with each single quote doubled.
pub fn ps_escaped(s: &str) -> (r: String)
    ensures
        r@ == ps_escape(s@),
{
    let cs = str_chars(s);
    let mut out = String::new();
    let mut i: usize = 0;
    while i < cs.len()
        invariant
            cs@ == s@,
            i <= cs@.len(),
            out@ == ps_escape(s@.take(i as int)),
        decreases cs@.len() - i,
    {
        proof {
            assert(s@.take(i + 1).drop_last() =~= s@.take(i as int));
        }
        if cs[i] == '\'' {
            push_char(&mut out, '\'');
            push_char(&mut out, '\'');
        } else {
            push_char(&mut out, cs[i]);
        }
        i = i + 1;
        assert(out@ =~= ps_escape(s@.take(i as int)));
    }
    assert(s@.take(cs@.len() as int) =~= s@);
    out
}

/// What a desktop shortcut for an instance needs: its file name, the instance's data
/// directory, and the product's program.
#[derive(Debug, Clone, PartialEq, Eq)]
pub struct ShortcutRequest {
    pub file_name: String,
    pub data_dir: String,
    pub exe_path: String,
}

/// The PowerShell command that creates a shortcut at `shortcut_path` starting the program
/// `exe_path` on the data directory `data_dir`, in the working directory `exe_dir`.
pub open spec fn shortcut_script_spec(
    shortcut_path: Seq<char>,
    exe_path: Seq<char>,
    data_dir: Seq<char>,
    exe_dir: Seq<char>,
) -> Seq<char> {
    "$ws = New-Object -ComObject WScript.Shell; $s = $ws.CreateShortcut('"@ + shortcut_path
        + "'); $s.TargetPath = '"@ + ps_escape(exe_path) + "'; $s.Arguments = '"@ + ps_escape(
        "--user-data-dir=\""@ + data_dir + "\""@,
    ) + "'; $s.IconLocation = '"@ + ps_escape(exe_path) + "'; $s.WorkingDirectory = '"@ + ps_escape(
        exe_dir,
    ) + "'; $s.Save()"@
}

/// The PowerShell command that creates an instance's desktop shortcut.
pub fn shortcut_script(shortcut_path: &str, exe_path: &str, data_dir: &str, exe_dir: &str) -> (r:
    String)
    ensures
        r@ == shortcut_script_spec(shortcut_path@, exe_path@, data_dir@, exe_dir@),
{
    let arg = concat(concat("--user-data-dir=\"", data_dir).as_str(), "\"");
    let exe = ps_escaped(exe_path);
    let mut s = concat("$ws = New-Object -ComObject WScript.Shell; $s = $ws.CreateShortcut('", shortcut_path);
    s.append("'); $s.TargetPath = '");
    s.append(exe.as_str());
    s.append("'; $s.Arguments = '");
    s.append(ps_escaped(arg.as_str()).as_str());
    s.append("'; $s.IconLocation = '");
    s.append(exe.as_str());
    s.append("'; $s.WorkingDirectory = '");
    s.append(ps_escaped(exe_dir).as_str());
    s.append("'; $s.Save()");
    s
}

impl InstanceManager {
    /// What a desktop shortcut for the instance with id `id` needs, given where the
    /// product's program is (`None` where it has not been located). The shortcut is
    /// named "TRAE Work CN - " and the instance's name, with the extension ".lnk".
    pub fn create_instance_shortcut(&self, id: &str, exe_path: Option<String>) -> (r: Result<
        ShortcutRequest,
        InstanceError,
    >)
        ensures
            match find_inst(self.store.instances@, id@) {
                None => r == Err::<ShortcutRequest, InstanceError>(InstanceError::NotFound),
                Some(i) => match exe_path {
                    None => r == Err::<ShortcutRequest, InstanceError>(InstanceError::NoProductPath),
                    Some(p) => r matches Ok(q) && q.file_name@ == "TRAE Work CN - "@
                        + self.store.instances@[i].name@ + ".lnk"@ && q.data_dir
                        == self.store.instances@[i].data_dir && q.exe_path == p,
                },
            },
    {
        let i = match index_of_instance(&self.store.instances, id) {
            Some(i) => i,
            None => return Err(InstanceError::NotFound),
        };
        let exe_path = match exe_path {
            Some(p) => p,
            None => return Err(InstanceError::NoProductPath),
        };
        let inst = &self.store.instances[i];
        let file_name = concat(concat("TRAE Work CN - ", inst.name.as_str()).as_str(), ".lnk");
        Ok(ShortcutRequest { file_name, data_dir: inst.data_dir.clone(), exe_path })
    }
}

} // verus!
