use trae_manager::account_manager::AccountManager;
use trae_manager::account_types::{Account, AccountStore};
use trae_manager::instance_manager::{
    inferred_instance_name, instance_dir_name, is_discovery_candidate, migrate_from_accounts, multi_data_dir_name,
    ps_escaped, shortcut_script, window_title, writes_window_title, DirLogin, InstanceError, InstanceManager,
    DISK_CACHE_TTL_SECS,
};
use trae_manager::instance_types::{InstanceStore, TraeInstance};
use trae_manager::machine::TraeLoginInfo;

fn manager() -> InstanceManager {
    InstanceManager::new(migrate_from_accounts("C:\\AppData\\TRAE SOLO CN".to_string(), "def".to_string(), 1))
}

fn accounts(list: &[(&str, &str, Option<&str>)]) -> AccountManager {
    let accounts: Vec<Account> = list
        .iter()
        .map(|(id, uid, tok)| {
            let mut a = Account::new(
                id.to_string(),
                format!("n-{}", id),
                format!("{}@m", id),
                String::new(),
                uid.to_string(),
                "t".to_string(),
                0,
            );
            a.jwt_token = tok.map(|t| t.to_string());
            a
        })
        .collect();
    AccountManager::new(AccountStore { accounts, active_account_id: None, current_account_id: None })
}

fn login(user_id: &str, new_id: &str) -> DirLogin {
    DirLogin {
        info: TraeLoginInfo {
            token: "tok".to_string(),
            refresh_token: None,
            user_id: user_id.to_string(),
            email: String::new(),
            username: "U".to_string(),
            avatar_url: String::new(),
            host: String::new(),
            region: "CN".to_string(),
        },
        tenant_id: "t".to_string(),
        new_account_id: new_id.to_string(),
    }
}

#[test]
fn migration_makes_default() {
    let m = manager();
    assert_eq!(m.store.instances.len(), 1);
    let d = &m.store.instances[0];
    assert!(d.is_default);
    assert_eq!(d.name, "默认");
    assert_eq!(d.last_launched_at, 0);
}

#[test]
fn create_instance_rules() {
    let mut m = manager();
    assert_eq!(
        m.create_instance("  ".to_string(), None, None, Some("D:\\a".to_string()), "i1".to_string(), 2),
        Err(InstanceError::EmptyInstanceName)
    );
    assert_eq!(m.create_instance("x".to_string(), None, None, None, "i1".to_string(), 2), Err(InstanceError::NoAppData));
    let inst = m
        .create_instance(" Work ".to_string(), Some(" D:\\w ".to_string()), Some("acc".to_string()), None, "i1".to_string(), 2)
        .unwrap();
    assert_eq!(inst.name, "Work");
    assert_eq!(inst.data_dir, "D:\\w");
    assert_eq!(inst.bound_account_id, Some("acc".to_string()));
    assert_eq!(
        m.create_instance("y".to_string(), Some("D:\\w".to_string()), None, None, "i2".to_string(), 3),
        Err(InstanceError::DataDirTaken("D:\\w".to_string()))
    );
    assert_eq!(InstanceError::DataDirTaken("D:\\w".to_string()).message(), "数据目录已被其他实例占用: D:\\w");
    assert_eq!(m.store.instances.len(), 2);
}

#[test]
fn delete_and_rename() {
    let mut m = manager();
    assert_eq!(m.delete_instance("def"), Err(InstanceError::DefaultNotDeletable));
    assert_eq!(m.delete_instance("nope"), Err(InstanceError::NotFound));
    m.create_instance("w".to_string(), Some("D:\\w".to_string()), None, None, "i1".to_string(), 2).unwrap();
    m.compute_disk_usage_for_dirs(&vec![("D:\\w".to_string(), 99)], 5);
    let gone = m.delete_instance("i1").unwrap();
    assert_eq!(gone.id, "i1");
    assert_eq!(m.store.instances.len(), 1);
    assert!(m.disk_cache.iter().all(|e| e.data_dir != "D:\\w"));
    assert_eq!(m.rename_instance("def", "   ", 3), Err(InstanceError::EmptyName));
    let r = m.rename_instance("def", " Home ", 4).unwrap();
    assert_eq!(r.name, "Home");
    assert_eq!(r.updated_at, 4);
    m.update_instance_note("def", Some("n".to_string()), 5).unwrap();
    assert_eq!(m.store.instances[0].note, Some("n".to_string()));
    assert_eq!(m.update_instance_note("x", None, 6), Err(InstanceError::NotFound));
}

#[test]
fn disk_cache_ttl() {
    let mut m = manager();
    let am = accounts(&[]);
    let briefs = m.list_instances_basic(&am);
    assert_eq!(m.get_uncached_data_dirs(&briefs, 100), vec!["C:\\AppData\\TRAE SOLO CN".to_string()]);
    m.compute_disk_usage_for_dirs(&vec![("C:\\AppData\\TRAE SOLO CN".to_string(), 1234)], 100);
    assert!(m.get_uncached_data_dirs(&briefs, 100 + DISK_CACHE_TTL_SECS - 1).is_empty());
    assert_eq!(m.get_uncached_data_dirs(&briefs, 100 + DISK_CACHE_TTL_SECS).len(), 1);
    let mut b2 = briefs.clone();
    m.compute_runtime_info(&mut b2, &vec![("C:\\AppData\\TRAE SOLO CN".to_string(), true, Some(42))]);
    assert_eq!(b2[0].disk_usage, 1234);
    assert!(b2[0].is_running);
    assert_eq!(b2[0].pid, Some(42));
    m.invalidate_disk_cache("C:\\AppData\\TRAE SOLO CN");
    assert_eq!(m.get_uncached_data_dirs(&briefs, 101).len(), 1);
}

#[test]
fn briefs_show_bound_account() {
    let mut m = manager();
    let am = accounts(&[("a1", "u1", Some("t"))]);
    m.bind_account("def", Some("a1"), &am, 9).unwrap();
    let b = m.list_instances_basic(&am);
    assert_eq!(b[0].bound_account_id, Some("a1".to_string()));
    assert_eq!(b[0].bound_account_email, Some("a1@m".to_string()));
    assert_eq!(b[0].disk_usage, 0);
    assert!(!b[0].is_running);
}

#[test]
fn bind_account_rules() {
    let mut m = manager();
    let am = accounts(&[("a1", "u1", Some("t")), ("a2", "u2", None)]);
    assert_eq!(m.bind_account("zz", Some("a1"), &am, 1), Err(InstanceError::NotFound));
    let r = m.bind_account("def", Some("a1"), &am, 2).unwrap();
    assert_eq!(r.unwrap().0.token, "t");
    let r = m.bind_account("def", None, &am, 3).unwrap();
    assert!(r.is_none());
    assert_eq!(m.store.instances[0].bound_account_id, None);
}

#[test]
fn launch_records_time() {
    let mut m = manager();
    assert!(m.launch_instance("def", 77));
    assert_eq!(m.store.instances[0].last_launched_at, 77);
    assert!(!m.launch_instance("zz", 78));
    let am = accounts(&[]);
    let plan = m.launch_plan("def", &am).unwrap();
    assert_eq!(plan.data_dir, "C:\\AppData\\TRAE SOLO CN");
}

#[test]
fn discovery_rules() {
    assert!(is_discovery_candidate("TRAE SOLO CN"));
    assert!(is_discovery_candidate("TRAE SOLO CN_ab12"));
    assert!(!is_discovery_candidate("TRAE SOLO CN_SharedExtensions"));
    assert!(!is_discovery_candidate("Other"));
    assert_eq!(inferred_instance_name(Some(("Bob", "u1")), "x"), "Bob");
    assert_eq!(inferred_instance_name(Some(("", "abcdefgh")), "x"), "用户_abcdef");
    assert_eq!(inferred_instance_name(None, "TRAE SOLO CN_12345678901"), "实例_12345678");
    assert_eq!(inferred_instance_name(None, "TRAE SOLO CN"), "默认");
    let mut m = manager();
    assert!(!m.add_discovered("C:\\AppData\\TRAE SOLO CN".to_string(), "d".to_string(), true, "x".to_string(), 1));
    assert!(m.add_discovered("C:\\AppData\\TRAE SOLO CN_2".to_string(), "n".to_string(), false, "y".to_string(), 1));
    assert_eq!(m.store.instances.len(), 2);
}

#[test]
fn directory_names() {
    assert_eq!(instance_dir_name("0123456789abc"), "TRAE SOLO CN_01234567");
    assert_eq!(multi_data_dir_name("u-1"), "TRAE SOLO CN_u-1");
    assert_eq!(window_title("Work"), "Work - TRAE Work CN");
    assert!(!writes_window_title("TRAE SOLO CN"));
    assert!(writes_window_title("TRAE SOLO CN_1"));
}

#[test]
fn auto_bind_binds_and_creates() {
    let mut m = manager();
    m.create_instance("w".to_string(), Some("D:\\w".to_string()), None, None, "i1".to_string(), 2).unwrap();
    let mut am = accounts(&[("a1", "u1", Some("t"))]);
    let logins = vec![Some(login("u1", "new-a")), Some(login("u9", "new-b"))];
    let changed = m.auto_bind_accounts(&mut am, &logins, 50);
    assert!(changed);
    assert_eq!(m.store.instances[0].bound_account_id, Some("a1".to_string()));
    assert_eq!(m.store.instances[1].bound_account_id, Some("new-b".to_string()));
    assert_eq!(am.store.accounts.len(), 2);
    assert_eq!(am.store.accounts[1].user_id, "u9");
    assert_eq!(am.store.accounts[1].source, "local");
    let again = m.auto_bind_accounts(&mut am, &logins, 60);
    assert!(!again);
    let none = m.auto_bind_accounts(&mut am, &vec![None, None], 70);
    assert!(!none);
}

#[test]
fn shortcut_pieces() {
    assert_eq!(ps_escaped("it's"), "it''s");
    let m = manager();
    assert_eq!(m.create_instance_shortcut("def", None), Err(InstanceError::NoProductPath));
    assert_eq!(m.create_instance_shortcut("zz", Some("x".to_string())), Err(InstanceError::NotFound));
    let req = m.create_instance_shortcut("def", Some("C:\\T\\TRAE SOLO CN.exe".to_string())).unwrap();
    assert_eq!(req.file_name, "TRAE Work CN - 默认.lnk");
    let s = shortcut_script("C:\\D\\a.lnk", "C:\\O'x\\t.exe", "D:\\d", "C:\\O'x");
    assert_eq!(
        s,
        "$ws = New-Object -ComObject WScript.Shell; $s = $ws.CreateShortcut('C:\\D\\a.lnk'); $s.TargetPath = 'C:\\O''x\\t.exe'; $s.Arguments = '--user-data-dir=\"D:\\d\"'; $s.IconLocation = 'C:\\O''x\\t.exe'; $s.WorkingDirectory = 'C:\\O''x'; $s.Save()"
    );
}

#[test]
fn instance_copy_and_store() {
    let i = TraeInstance::new("id".to_string(), "n".to_string(), "d".to_string(), false, 3);
    assert_eq!(i.copy(), i);
    let s = InstanceStore { instances: vec![i] };
    assert_eq!(InstanceManager::new(s.clone()).store, s);
}

#[test]
fn auto_bind_made_account_contents() {
    let mut m = manager();
    m.create_instance("w".to_string(), Some("D:\\w".to_string()), None, None, "i1".to_string(), 2).unwrap();
    let mut am = accounts(&[]);
    let mut l = login("abcdefghij", "new-a");
    l.info.username = String::new();
    l.info.email = "e@x".to_string();
    l.info.avatar_url = "https://a/p.png".to_string();
    let mut l2 = l.clone();
    l2.new_account_id = "new-b".to_string();
    let changed = m.auto_bind_accounts(&mut am, &vec![Some(l), Some(l2)], 50);
    assert!(changed);
    assert_eq!(am.store.accounts.len(), 1);
    let a = &am.store.accounts[0];
    assert_eq!(a.id, "new-a");
    assert_eq!(a.name, "User_abcdefgh");
    assert_eq!(a.jwt_token, Some("tok".to_string()));
    assert_eq!(a.user_id, "abcdefghij");
    assert_eq!(a.email, "e@x");
    assert_eq!(a.avatar_url, "https://a/p.png");
    assert_eq!(a.source, "local");
    assert_eq!(a.region, "CN");
    assert_eq!(a.tenant_id, "t");
    assert_eq!(a.created_at, 50);
    assert_eq!(a.updated_at, 50);
    assert_eq!(m.store.instances[0].bound_account_id, Some("new-a".to_string()));
    assert_eq!(m.store.instances[1].bound_account_id, Some("new-a".to_string()));
}
