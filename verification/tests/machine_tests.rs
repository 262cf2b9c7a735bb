use trae_manager::machine::{
    check_product_path, generate_machine_guid, install_path_candidates, is_product_running, kill_step,
    product_launch_args, registry_entry_matches, registry_entry_paths, KillAction, KillState, ProductPathError,
    ProductType, RegistryEntry,
};

fn entry(name: &str, loc: &str, uninst: &str, icon: &str) -> RegistryEntry {
    RegistryEntry {
        display_name: name.to_string(),
        install_location: loc.to_string(),
        uninstall_string: uninst.to_string(),
        display_icon: icon.to_string(),
    }
}

/// Runs the closing steps against a sequence of looks; returns the actions taken.
fn run_kill(looks: &[bool]) -> Vec<KillAction> {
    let mut state = KillState::Start;
    let mut actions = Vec::new();
    for &running in looks {
        let (next, action) = kill_step(state, running);
        actions.push(action);
        state = next;
        if state == KillState::Done {
            break;
        }
    }
    actions
}

#[test]
fn product_type_names() {
    let p = ProductType::TraeSoloCn;
    assert_eq!(p.data_dir_name(), "TRAE SOLO CN");
    assert_eq!(p.process_name(), "TRAE SOLO CN.exe");
    assert_eq!(p.process_names(), vec!["TRAE SOLO CN.exe".to_string()]);
    assert_eq!(p.main_exe_candidates(), vec!["TRAE SOLO CN.exe".to_string()]);
    assert_eq!(p.display_name(), "TRAE Work CN");
}

#[test]
fn running_check_reads_task_list() {
    let p = ProductType::TraeSoloCn;
    assert!(is_product_running(p, &vec!["TRAE SOLO CN.exe  1234 Console".to_string()]));
    assert!(!is_product_running(p, &vec!["INFO: No tasks are running".to_string()]));
    assert!(!is_product_running(p, &vec![]));
}

#[test]
fn kill_when_not_running() {
    assert_eq!(run_kill(&[false]), vec![KillAction::NotRunning]);
}

#[test]
fn kill_graceful_close() {
    let a = run_kill(&[true, true, false, false, false, false]);
    assert_eq!(
        a,
        vec![
            KillAction::CloseGracefully,
            KillAction::Wait(100),
            KillAction::Recheck,
            KillAction::Recheck,
            KillAction::Recheck,
            KillAction::Stopped,
        ]
    );
}

#[test]
fn kill_forced_then_fails() {
    let looks = vec![true; 40];
    let a = run_kill(&looks);
    assert_eq!(a[0], KillAction::CloseGracefully);
    assert_eq!(a.iter().filter(|x| **x == KillAction::Wait(100)).count(), 8);
    assert!(a.contains(&KillAction::ForceKill));
    assert_eq!(a.iter().filter(|x| **x == KillAction::Wait(50)).count(), 10);
    assert_eq!(*a.last().unwrap(), KillAction::StillRunning);
    assert_eq!(a.len(), 21);
}

#[test]
fn registry_matching() {
    assert!(registry_entry_matches("TRAE SOLO CN"));
    assert!(registry_entry_matches("Trae Work CN 1.2"));
    assert!(!registry_entry_matches("TRAE Work CN Manager"));
    assert!(!registry_entry_matches("Trae Auto"));
    assert!(!registry_entry_matches("Other"));
}

#[test]
fn registry_paths() {
    let p = registry_entry_paths(&entry(
        "TRAE SOLO CN",
        "\"D:\\Apps\\TRAE SOLO CN\\\"",
        "\"D:\\Apps\\TRAE SOLO CN\\unins000.exe\" /S",
        "\"D:\\Apps\\TRAE SOLO CN\\TRAE SOLO CN.exe\",0",
    ))
    .unwrap();
    assert_eq!(p.install_dir, Some("D:\\Apps\\TRAE SOLO CN\\".to_string()));
    assert_eq!(p.icon_path, Some("D:\\Apps\\TRAE SOLO CN\\TRAE SOLO CN.exe".to_string()));
    assert_eq!(p.uninstall_path, Some("D:\\Apps\\TRAE SOLO CN\\unins000.exe".to_string()));
    let r = registry_entry_paths(&entry("TRAE Work CN", "D:\\Apps\\TRAE\\\\", "", "")).unwrap();
    assert_eq!(r.install_dir, Some("D:\\Apps\\TRAE".to_string()));
    let q = registry_entry_paths(&entry("TRAE SOLO CN", "", "C:\\x\\u.exe /S", "")).unwrap();
    assert_eq!(q.install_dir, None);
    assert_eq!(q.icon_path, None);
    assert_eq!(q.uninstall_path, Some("C:\\x\\u.exe".to_string()));
    assert_eq!(registry_entry_paths(&entry("Trae Auto", "x", "y", "z")), None);
}

#[test]
fn install_candidates_list() {
    let c = install_path_candidates();
    assert_eq!(c.len(), 6);
    assert_eq!(c[0], (true, "Programs\\TRAE SOLO CN\\TRAE SOLO CN.exe".to_string()));
    assert_eq!(c[3], (false, "C:\\Program Files\\TRAE SOLO CN\\TRAE SOLO CN.exe".to_string()));
}

#[test]
fn product_path_checks() {
    assert_eq!(check_product_path("C:\\x\\TRAE.EXE", true), Ok(()));
    assert_eq!(check_product_path("C:\\x\\TRAE.exe", false), Err(ProductPathError::Missing));
    assert_eq!(check_product_path("C:\\x\\TRAE.app", true), Err(ProductPathError::NotExe));
    assert_eq!(ProductPathError::NotExe.message(), "请选择 .exe 文件");
}

#[test]
fn launch_args() {
    assert_eq!(product_launch_args("D:\\d", None), vec!["--user-data-dir".to_string(), "D:\\d".to_string()]);
    assert_eq!(
        product_launch_args("D:\\d", Some("E:\\ext")),
        vec!["--user-data-dir", "D:\\d", "--extensions-dir", "E:\\ext"].iter().map(|s| s.to_string()).collect::<Vec<_>>()
    );
}

#[test]
fn machine_guids_are_fresh() {
    let a = generate_machine_guid();
    let b = generate_machine_guid();
    assert_eq!(a.len(), 36);
    assert_ne!(a, b);
}

#[test]
fn machine_guid_is_hyphenated_v4() {
    let g = generate_machine_guid();
    let c: Vec<char> = g.chars().collect();
    assert_eq!(c.len(), 36);
    for (i, ch) in c.iter().enumerate() {
        if [8, 13, 18, 23].contains(&i) {
            assert_eq!(*ch, '-');
        } else {
            assert!(ch.is_ascii_digit() || ('a'..='f').contains(ch), "{}", g);
        }
    }
    assert_eq!(c[14], '4');
    assert!("89ab".contains(c[19]));
}
