use std::hash::BuildHasher;
use trae_manager::machine::TraeLoginInfo;
use trae_manager::storage::{
    auth_info_text, clear_product_login_state, entitlement_text, launch_product_multi, login_host, md5_hash,
    replace_login, resolve_auth_info_text, session_paths_to_clear, switch_product_account,
    write_product_login_info, LoginReadError, LoginWriteError, StorageDoc, StorageValue,
};

fn info() -> TraeLoginInfo {
    TraeLoginInfo {
        token: "tok\"en".to_string(),
        refresh_token: Some("refresh".to_string()),
        user_id: "u-123".to_string(),
        email: "a@b.c".to_string(),
        username: "Alice".to_string(),
        avatar_url: "https://img/x.png".to_string(),
        host: String::new(),
        region: "cn".to_string(),
    }
}

fn text(doc: &StorageDoc, key: &str) -> Option<String> {
    match doc.get(key) {
        Some(StorageValue::Text(t)) => Some(t),
        _ => None,
    }
}

/// Whether `s` is a version-4 UUID in hyphenated lower-case hex.
fn is_uuid_v4(s: &str) -> bool {
    let c: Vec<char> = s.chars().collect();
    c.len() == 36
        && c.iter().enumerate().all(|(i, ch)| {
            if [8, 13, 18, 23].contains(&i) {
                *ch == '-'
            } else {
                ch.is_ascii_digit() || ('a'..='f').contains(ch)
            }
        })
        && c[14] == '4'
        && "89ab".contains(c[19])
}

fn hash_of(s: &str) -> u64 {
    std::hash::BuildHasherDefault::<std::collections::hash_map::DefaultHasher>::default().hash_one(s)
}

#[test]
fn doc_set_get_remove() {
    let mut d = StorageDoc::new();
    assert_eq!(d.get("a"), None);
    d.set("a".to_string(), StorageValue::Json("1".to_string()));
    d.set_text("b", "x".to_string());
    d.set_text("a", "y".to_string());
    assert_eq!(d.get("a"), Some(StorageValue::Text("y".to_string())));
    assert_eq!(d.get("b"), Some(StorageValue::Text("x".to_string())));
    d.remove("a");
    assert_eq!(d.get("a"), None);
    assert_eq!(d.get("b"), Some(StorageValue::Text("x".to_string())));
}

#[test]
fn later_duplicate_key_wins() {
    let d = StorageDoc {
        entries: vec![
            ("k".to_string(), StorageValue::Json("1".to_string())),
            ("k".to_string(), StorageValue::Json("2".to_string())),
        ],
    };
    assert_eq!(d.get("k"), Some(StorageValue::Json("2".to_string())));
    let mut e = d.clone();
    e.remove("k");
    assert_eq!(e.get("k"), None);
    assert!(e.entries.is_empty());
}

#[test]
fn login_host_by_region() {
    assert_eq!(login_host("", "CN"), "https://api.trae.cn");
    assert_eq!(login_host("", "SG"), "https://api-sg-central.trae.ai");
    assert_eq!(login_host("", "US"), "https://api-sg-central.trae.ai");
    assert_eq!(login_host("https://h", "CN"), "https://h");
}

#[test]
fn auth_info_text_is_sorted_json() {
    let t = auth_info_text(&info(), 0, 5_000_000).unwrap();
    let v: serde_json::Value = serde_json::from_str(&t).unwrap();
    assert_eq!(serde_json::to_string(&v).unwrap(), t);
    assert_eq!(v["token"], "tok\"en");
    assert_eq!(v["refreshToken"], "refresh");
    assert_eq!(v["userId"], "u-123");
    assert_eq!(v["host"], "https://api.trae.cn");
    assert_eq!(v["tokenReleaseAt"], "1970-01-01T00:00:00.005Z");
    assert_eq!(v["expiredAt"], "1970-01-15T00:00:00.005Z");
    assert_eq!(v["refreshExpiredAt"], "1970-06-30T00:00:00.005Z");
    assert_eq!(v["userRegion"]["region"], "CN");
    assert_eq!(v["userRegion"]["_aiRegion"], "CN");
    assert_eq!(v["account"]["username"], "Alice");
    assert_eq!(v["account"]["email"], "a@b.c");
    assert_eq!(v["account"]["avatar_url"], "https://img/x.png");
    assert_eq!(v["account"]["storeRegion"], "CN");
    assert_eq!(v["account"]["iat"], 0);
    assert_eq!(v["account"]["scope"], "marscode");
}

#[test]
fn auth_info_text_without_refresh_token() {
    let mut i = info();
    i.refresh_token = None;
    let v: serde_json::Value = serde_json::from_str(&auth_info_text(&i, 100, 0).unwrap()).unwrap();
    assert_eq!(v["refreshToken"], "");
}

#[test]
fn auth_info_text_out_of_range() {
    assert_eq!(auth_info_text(&info(), -8_334_601_228_801, 0), None);
    assert_eq!(auth_info_text(&info(), 0, 1_000_000_000), None);
    assert_eq!(auth_info_text(&info(), 8_210_251_324_800, 0), None);
    assert!(auth_info_text(&info(), -8_334_601_228_800, 0).is_some());
    assert!(auth_info_text(&info(), 8_210_251_324_799, 0).is_some());
}

#[test]
fn auth_info_text_before_epoch() {
    let t = auth_info_text(&info(), -1, 0).unwrap();
    let v: serde_json::Value = serde_json::from_str(&t).unwrap();
    assert_eq!(v["tokenReleaseAt"], "1969-12-31T23:59:59.000Z");
    assert_eq!(v["expiredAt"], "1970-01-14T23:59:59.000Z");
    assert_eq!(v["account"]["iat"], 0);
}

#[test]
fn auth_info_text_escapes_like_serde_json() {
    let mut i = info();
    i.token = "a\u{1}b\u{1f}\t\\\"\u{7f}é".to_string();
    let t = auth_info_text(&i, 0, 0).unwrap();
    assert!(t.contains(&serde_json::to_string(&i.token).unwrap()));
    assert!(t.contains("a\\u0001b\\u001f\\t"));
    let v: serde_json::Value = serde_json::from_str(&t).unwrap();
    assert_eq!(v["token"], i.token.as_str());
    assert_eq!(serde_json::to_string(&v).unwrap(), t);
}

#[test]
fn entitlement_text_is_canonical() {
    let t = entitlement_text();
    let v: serde_json::Value = serde_json::from_str(&t).unwrap();
    assert_eq!(serde_json::to_string(&v).unwrap(), t);
    assert_eq!(v["identityStr"], "Free");
    assert_eq!(v["detail"]["fast_request_per"], 1);
}

#[test]
fn written_login_reads_back() {
    let mut d = StorageDoc::new();
    d.set_text("other", "keep".to_string());
    write_product_login_info(&mut d, &info(), 1_700_000_000, 0).unwrap();
    let plain = d.login_record().unwrap();
    assert_eq!(plain, auth_info_text(&info(), 1_700_000_000, 0).unwrap());
    assert_eq!(text(&d, "iCubeEntitlementInfo://icube.cloudide"), Some(entitlement_text()));
    assert_eq!(text(&d, "other"), Some("keep".to_string()));
}

#[test]
fn write_login_time_out_of_range() {
    let mut d = StorageDoc::new();
    assert_eq!(
        write_product_login_info(&mut d, &info(), -8_334_601_228_801, 0),
        Err(LoginWriteError::TimeOutOfRange)
    );
    assert_eq!(d, StorageDoc::new());
    assert_eq!(write_product_login_info(&mut d, &info(), 0, 1_000_000_000), Err(LoginWriteError::TimeOutOfRange));
    assert_eq!(d, StorageDoc::new());
    assert!(write_product_login_info(&mut d, &info(), -5, 0).is_ok());
}

#[test]
fn login_record_missing_or_plain() {
    let d = StorageDoc::new();
    assert_eq!(d.login_record(), Err(LoginReadError::NotFound));
    let mut e = StorageDoc::new();
    e.set("iCubeAuthInfo://icube.cloudide".to_string(), StorageValue::Json("{}".to_string()));
    assert_eq!(e.login_record(), Err(LoginReadError::NotFound));
    e.set_text("iCubeAuthInfo://icube.cloudide", "{\"token\":\"x\"}".to_string());
    assert_eq!(e.login_record(), Ok("{\"token\":\"x\"}".to_string()));
    assert_eq!(resolve_auth_info_text("{\"a\":1}"), Ok("{\"a\":1}".to_string()));
}

#[test]
fn telemetry_hash_formula() {
    let h1 = hash_of("machine-1");
    let h2 = hash_of(&format!("machine-1{}", h1));
    assert_eq!(md5_hash("machine-1"), ((h1 as u128) << 64) | (h2 as u128));
    assert_eq!(md5_hash("machine-1"), md5_hash("machine-1"));
    assert_ne!(md5_hash("machine-1"), md5_hash("machine-2"));
}

#[test]
fn replace_login_edits() {
    let mut d = StorageDoc::new();
    d.set_text("iCubeServerData://icube.cloudide", "old".to_string());
    d.set_text("iCubeAuthInfo://usertag", "old".to_string());
    d.set_text("keep", "me".to_string());
    replace_login(&mut d, &info(), "mid", "abc-def", "dev-1", 1_700_000_000, 0).unwrap();
    assert_eq!(d.get("iCubeServerData://icube.cloudide"), None);
    assert_eq!(d.get("iCubeAuthInfo://usertag"), None);
    assert_eq!(text(&d, "keep"), Some("me".to_string()));
    assert_eq!(text(&d, "telemetry.machineId"), Some(format!("{:x}", md5_hash("mid"))));
    assert_eq!(text(&d, "telemetry.sqmId"), Some("{ABC-DEF}".to_string()));
    assert_eq!(text(&d, "telemetry.devDeviceId"), Some("dev-1".to_string()));
    assert!(d.login_record().is_ok());
}

#[test]
fn switch_uses_given_machine_id() {
    let mut d = StorageDoc::new();
    let ids = switch_product_account(&mut d, &info(), Some("given".to_string()), 1_700_000_000, 0).unwrap();
    assert_eq!(ids.machine_id, "given");
    assert_eq!(ids.sqm_uuid.len(), 36);
    assert_eq!(text(&d, "telemetry.machineId"), Some(format!("{:x}", md5_hash("given"))));
    assert_eq!(text(&d, "telemetry.sqmId"), Some(format!("{{{}}}", ids.sqm_uuid.to_uppercase())));
    assert_eq!(text(&d, "telemetry.devDeviceId"), Some(ids.device_uuid.clone()));
}

#[test]
fn launch_multi_generates_machine_id() {
    let mut d = StorageDoc::new();
    let ids = launch_product_multi(&mut d, &info(), None, 1_700_000_000, 0).unwrap();
    assert_eq!(ids.machine_id.len(), 36);
    assert_eq!(text(&d, "telemetry.machineId"), Some(format!("{:x}", md5_hash(&ids.machine_id))));
    let mut e = StorageDoc::new();
    assert_eq!(
        launch_product_multi(&mut e, &info(), None, -8_334_601_228_801, 0),
        Err(LoginWriteError::TimeOutOfRange)
    );
    assert!(is_uuid_v4(&ids.machine_id));
}

#[test]
fn clear_login_state_edits() {
    let mut d = StorageDoc::new();
    d.set_text("iCubeAuthInfo://icube.cloudide", "x".to_string());
    d.set_text("iCubeEntitlementInfo://icube.cloudide", "y".to_string());
    d.set_text("keep", "me".to_string());
    let (ids, out) = clear_product_login_state(Some(d));
    let out = out.unwrap();
    assert_eq!(out.get("iCubeAuthInfo://icube.cloudide"), None);
    assert_eq!(out.get("iCubeEntitlementInfo://icube.cloudide"), None);
    assert_eq!(text(&out, "keep"), Some("me".to_string()));
    assert_eq!(text(&out, "telemetry.machineId"), Some(format!("{:x}", md5_hash(&ids.machine_id))));
    assert!(is_uuid_v4(&ids.machine_id));
    let (_, none) = clear_product_login_state(None);
    assert!(none.is_none());
}

#[test]
fn session_paths_list() {
    let p = session_paths_to_clear();
    assert_eq!(p.len(), 6);
    assert_eq!(p[0], ("Local State".to_string(), false));
    assert_eq!(p[1], ("IndexedDB".to_string(), true));
    assert_eq!(p[5], ("Network/Cookies-journal".to_string(), false));
}
