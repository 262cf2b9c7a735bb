use base64::Engine;
use trae_manager::api::{
    clean_cookies, jwt_payload_text, parse_entitlements_to_summary, token_user_info_from_entitlements,
    token_user_info_from_user_info, EntitlementPack, JwtError, TraeApiClient,
};
use trae_manager::api_types::{JwtPayload, UserInfoResult, UserTokenResult};

fn pack(product_type: i64, product_id: i64, desc: Option<&str>) -> EntitlementPack {
    EntitlementPack {
        product_type,
        product_id,
        charge_amount: 0,
        end_time: 100 + product_type,
        display_desc: desc.map(|s| s.to_string()),
        package_source_type: None,
        solo_agent_parallel_limit: 3,
        fast_request_limit: 10 + product_type,
        slow_request_limit: 20,
        advanced_model_limit: 30,
        autocomplete_limit: 40,
    }
}

fn url_b64(s: &str) -> String {
    base64::engine::general_purpose::URL_SAFE_NO_PAD.encode(s.as_bytes())
}

#[test]
fn cookies_are_cleaned() {
    assert_eq!(clean_cookies("  a=1;\r\n  b=2;  \n c=3"), "a=1;b=2;c=3");
    assert_eq!(clean_cookies("a=1;    b=2"), "a=1;  b=2");
    assert_eq!(clean_cookies("a=1;   b=2"), "a=1;  b=2");
    assert_eq!(clean_cookies(""), "");
    assert_eq!(clean_cookies("x\n\n"), "x");
}

#[test]
fn client_constructors() {
    let c = TraeApiClient::new(" sid=1 \n");
    assert_eq!(c.cookies, "sid=1");
    assert_eq!(c.jwt_token, None);
    assert_eq!(c.api_base, "https://api.trae.cn");
    let t = TraeApiClient::new_with_token("tkn");
    assert_eq!(t.cookies, "");
    assert_eq!(t.jwt_token, Some("tkn".to_string()));
    assert_eq!(TraeApiClient::detect_api_base_from_cookies("whatever"), "https://api.trae.cn");
}

#[test]
fn client_urls() {
    let c = TraeApiClient::new("a=b");
    assert_eq!(c.user_token_url(), "https://api.trae.cn/cloudide/api/v3/common/GetUserToken");
    assert_eq!(c.entitlement_url(), "https://api.trae.cn/trae/api/v1/pay/user_current_entitlement_list");
    assert_eq!(TraeApiClient::user_info_url(), "https://api.trae.cn/cloudide/api/v3/trae/GetUserInfo");
    assert_eq!(
        TraeApiClient::token_entitlement_url(),
        "https://api.trae.cn/trae/api/v1/pay/user_current_entitlement_list"
    );
}

#[test]
fn accept_user_token_keeps_token() {
    let mut c = TraeApiClient::new("a=b");
    c.accept_user_token(&UserTokenResult {
        token: "new".to_string(),
        expired_at: String::new(),
        user_id: String::new(),
        tenant_id: String::new(),
    });
    assert_eq!(c.jwt_token, Some("new".to_string()));
    assert_eq!(c.cookies, "a=b");
}

#[test]
fn token_headers() {
    let t = TraeApiClient::new_with_token("abc");
    let h = t.build_headers_token_only();
    assert_eq!(h.len(), 6);
    assert_eq!(h[0], ("content-type".to_string(), "application/json".to_string()));
    assert_eq!(h[5], ("authorization".to_string(), "Cloud-IDE-JWT abc".to_string()));
    let c = TraeApiClient::new("k=v");
    assert_eq!(c.build_headers_token_only().len(), 5);
}

#[test]
fn cookie_headers() {
    let mut c = TraeApiClient::new("k=v");
    let h = c.build_headers(true);
    assert_eq!(h.len(), 6);
    assert_eq!(h[2], ("cookie".to_string(), "k=v".to_string()));
    c.jwt_token = Some("t".to_string());
    let h = c.build_headers(true);
    assert_eq!(h.len(), 7);
    assert_eq!(h[6], ("authorization".to_string(), "Cloud-IDE-JWT t".to_string()));
    assert_eq!(c.build_headers(false).len(), 6);
}

#[test]
fn jwt_payload_is_decoded() {
    let payload = r#"{"data":{"id":"u1","tenant_id":"t1"}}"#;
    let token = format!("{}.{}.sig", url_b64("{\"alg\":\"HS256\"}"), url_b64(payload));
    assert_eq!(jwt_payload_text(&token), Ok(payload.to_string()));
}

#[test]
fn jwt_payload_with_url_alphabet() {
    let payload = "??>>";
    let seg = url_b64(payload);
    assert!(seg.contains('_') || seg.contains('-'));
    let token = format!("h.{}.s", seg);
    assert_eq!(jwt_payload_text(&token), Ok(payload.to_string()));
}

#[test]
fn jwt_errors() {
    assert_eq!(jwt_payload_text("a.b"), Err(JwtError::Format));
    assert_eq!(jwt_payload_text("a.b.c.d"), Err(JwtError::Format));
    assert_eq!(jwt_payload_text("a.!!!.c"), Err(JwtError::Base64));
    let bad = base64::engine::general_purpose::URL_SAFE_NO_PAD.encode([0xffu8, 0xfe]);
    assert_eq!(jwt_payload_text(&format!("a.{}.c", bad)), Err(JwtError::Utf8));
}

#[test]
fn user_info_maps_to_token_user() {
    let r = token_user_info_from_user_info(UserInfoResult {
        screen_name: "n".to_string(),
        avatar_url: "a".to_string(),
        non_plain_text_email: Some("e".to_string()),
        region: "cn".to_string(),
        user_id: "u".to_string(),
        tenant_id: "t".to_string(),
    });
    assert_eq!(r.user_id, "u");
    assert_eq!(r.screen_name, Some("n".to_string()));
    assert_eq!(r.avatar_url, Some("a".to_string()));
    assert_eq!(r.email, Some("e".to_string()));
}

#[test]
fn entitlement_fallback_user() {
    let jwt = JwtPayload { user_id: "ju".to_string(), tenant_id: "jt".to_string() };
    let r = token_user_info_from_entitlements(Some("pu".to_string()), jwt.clone());
    assert_eq!(r.user_id, "pu");
    assert_eq!(r.tenant_id, "jt");
    assert_eq!(r.screen_name, Some("ju".to_string()));
    assert_eq!(r.avatar_url, None);
    let r = token_user_info_from_entitlements(None, jwt);
    assert_eq!(r.user_id, "ju");
}

#[test]
fn summary_of_free_plan() {
    let s = parse_entitlements_to_summary(&vec![pack(1, 0, None)]);
    assert_eq!(s.plan_type, "Free");
    assert_eq!(s.plan_display_desc, "Free");
    assert!(s.is_free_plan);
    assert_eq!(s.main_pack, Some(0));
    assert_eq!(s.fast_request_limit, 11);
    assert_eq!(s.reset_time, 101);
    assert_eq!(s.extra_pack, None);
    assert_eq!(s.solo_agent_parallel_limit, 3);
}

#[test]
fn summary_with_extra_package() {
    let mut extra = pack(2, 5, None);
    extra.package_source_type = Some(6);
    let s = parse_entitlements_to_summary(&vec![pack(1, 7, Some("Pro Plan")), extra]);
    assert_eq!(s.plan_type, "Pro Plan");
    assert!(!s.is_free_plan);
    assert_eq!(s.plan_display_desc, "");
    assert_eq!(s.extra_pack, Some(1));
    assert_eq!(s.extra_fast_request_limit, 12);
    assert_eq!(s.extra_expire_time, 102);
    assert_eq!(s.extra_package_name, "2026 Anniversary Treat");
}

#[test]
fn summary_of_nothing() {
    let s = parse_entitlements_to_summary(&vec![]);
    assert_eq!(s.plan_type, "");
    assert_eq!(s.main_pack, None);
    assert!(!s.is_free_plan);
    let s = parse_entitlements_to_summary(&vec![pack(1, 9, None)]);
    assert_eq!(s.plan_type, "Pro");
}
