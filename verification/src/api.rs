//! The TRAE API client: what it sends (cookies, token, headers, endpoints) and how it
//! reads the answers into the library's records. The HTTP calls themselves are made by
//! the application with what these functions give.
use vstd::prelude::*;
use vstd::utf8::*;
use crate::api_types::{JwtPayload, TokenUserInfo, UserInfoResult, UserTokenResult};
use crate::outside::{base64_decode, base64_decode_spec, utf8_to_string};
use crate::seq_search::{last_match, lemma_last_match, lemma_last_match_at, lemma_last_match_none, lemma_last_match_push};
use crate::text::{
    byte_len, concat, push_char, split_char, split_on, str_chars, string_from_chars, trim, trim_spec, views,
};

verus! {

/// The API host of the CN region.
pub open spec fn api_base_cn() -> Seq<char> {
    "https://api.trae.cn"@
}

/// The text of the pieces, each without leading and trailing white space, joined.
pub open spec fn join_trimmed(parts: Seq<Seq<char>>) -> Seq<char>
    decreases parts.len(),
{
    if parts.len() == 0 {
        Seq::<char>::empty()
    } else {
        join_trimmed(parts.drop_last()) + trim_spec(parts.last())
    }
}

/// `s` with each pair of spaces, read from the left without overlap, made one space, as
/// `str::replace("  ", " ")` gives it.
pub open spec fn collapse_double_spaces(s: Seq<char>) -> Seq<char>
    decreases s.len(),
{
    if s.len() >= 2 && s[0] == ' ' && s[1] == ' ' {
        seq![' '] + collapse_double_spaces(s.skip(2))
    } else if s.len() == 0 {
        s
    } else {
        seq![s[0]] + collapse_double_spaces(s.skip(1))
    }
}

/// A cookie header as the client keeps it: every line trimmed and the lines joined,
/// then each double space made one.
pub open spec fn cleaned_cookies(cookies: Seq<char>) -> Seq<char> {
    collapse_double_spaces(join_trimmed(split_char(cookies, '\n')))
}

/// `s` with each double space made one.
fn collapse_spaces(s: &str) -> (r: String)
    ensures
        r@ == collapse_double_spaces(s@),
{
    let cs = str_chars(s);
    let n = cs.len();
    let mut out: Vec<char> = Vec::new();
    let mut i: usize = 0;
    assert(s@.skip(0) =~= s@);
    while i < n
        invariant
            cs@ == s@,
            n == cs@.len(),
            i <= n,
            collapse_double_spaces(s@) == out@ + collapse_double_spaces(s@.skip(i as int)),
        decreases n - i,
    {
        let ghost rest = s@.skip(i as int);
        if i + 1 < n && cs[i] == ' ' && cs[i + 1] == ' ' {
            out.push(' ');
            proof {
                assert(rest.skip(2) =~= s@.skip(i + 2));
                assert(collapse_double_spaces(s@) =~= out@ + collapse_double_spaces(s@.skip(i + 2)));
            }
            i = i + 2;
        } else {
            out.push(cs[i]);
            proof {
                assert(rest.skip(1) =~= s@.skip(i + 1));
                assert(collapse_double_spaces(s@) =~= out@ + collapse_double_spaces(s@.skip(i + 1)));
            }
            i = i + 1;
        }
    }
    assert(s@.skip(n as int) =~= Seq::<char>::empty());
    assert(out@ =~= out@ + Seq::<char>::empty());
    string_from_chars(out.as_slice())
}

/// Cleans a cookie header: each line trimmed, the lines joined, double spaces made one.
pub fn clean_cookies(cookies: &str) -> (r: String)
    ensures
        r@ == cleaned_cookies(cookies@),
{
    let lines = split_on(cookies, '\n');
    let mut joined = String::new();
    let mut i: usize = 0;
    while i < lines.len()
        invariant
            i <= lines@.len(),
            views(lines@) == split_char(cookies@, '\n'),
            joined@ == join_trimmed(views(lines@).take(i as int)),
        decreases lines@.len() - i,
    {
        let t = trim(lines[i].as_str());
        joined.append(t.as_str());
        proof {
            assert(views(lines@).take(i + 1).drop_last() =~= views(lines@).take(i as int));
        }
        i = i + 1;
    }
    assert(views(lines@).take(lines@.len() as int) =~= views(lines@));
    collapse_spaces(joined.as_str())
}

/// A client of the TRAE API: the cookies or the token it authenticates with, and the
/// API host it talks to.
#[derive(Debug, Clone, PartialEq, Eq)]
pub struct TraeApiClient {
    pub cookies: String,
    pub jwt_token: Option<String>,
    pub api_base: String,
}

impl TraeApiClient {
    /// The API host to use for the given cookies: always the CN host.
    pub fn detect_api_base_from_cookies(_cookies: &str) -> (r: String)
        ensures
            r@ == api_base_cn(),
    {
        "https://api.trae.cn".to_string()
    }

    /// A client that authenticates with cookies, kept cleaned.
    pub fn new(cookies: &str) -> (r: TraeApiClient)
        ensures
            r.cookies@ == cleaned_cookies(cookies@),
            r.jwt_token is None,
            r.api_base@ == api_base_cn(),
    {
        let cleaned = clean_cookies(cookies);
        let api_base = Self::detect_api_base_from_cookies(cleaned.as_str());
        TraeApiClient { cookies: cleaned, jwt_token: None, api_base }
    }

    /// A client that authenticates with a token.
    pub fn new_with_token(token: &str) -> (r: TraeApiClient)
        ensures
            r.cookies@ == Seq::<char>::empty(),
            r.jwt_token matches Some(t) && t@ == token@,
            r.api_base@ == api_base_cn(),
    {
        TraeApiClient { cookies: String::new(), jwt_token: Some(token.to_string()), api_base: "https://api.trae.cn".to_string() }
    }

    /// Keeps the token that `GetUserToken` answered.
    pub fn accept_user_token(&mut self, result: &UserTokenResult)
        ensures
            final(self).jwt_token == Some(result.token),
            final(self).cookies == old(self).cookies,
            final(self).api_base == old(self).api_base,
    {
        self.jwt_token = Some(result.token.clone());
    }

    /// The endpoint of `GetUserToken` on the client's host.
    pub fn user_token_url(&self) -> (r: String)
        ensures
            r@ == self.api_base@ + "/cloudide/api/v3/common/GetUserToken"@,
    {
        concat(self.api_base.as_str(), "/cloudide/api/v3/common/GetUserToken")
    }

    /// The endpoint of `GetUserInfo` (on the CN host).
    pub fn user_info_url() -> (r: String)
        ensures
            r@ == api_base_cn() + "/cloudide/api/v3/trae/GetUserInfo"@,
    {
        concat("https://api.trae.cn", "/cloudide/api/v3/trae/GetUserInfo")
    }

    /// The endpoint of the entitlement list on the client's host.
    pub fn entitlement_url(&self) -> (r: String)
        ensures
            r@ == self.api_base@ + "/trae/api/v1/pay/user_current_entitlement_list"@,
    {
        concat(self.api_base.as_str(), "/trae/api/v1/pay/user_current_entitlement_list")
    }

    /// The endpoint of the entitlement list on the CN host, used with a token.
    pub fn token_entitlement_url() -> (r: String)
        ensures
            r@ == api_base_cn() + "/trae/api/v1/pay/user_current_entitlement_list"@,
    {
        concat("https://api.trae.cn", "/trae/api/v1/pay/user_current_entitlement_list")
    }
}

/// The views of a list of header names and values.
pub open spec fn header_views(v: Seq<(String, String)>) -> Seq<(Seq<char>, Seq<char>)> {
    v.map_values(|p: (String, String)| (p.0@, p.1@))
}

/// The headers every request carries, before the cookie header.
pub open spec fn leading_headers() -> Seq<(Seq<char>, Seq<char>)> {
    seq![("content-type"@, "application/json"@), ("accept"@, "application/json, text/plain, */*"@)]
}

/// The headers every request carries, after the cookie header.
pub open spec fn trailing_headers() -> Seq<(Seq<char>, Seq<char>)> {
    seq![
        ("origin"@, "https://www.trae.cn"@),
        ("referer"@, "https://www.trae.cn/"@),
        ("user-agent"@, "Mozilla/5.0 (Windows NT 10.0; Win64; x64) AppleWebKit/537.36"@),
    ]
}

/// The authorization header for a token, where there is one.
pub open spec fn auth_headers(token: Option<String>) -> Seq<(Seq<char>, Seq<char>)> {
    match token {
        Some(t) => seq![("authorization"@, "Cloud-IDE-JWT "@ + t@)],
        None => Seq::empty(),
    }
}

/// Appends a header to a list.
fn push_header(v: &mut Vec<(String, String)>, name: &str, value: String)
    ensures
        header_views(final(v)@) == header_views(old(v)@).push((name@, value@)),
{
    v.push((name.to_string(), value));
    assert(header_views(v@) =~= header_views(old(v)@).push((name@, value@)));
}

impl TraeApiClient {
    /// The headers of a request authenticated by the token alone.
    pub fn build_headers_token_only(&self) -> (r: Vec<(String, String)>)
        ensures
            header_views(r@) == leading_headers() + trailing_headers() + auth_headers(self.jwt_token),
    {
        let mut v: Vec<(String, String)> = Vec::new();
        push_header(&mut v, "content-type", "application/json".to_string());
        push_header(&mut v, "accept", "application/json, text/plain, */*".to_string());
        push_header(&mut v, "origin", "https://www.trae.cn".to_string());
        push_header(&mut v, "referer", "https://www.trae.cn/".to_string());
        push_header(
            &mut v,
            "user-agent",
            "Mozilla/5.0 (Windows NT 10.0; Win64; x64) AppleWebKit/537.36".to_string(),
        );
        if let Some(token) = &self.jwt_token {
            push_header(&mut v, "authorization", concat("Cloud-IDE-JWT ", token.as_str()));
        }
        assert(header_views(v@) =~= leading_headers() + trailing_headers() + auth_headers(self.jwt_token));
        v
    }

    /// The headers of a request authenticated by the cookies, and also by the token
    /// where `with_auth` asks for it.
    pub fn build_headers(&self, with_auth: bool) -> (r: Vec<(String, String)>)
        ensures
            header_views(r@) == leading_headers() + seq![("cookie"@, self.cookies@)] + trailing_headers() + (
            if with_auth {
                auth_headers(self.jwt_token)
            } else {
                Seq::empty()
            }),
    {
        let mut v: Vec<(String, String)> = Vec::new();
        push_header(&mut v, "content-type", "application/json".to_string());
        push_header(&mut v, "accept", "application/json, text/plain, */*".to_string());
        push_header(&mut v, "cookie", self.cookies.clone());
        push_header(&mut v, "origin", "https://www.trae.cn".to_string());
        push_header(&mut v, "referer", "https://www.trae.cn/".to_string());
        push_header(
            &mut v,
            "user-agent",
            "Mozilla/5.0 (Windows NT 10.0; Win64; x64) AppleWebKit/537.36".to_string(),
        );
        if with_auth {
            if let Some(token) = &self.jwt_token {
                push_header(&mut v, "authorization", concat("Cloud-IDE-JWT ", token.as_str()));
            }
        }
        assert(header_views(v@) =~= leading_headers() + seq![("cookie"@, self.cookies@)] + trailing_headers() + (
        if with_auth {
            auth_headers(self.jwt_token)
        } else {
            Seq::empty()
        }));
        v
    }
}

/// Why the payload of a JWT could not be read.
#[derive(Debug, Clone, Copy, PartialEq, Eq)]
pub enum JwtError {
    /// The token is not three parts joined by dots.
    Format,
    /// The payload part is not Base64URL.
    Base64,
    /// The decoded payload is not UTF-8.
    Utf8,
}

/// A Base64URL text in the standard alphabet, padded with `=` to a multiple of four
/// bytes.
pub open spec fn base64url_to_standard(seg: Seq<char>) -> Seq<char> {
    seg.map_values(|c: char| if c == '-' { '+' } else if c == '_' { '/' } else { c }) + Seq::new(
        ((4 - byte_len(seg) % 4) % 4) as nat,
        |i: int| '=',
    )
}

/// The text of a JWT's payload: the second of its three dot-separated parts, decoded.
pub open spec fn jwt_payload_spec(token: Seq<char>) -> Result<Seq<char>, JwtError> {
    let parts = split_char(token, '.');
    if parts.len() != 3 {
        Err(JwtError::Format)
    } else {
        match base64_decode_spec(base64url_to_standard(parts[1])) {
            None => Err(JwtError::Base64),
            Some(b) => if valid_utf8(b) {
                Ok(decode_utf8(b))
            } else {
                Err(JwtError::Utf8)
            },
        }
    }
}

/// The standard-alphabet, padded form of a Base64URL text.
fn to_standard_base64(seg: &str) -> (r: String)
    ensures
        r@ == base64url_to_standard(seg@),
{
    let pad: usize = (4 - seg.len() % 4) % 4;
    let cs = str_chars(seg);
    let mut out = String::new();
    let mut i: usize = 0;
    while i < cs.len()
        invariant
            cs@ == seg@,
            i <= cs@.len(),
            out@ == seg@.take(i as int).map_values(
                |c: char| if c == '-' { '+' } else if c == '_' { '/' } else { c },
            ),
        decreases cs@.len() - i,
    {
        let c = cs[i];
        let d = if c == '-' {
            '+'
        } else if c == '_' {
            '/'
        } else {
            c
        };
        push_char(&mut out, d);
        i = i + 1;
        assert(out@ =~= seg@.take(i as int).map_values(
            |c: char| if c == '-' { '+' } else if c == '_' { '/' } else { c },
        ));
    }
    let mut k: usize = 0;
    let ghost mapped = out@;
    assert(seg@.take(cs@.len() as int) =~= seg@);
    while k < pad
        invariant
            k <= pad,
            pad == (4 - byte_len(seg@) % 4) % 4,
            out@ == mapped + Seq::new(k as nat, |i: int| '='),
        decreases pad - k,
    {
        push_char(&mut out, '=');
        k = k + 1;
        assert(out@ =~= mapped + Seq::new(k as nat, |i: int| '='));
    }
    out
}

/// The text of a JWT's payload.
pub fn jwt_payload_text(token: &str) -> (r: Result<String, JwtError>)
    ensures
        match r {
            Ok(t) => jwt_payload_spec(token@) == Ok::<Seq<char>, JwtError>(t@),
            Err(e) => jwt_payload_spec(token@) == Err::<Seq<char>, JwtError>(e),
        },
{
    let parts = split_on(token, '.');
    if parts.len() != 3 {
        return Err(JwtError::Format);
    }
    assert(views(parts@)[1] == parts@[1]@);
    let standard = to_standard_base64(parts[1].as_str());
    let bytes = match base64_decode(standard.as_str()) {
        Some(b) => b,
        None => return Err(JwtError::Base64),
    };
    match utf8_to_string(bytes) {
        Some(t) => Ok(t),
        None => Err(JwtError::Utf8),
    }
}

/// What is known of a token's user from the answer of `GetUserInfo`.
pub fn token_user_info_from_user_info(info: UserInfoResult) -> (r: TokenUserInfo)
    ensures
        r == (TokenUserInfo {
            user_id: info.user_id,
            tenant_id: info.tenant_id,
            screen_name: Some(info.screen_name),
            avatar_url: Some(info.avatar_url),
            email: info.non_plain_text_email,
        }),
{
    TokenUserInfo {
        user_id: info.user_id,
        tenant_id: info.tenant_id,
        screen_name: Some(info.screen_name),
        avatar_url: Some(info.avatar_url),
        email: info.non_plain_text_email,
    }
}

/// What is known of a token's user where `GetUserInfo` failed but the entitlement list
/// answered: the user id of the first entitlement pack (else the token's), the token's
/// tenant, and the token's user id as the name.
pub fn token_user_info_from_entitlements(first_pack_user_id: Option<String>, jwt: JwtPayload) -> (r:
    TokenUserInfo)
    ensures
        r == (TokenUserInfo {
            user_id: match first_pack_user_id {
                Some(u) => u,
                None => jwt.user_id,
            },
            tenant_id: jwt.tenant_id,
            screen_name: Some(jwt.user_id),
            avatar_url: None,
            email: None,
        }),
{
    let user_id = match first_pack_user_id {
        Some(u) => u,
        None => jwt.user_id.clone(),
    };
    TokenUserInfo { user_id, tenant_id: jwt.tenant_id, screen_name: Some(jwt.user_id), avatar_url: None, email: None }
}

/// One pack of the entitlement list, as far as the usage summary reads it (the amounts
/// used, which are fractional, are read by the application).
#[derive(Debug, Clone, PartialEq, Eq)]
pub struct EntitlementPack {
    pub product_type: i64,
    pub product_id: i64,
    pub charge_amount: i64,
    pub end_time: i64,
    pub display_desc: Option<String>,
    pub package_source_type: Option<i64>,
    pub solo_agent_parallel_limit: i64,
    pub fast_request_limit: i64,
    pub slow_request_limit: i64,
    pub advanced_model_limit: i64,
    pub autocomplete_limit: i64,
}

/// The usage summary of an entitlement list, but for the amounts used and left: the
/// plan, its limits and reset time from the last plan pack (`main_pack`), the extra
/// package's limit and expiry from the last extra pack (`extra_pack`).
#[derive(Debug, Clone, PartialEq, Eq)]
pub struct PlanSummary {
    pub plan_type: String,
    pub plan_display_desc: String,
    pub is_free_plan: bool,
    pub reset_time: i64,
    pub solo_agent_parallel_limit: i64,
    pub fast_request_limit: i64,
    pub slow_request_limit: i64,
    pub advanced_model_limit: i64,
    pub autocomplete_limit: i64,
    pub main_pack: Option<usize>,
    pub extra_fast_request_limit: i64,
    pub extra_expire_time: i64,
    pub extra_package_name: String,
    pub extra_pack: Option<usize>,
}

/// Whether a pack is an extra package (product type 2) rather than a plan.
pub open spec fn is_extra_pack() -> spec_fn(EntitlementPack) -> bool {
    |p: EntitlementPack| p.product_type == 2
}

/// Whether a pack is a plan.
pub open spec fn is_plan_pack() -> spec_fn(EntitlementPack) -> bool {
    |p: EntitlementPack| p.product_type != 2
}

/// Whether a pack is the anniversary extra package (package source type 6).
pub open spec fn is_anniversary_pack() -> spec_fn(EntitlementPack) -> bool {
    |p: EntitlementPack| p.product_type == 2 && p.package_source_type == Some(6i64)
}

/// The text of an optional description, empty where it is absent.
pub open spec fn desc_text(d: Option<String>) -> Seq<char> {
    match d {
        Some(t) => t@,
        None => Seq::<char>::empty(),
    }
}

/// The plan a plan pack names by its product id: "Free" for 0, else "Pro".
pub open spec fn plan_name(p: EntitlementPack) -> Seq<char> {
    if p.product_id == 0 {
        "Free"@
    } else {
        "Pro"@
    }
}

/// The name shown for a plan pack: its description, else its plan.
pub open spec fn plan_label(p: EntitlementPack) -> Seq<char> {
    if desc_text(p.display_desc).len() == 0 {
        plan_name(p)
    } else {
        desc_text(p.display_desc)
    }
}

/// The description shown for the last pack: a plan's label, or an extra package's own
/// description.
pub open spec fn shown_desc(p: EntitlementPack) -> Seq<char> {
    if p.product_type == 2 {
        desc_text(p.display_desc)
    } else {
        plan_label(p)
    }
}

/// Whether `r` summarises `packs`.
pub open spec fn summarises(r: PlanSummary, packs: Seq<EntitlementPack>) -> bool {
    &&& if packs.len() == 0 {
        r.plan_display_desc@ == Seq::<char>::empty() && r.solo_agent_parallel_limit == 0
    } else {
        r.plan_display_desc@ == shown_desc(packs.last()) && r.solo_agent_parallel_limit
            == packs.last().solo_agent_parallel_limit
    }
    &&& match last_match(packs, is_plan_pack()) {
        Some(i) => {
            &&& r.main_pack == Some(i as usize)
            &&& r.plan_type@ == plan_label(packs[i])
            &&& r.is_free_plan == (packs[i].product_id == 0 && packs[i].charge_amount == 0)
            &&& r.reset_time == packs[i].end_time
            &&& r.fast_request_limit == packs[i].fast_request_limit
            &&& r.slow_request_limit == packs[i].slow_request_limit
            &&& r.advanced_model_limit == packs[i].advanced_model_limit
            &&& r.autocomplete_limit == packs[i].autocomplete_limit
        },
        None => {
            &&& r.main_pack is None
            &&& r.plan_type@ == Seq::<char>::empty()
            &&& !r.is_free_plan
            &&& r.reset_time == 0
            &&& r.fast_request_limit == 0
            &&& r.slow_request_limit == 0
            &&& r.advanced_model_limit == 0
            &&& r.autocomplete_limit == 0
        },
    }
    &&& match last_match(packs, is_extra_pack()) {
        Some(i) => {
            &&& r.extra_pack == Some(i as usize)
            &&& r.extra_fast_request_limit == packs[i].fast_request_limit
            &&& r.extra_expire_time == packs[i].end_time
        },
        None => {
            &&& r.extra_pack is None
            &&& r.extra_fast_request_limit == 0
            &&& r.extra_expire_time == 0
        },
    }
    &&& r.extra_package_name@ == if last_match(packs, is_anniversary_pack()) is Some {
        "2026 Anniversary Treat"@
    } else {
        Seq::<char>::empty()
    }
}

/// The description of a pack, empty where it has none.
fn desc_of(p: &EntitlementPack) -> (r: String)
    ensures
        r@ == desc_text(p.display_desc),
{
    match &p.display_desc {
        Some(t) => t.clone(),
        None => String::new(),
    }
}

/// Summarises an entitlement list, pack by pack in order.
pub fn parse_entitlements_to_summary(packs: &Vec<EntitlementPack>) -> (r: PlanSummary)
    ensures
        summarises(r, packs@),
{
    let mut r = PlanSummary {
        plan_type: String::new(),
        plan_display_desc: String::new(),
        is_free_plan: false,
        reset_time: 0,
        solo_agent_parallel_limit: 0,
        fast_request_limit: 0,
        slow_request_limit: 0,
        advanced_model_limit: 0,
        autocomplete_limit: 0,
        main_pack: None,
        extra_fast_request_limit: 0,
        extra_expire_time: 0,
        extra_package_name: String::new(),
        extra_pack: None,
    };
    let mut i: usize = 0;
    assert(packs@.take(0) =~= Seq::<EntitlementPack>::empty());
    while i < packs.len()
        invariant
            i <= packs@.len(),
            summarises(r, packs@.take(i as int)),
        decreases packs@.len() - i,
    {
        let p = &packs[i];
        let ghost pre = packs@.take(i as int);
        proof {
            assert(packs@.take(i + 1) =~= pre.push(*p));
            lemma_last_match_push(pre, *p, is_plan_pack());
            lemma_last_match_push(pre, *p, is_extra_pack());
            lemma_last_match_push(pre, *p, is_anniversary_pack());
            lemma_last_match(pre, is_plan_pack());
            lemma_last_match(pre, is_extra_pack());
        }
        r.solo_agent_parallel_limit = p.solo_agent_parallel_limit;
        r.plan_display_desc = desc_of(p);
        if p.product_type == 2 {
            r.extra_fast_request_limit = p.fast_request_limit;
            r.extra_expire_time = p.end_time;
            r.extra_pack = Some(i);
            if p.package_source_type == Some(6i64) {
                r.extra_package_name = "2026 Anniversary Treat".to_string();
            }
        } else {
            let plan_from_id = if p.product_id == 0 {
                "Free".to_string()
            } else {
                "Pro".to_string()
            };
            if r.plan_display_desc.as_str().is_empty() {
                r.plan_display_desc = plan_from_id.clone();
            }
            r.plan_type = r.plan_display_desc.clone();
            r.is_free_plan = p.product_id == 0 && p.charge_amount == 0;
            r.reset_time = p.end_time;
            r.fast_request_limit = p.fast_request_limit;
            r.slow_request_limit = p.slow_request_limit;
            r.advanced_model_limit = p.advanced_model_limit;
            r.autocomplete_limit = p.autocomplete_limit;
            r.main_pack = Some(i);
        }
        proof {
            let post = packs@.take(i + 1);
            assert(post.last() == *p);
            if let Some(j) = last_match(pre, is_plan_pack()) {
                assert(post[j] == pre[j]);
            }
            if let Some(j) = last_match(pre, is_extra_pack()) {
                assert(post[j] == pre[j]);
            }
        }
        i = i + 1;
    }
    assert(packs@.take(packs@.len() as int) =~= packs@);
    r
}

/// The plan of a summary is that of the last plan pack (the last pack whose product
/// type is not 2): its description, else "Free" for product id 0 and "Pro" otherwise;
/// it is free exactly when that pack has product id 0 and no charge; its reset time and
/// limits are that pack's. Later extra packages change none of these, and a list
/// without plan packs has no plan.
pub proof fn summary_plan_is_last_plan_pack(r: PlanSummary, packs: Seq<EntitlementPack>, k: int)
    requires
        summarises(r, packs),
    ensures
        (0 <= k < packs.len() && packs[k].product_type != 2 && (forall|j: int|
            k < j < packs.len() ==> #[trigger] packs[j].product_type == 2)) ==> {
            &&& r.main_pack == Some(k as usize)
            &&& packs[k].display_desc is Some && packs[k].display_desc->Some_0@.len() > 0 ==> r.plan_type@
                == packs[k].display_desc->Some_0@
            &&& (packs[k].display_desc is None || packs[k].display_desc->Some_0@.len() == 0) ==> r.plan_type@ == (if packs[k].product_id
                == 0 {
                "Free"@
            } else {
                "Pro"@
            })
            &&& r.is_free_plan == (packs[k].product_id == 0 && packs[k].charge_amount == 0)
            &&& r.reset_time == packs[k].end_time
            &&& r.fast_request_limit == packs[k].fast_request_limit
            &&& r.slow_request_limit == packs[k].slow_request_limit
            &&& r.advanced_model_limit == packs[k].advanced_model_limit
            &&& r.autocomplete_limit == packs[k].autocomplete_limit
        },
        (forall|j: int| 0 <= j < packs.len() ==> #[trigger] packs[j].product_type == 2) ==> {
            &&& r.main_pack is None
            &&& r.plan_type@.len() == 0
            &&& !r.is_free_plan
            &&& r.reset_time == 0
            &&& r.fast_request_limit == 0
        },
{
    if 0 <= k < packs.len() && packs[k].product_type != 2 && (forall|j: int|
        k < j < packs.len() ==> #[trigger] packs[j].product_type == 2) {
        assert forall|j: int| k < j < packs.len() implies !is_plan_pack()(#[trigger] packs[j]) by {
            assert(packs[j].product_type == 2);
        }
        lemma_last_match_at(packs, is_plan_pack(), k);
    }
    if forall|j: int| 0 <= j < packs.len() ==> #[trigger] packs[j].product_type == 2 {
        assert forall|j: int| 0 <= j < packs.len() implies !is_plan_pack()(#[trigger] packs[j]) by {
            assert(packs[j].product_type == 2);
        }
        lemma_last_match_none(packs, is_plan_pack());
    }
}

/// The extra package of a summary is the last pack of product type 2: its fast-request
/// limit and expiry; a list without one has none.
pub proof fn summary_extra_is_last_extra_pack(r: PlanSummary, packs: Seq<EntitlementPack>, k: int)
    requires
        summarises(r, packs),
    ensures
        (0 <= k < packs.len() && packs[k].product_type == 2 && (forall|j: int|
            k < j < packs.len() ==> #[trigger] packs[j].product_type != 2)) ==> {
            &&& r.extra_pack == Some(k as usize)
            &&& r.extra_fast_request_limit == packs[k].fast_request_limit
            &&& r.extra_expire_time == packs[k].end_time
        },
        (forall|j: int| 0 <= j < packs.len() ==> #[trigger] packs[j].product_type != 2) ==> {
            &&& r.extra_pack is None
            &&& r.extra_fast_request_limit == 0
            &&& r.extra_expire_time == 0
        },
{
    if 0 <= k < packs.len() && packs[k].product_type == 2 && (forall|j: int|
        k < j < packs.len() ==> #[trigger] packs[j].product_type != 2) {
        assert forall|j: int| k < j < packs.len() implies !is_extra_pack()(#[trigger] packs[j]) by {
            assert(packs[j].product_type != 2);
        }
        lemma_last_match_at(packs, is_extra_pack(), k);
    }
    if forall|j: int| 0 <= j < packs.len() ==> #[trigger] packs[j].product_type != 2 {
        assert forall|j: int| 0 <= j < packs.len() implies !is_extra_pack()(#[trigger] packs[j]) by {
            assert(packs[j].product_type != 2);
        }
        lemma_last_match_none(packs, is_extra_pack());
    }
}

} // verus!
