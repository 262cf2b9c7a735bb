//! The product's `storage.json`: its top-level entries, and the login record,
//! entitlement record and telemetry ids that switching accounts writes into it.
use vstd::prelude::*;
use crate::auth_crypto::{
    encrypt_solo_cn_auth_info, open_solo_cn_auth_info, open_text, text_whole_blocks, AuthCryptoError,
};
use crate::machine::{generate_machine_guid, is_uuid_v4_text, TraeLoginInfo};
use crate::numbers::{decimal_text, hex_lower, hex_text, u64_decimal};
use crate::outside::{
    default_hash, default_hash_of, format_utc, is_json_text, json_quoted, json_string_literal, parses_as_json,
    to_upper, upper_text, utc_text, CHRONO_MAX_SECS, CHRONO_MIN_SECS,
};
use crate::text::{concat, str_eq};

verus! {

/// The value of a top-level entry of `storage.json`.
#[derive(Debug, Clone, PartialEq, Eq)]
pub enum StorageValue {
    /// A JSON string, held as the text it denotes.
    Text(String),
    /// Any other JSON value, held as its JSON text.
    Json(String),
}

/// What a value of an entry is: a string's text, or the JSON text of another value.
pub enum StorageValueView {
    Text(Seq<char>),
    Json(Seq<char>),
}

impl View for StorageValue {
    type V = StorageValueView;

    open spec fn view(&self) -> StorageValueView {
        match self {
            StorageValue::Text(t) => StorageValueView::Text(t@),
            StorageValue::Json(t) => StorageValueView::Json(t@),
        }
    }
}

impl StorageValue {
    /// A copy of the value.
    pub fn copy(&self) -> (r: StorageValue)
        ensures
            r == *self,
    {
        match self {
            StorageValue::Text(t) => StorageValue::Text(t.clone()),
            StorageValue::Json(t) => StorageValue::Json(t.clone()),
        }
    }
}

/// The top-level object of `storage.json`, as a list of entries. Where a key occurs
/// twice, the later entry counts, as when a JSON parser fills a map.
#[derive(Debug, Clone, PartialEq, Eq)]
pub struct StorageDoc {
    pub entries: Vec<(String, StorageValue)>,
}

/// The object that a list of entries denotes.
pub open spec fn doc_map(entries: Seq<(String, StorageValue)>) -> Map<Seq<char>, StorageValueView>
    decreases entries.len(),
{
    if entries.len() == 0 {
        Map::empty()
    } else {
        doc_map(entries.drop_last()).insert(entries.last().0@, entries.last().1@)
    }
}

impl View for StorageDoc {
    type V = Map<Seq<char>, StorageValueView>;

    open spec fn view(&self) -> Map<Seq<char>, StorageValueView> {
        doc_map(self.entries@)
    }
}

/// Unfolds `doc_map` over a list with one more entry.
proof fn lemma_doc_map_push(s: Seq<(String, StorageValue)>, e: (String, StorageValue))
    ensures
        doc_map(s.push(e)) == doc_map(s).insert(e.0@, e.1@),
{
    assert(s.push(e).drop_last() =~= s);
}

impl StorageDoc {
    /// An empty object.
    pub fn new() -> (r: StorageDoc)
        ensures
            r@ == Map::<Seq<char>, StorageValueView>::empty(),
    {
        StorageDoc { entries: Vec::new() }
    }

    /// The value held under `key`.
    pub fn get(&self, key: &str) -> (r: Option<StorageValue>)
        ensures
            match r {
                Some(v) => self@.dom().contains(key@) && v@ == self@[key@],
                None => !self@.dom().contains(key@),
            },
    {
        let mut found: Option<StorageValue> = None;
        let mut i: usize = 0;
        while i < self.entries.len()
            invariant
                i <= self.entries@.len(),
                match found {
                    Some(v) => doc_map(self.entries@.take(i as int)).dom().contains(key@) && v@ == doc_map(
                        self.entries@.take(i as int),
                    )[key@],
                    None => !doc_map(self.entries@.take(i as int)).dom().contains(key@),
                },
            decreases self.entries@.len() - i,
        {
            proof {
                assert(self.entries@.take(i + 1) =~= self.entries@.take(i as int).push(self.entries@[i as int]));
                lemma_doc_map_push(self.entries@.take(i as int), self.entries@[i as int]);
            }
            if str_eq(self.entries[i].0.as_str(), key) {
                found = Some(self.entries[i].1.copy());
            }
            i = i + 1;
        }
        assert(self.entries@.take(self.entries@.len() as int) =~= self.entries@);
        found
    }

    /// Removes `key`.
    pub fn remove(&mut self, key: &str)
        ensures
            final(self)@ == old(self)@.remove(key@),
    {
        let mut kept: Vec<(String, StorageValue)> = Vec::new();
        let mut i: usize = 0;
        while i < self.entries.len()
            invariant
                i <= self.entries@.len(),
                self.entries == old(self).entries,
                doc_map(kept@) == doc_map(self.entries@.take(i as int)).remove(key@),
            decreases self.entries@.len() - i,
        {
            let ghost prefix = self.entries@.take(i as int);
            let ghost e = self.entries@[i as int];
            proof {
                assert(self.entries@.take(i + 1) =~= prefix.push(e));
                lemma_doc_map_push(prefix, e);
            }
            if !str_eq(self.entries[i].0.as_str(), key) {
                let k = self.entries[i].0.clone();
                let v = self.entries[i].1.copy();
                proof {
                    lemma_doc_map_push(kept@, (k, v));
                }
                kept.push((k, v));
                assert(doc_map(kept@) =~= doc_map(self.entries@.take(i + 1)).remove(key@));
            } else {
                assert(doc_map(kept@) =~= doc_map(self.entries@.take(i + 1)).remove(key@));
            }
            i = i + 1;
        }
        assert(self.entries@.take(self.entries@.len() as int) =~= self.entries@);
        self.entries = kept;
    }

    /// Sets `key` to `value`.
    pub fn set(&mut self, key: String, value: StorageValue)
        ensures
            final(self)@ == old(self)@.insert(key@, value@),
    {
        self.remove(key.as_str());
        proof {
            lemma_doc_map_push(self.entries@, (key, value));
        }
        self.entries.push((key, value));
        assert(old(self)@.remove(key@).insert(key@, value@) =~= old(self)@.insert(key@, value@));
    }

    /// Sets `key` to the JSON string `text`.
    pub fn set_text(&mut self, key: &str, text: String)
        ensures
            final(self)@ == old(self)@.insert(key@, StorageValueView::Text(text@)),
    {
        self.set(key.to_string(), StorageValue::Text(text));
    }
}

/// The key of the sealed login record.
pub open spec fn auth_info_key() -> Seq<char> {
    "iCubeAuthInfo://icube.cloudide"@
}

/// The key of the entitlement record.
pub open spec fn entitlement_key() -> Seq<char> {
    "iCubeEntitlementInfo://icube.cloudide"@
}

/// The key of the server data kept with a login.
pub open spec fn server_data_key() -> Seq<char> {
    "iCubeServerData://icube.cloudide"@
}

/// The key of the user tag kept with a login.
pub open spec fn user_tag_key() -> Seq<char> {
    "iCubeAuthInfo://usertag"@
}

/// The key of the telemetry machine id.
pub open spec fn telemetry_machine_key() -> Seq<char> {
    "telemetry.machineId"@
}

/// The key of the telemetry SQM id.
pub open spec fn telemetry_sqm_key() -> Seq<char> {
    "telemetry.sqmId"@
}

/// The key of the telemetry device id.
pub open spec fn telemetry_device_key() -> Seq<char> {
    "telemetry.devDeviceId"@
}

/// The object without the four entries that hold a login.
pub open spec fn without_login(m: Map<Seq<char>, StorageValueView>) -> Map<Seq<char>, StorageValueView> {
    m.remove(auth_info_key()).remove(entitlement_key()).remove(server_data_key()).remove(user_tag_key())
}

/// The 128-bit telemetry hash of a machine id: the `DefaultHasher` hash of the id in the
/// high half, and in the low half the hash of the id followed by the decimal text of
/// the first hash.
pub open spec fn telemetry_hash(machine_id: Seq<char>) -> u128 {
    let h1 = default_hash(machine_id);
    let h2 = default_hash(machine_id + decimal_text(h1 as nat));
    (h1 as int * 0x1_0000_0000_0000_0000 + h2 as int) as u128
}

/// Computes [`telemetry_hash`].
pub fn md5_hash(input: &str) -> (r: u128)
    ensures
        r == telemetry_hash(input@),
{
    let h1 = default_hash_of(input);
    let d = u64_decimal(h1);
    let joined = concat(input, d.as_str());
    let h2 = default_hash_of(joined.as_str());
    let r: u128 = ((h1 as u128) << 64u128) | (h2 as u128);
    assert(((h1 as u128) << 64u128) | (h2 as u128) == (h1 as int * 0x1_0000_0000_0000_0000 + h2 as int)
        as u128) by (bit_vector);
    r
}

/// The hexadecimal telemetry machine id of a machine id.
pub open spec fn telemetry_machine_id(machine_id: Seq<char>) -> Seq<char> {
    hex_text(telemetry_hash(machine_id) as nat)
}

/// The object with fresh telemetry ids for `machine_id`: its hexadecimal telemetry
/// hash, the SQM id (`sqm_uuid` in upper case, in braces) and the device id.
pub open spec fn with_telemetry(
    m: Map<Seq<char>, StorageValueView>,
    machine_id: Seq<char>,
    sqm_uuid: Seq<char>,
    device_uuid: Seq<char>,
) -> Map<Seq<char>, StorageValueView> {
    m.insert(telemetry_machine_key(), StorageValueView::Text(telemetry_machine_id(machine_id))).insert(
        telemetry_sqm_key(),
        StorageValueView::Text("{"@ + upper_text(sqm_uuid) + "}"@),
    ).insert(telemetry_device_key(), StorageValueView::Text(device_uuid))
}

/// The server host of a login record: the record's own host, or else the API host of
/// its region (upper case): Singapore for "SG" and any region but "CN".
pub open spec fn login_host_spec(host: Seq<char>, region_upper: Seq<char>) -> Seq<char> {
    if host.len() > 0 {
        host
    } else if region_upper == "CN"@ {
        "https://api.trae.cn"@
    } else {
        "https://api-sg-central.trae.ai"@
    }
}

/// The server host of a login record.
pub fn login_host(host: &str, region_upper: &str) -> (r: String)
    ensures
        r@ == login_host_spec(host@, region_upper@),
{
    if !host.is_empty() {
        host.to_string()
    } else if str_eq(region_upper, "SG") {
        proof {
            reveal_strlit("SG");
            reveal_strlit("CN");
            assert(region_upper@[0] != "CN"@[0]);
        }
        "https://api-sg-central.trae.ai".to_string()
    } else if str_eq(region_upper, "CN") {
        "https://api.trae.cn".to_string()
    } else {
        "https://api-sg-central.trae.ai".to_string()
    }
}

/// Seconds in fourteen days: how long a written token is declared valid.
pub const TOKEN_VALID_SECS: i64 = 1209600;
/// Seconds in 180 days: how long a written refresh token is declared valid.
pub const REFRESH_VALID_SECS: i64 = 15552000;
/// The format of the instants in a login record.
pub open spec fn login_time_format() -> Seq<char> {
    "%Y-%m-%dT%H:%M:%S%.3fZ"@
}

/// An instant of a login record, written in its format.
pub open spec fn utc_millis_text(secs: i64, nanos: u32) -> Seq<char> {
    utc_text(secs, nanos, login_time_format())
}

/// An instant of a login record, written in its format.
fn format_utc_millis(secs: i64, nanos: u32) -> (r: Option<String>)
    ensures
        r matches Some(t) ==> t@ == utc_millis_text(secs, nanos),
        CHRONO_MIN_SECS <= secs <= CHRONO_MAX_SECS && nanos < 1000000000 ==> r is Some,
{
    format_utc(secs, nanos, "%Y-%m-%dT%H:%M:%S%.3fZ")
}

/// The JSON text of the login record for `info`, written at the instant `now` (seconds
/// and nanoseconds since the epoch), with keys in the sorted order in which
/// `serde_json` writes an object: token, refresh token, the instants of expiry
/// (fourteen days on), refresh expiry (180 days on) and release (now), user id, host,
/// upper-case region and the account's name, e-mail and avatar.
pub open spec fn auth_info_json(info: TraeLoginInfo, now_secs: i64, now_nanos: u32) -> Seq<char> {
    let region = upper_text(info.region@);
    let refresh = match info.refresh_token {
        Some(t) => t@,
        None => Seq::<char>::empty(),
    };
    "{\"account\":{\"avatar_url\":"@ + json_quoted(info.avatar_url@)
        + ",\"description\":\"\",\"email\":"@ + json_quoted(info.email@)
        + ",\"iat\":0,\"iss\":\"\",\"loginScope\":\"trae\",\"organization\":\"\",\"scope\":\"marscode\",\"storeCountryCode\":\"cn\",\"storeCountrySrc\":\"uid\",\"storeRegion\":"@
        + json_quoted(region) + ",\"userTag\":\"row\",\"username\":"@ + json_quoted(info.username@)
        + ",\"work_country\":\"\"},\"expiredAt\":"@ + json_quoted(
        utc_millis_text((now_secs + TOKEN_VALID_SECS) as i64, now_nanos),
    ) + ",\"host\":"@ + json_quoted(login_host_spec(info.host@, region)) + ",\"refreshExpiredAt\":"@
        + json_quoted(utc_millis_text((now_secs + REFRESH_VALID_SECS) as i64, now_nanos))
        + ",\"refreshToken\":"@ + json_quoted(refresh) + ",\"token\":"@ + json_quoted(info.token@)
        + ",\"tokenReleaseAt\":"@ + json_quoted(utc_millis_text(now_secs, now_nanos))
        + ",\"userId\":"@ + json_quoted(info.user_id@) + ",\"userRegion\":{\"_aiRegion\":"@
        + json_quoted(region) + ",\"region\":"@ + json_quoted(region) + "}}"@
}

/// Appends `t` to `s`.
fn push_text(s: &mut String, t: &str)
    ensures
        final(s)@ == old(s)@ + t@,
{
    s.append(t);
}

/// Appends the JSON string literal of `t` to `s`.
fn push_quoted(s: &mut String, t: &str)
    ensures
        final(s)@ == old(s)@ + json_quoted(t@),
{
    let q = json_string_literal(t);
    s.append(q.as_str());
}

/// Whether every instant that the login record names can be written: `now` and 180 days
/// on lie within the instants that `chrono` represents (some 262 000 years each side of
/// the epoch), and the nanoseconds are below a second.
pub open spec fn login_instants_in_range(now_secs: i64, now_nanos: u32) -> bool {
    CHRONO_MIN_SECS <= now_secs <= CHRONO_MAX_SECS - REFRESH_VALID_SECS && now_nanos < 1000000000
}

/// The JSON text of the login record for `info` at `now`; `None` where one of its
/// instants cannot be written.
pub fn auth_info_text(info: &TraeLoginInfo, now_secs: i64, now_nanos: u32) -> (r: Option<String>)
    ensures
        r matches Some(t) ==> t@ == auth_info_json(*info, now_secs, now_nanos),
        r is Some <==> login_instants_in_range(now_secs, now_nanos),
{
    if now_secs < CHRONO_MIN_SECS || now_secs > CHRONO_MAX_SECS - REFRESH_VALID_SECS || now_nanos >= 1000000000 {
        return None;
    }
    let expired = format_utc_millis(now_secs + TOKEN_VALID_SECS, now_nanos);
    let refresh_expired = format_utc_millis(now_secs + REFRESH_VALID_SECS, now_nanos);
    let released = format_utc_millis(now_secs, now_nanos);
    let (expired, refresh_expired, released) = match (expired, refresh_expired, released) {
        (Some(a), Some(b), Some(c)) => (a, b, c),
        _ => return None,
    };
    let region = to_upper(info.region.as_str());
    let host = login_host(info.host.as_str(), region.as_str());
    let refresh = match &info.refresh_token {
        Some(t) => t.clone(),
        None => String::new(),
    };
    let mut s = String::new();
    push_text(&mut s, "{\"account\":{\"avatar_url\":");
    push_quoted(&mut s, info.avatar_url.as_str());
    push_text(&mut s, ",\"description\":\"\",\"email\":");
    push_quoted(&mut s, info.email.as_str());
    push_text(
        &mut s,
        ",\"iat\":0,\"iss\":\"\",\"loginScope\":\"trae\",\"organization\":\"\",\"scope\":\"marscode\",\"storeCountryCode\":\"cn\",\"storeCountrySrc\":\"uid\",\"storeRegion\":",
    );
    push_quoted(&mut s, region.as_str());
    push_text(&mut s, ",\"userTag\":\"row\",\"username\":");
    push_quoted(&mut s, info.username.as_str());
    push_text(&mut s, ",\"work_country\":\"\"},\"expiredAt\":");
    push_quoted(&mut s, expired.as_str());
    push_text(&mut s, ",\"host\":");
    push_quoted(&mut s, host.as_str());
    push_text(&mut s, ",\"refreshExpiredAt\":");
    push_quoted(&mut s, refresh_expired.as_str());
    push_text(&mut s, ",\"refreshToken\":");
    push_quoted(&mut s, refresh.as_str());
    push_text(&mut s, ",\"token\":");
    push_quoted(&mut s, info.token.as_str());
    push_text(&mut s, ",\"tokenReleaseAt\":");
    push_quoted(&mut s, released.as_str());
    push_text(&mut s, ",\"userId\":");
    push_quoted(&mut s, info.user_id.as_str());
    push_text(&mut s, ",\"userRegion\":{\"_aiRegion\":");
    push_quoted(&mut s, region.as_str());
    push_text(&mut s, ",\"region\":");
    push_quoted(&mut s, region.as_str());
    push_text(&mut s, "}}");
    Some(s)
}

/// The entitlement record written with a login: a free plan, as `serde_json` writes it.
pub open spec fn entitlement_json() -> Seq<char> {
    "{\"detail\":{\"canGenSoloCode\":false,\"can_gen_solo_code\":false,\"fastRequestPer\":1,\"fast_request_per\":1,\"inWaitlist\":false,\"in_wait\":false,\"permission\":1,\"toastRead\":false,\"toast_read\":false},\"enableEntitlement\":true,\"hasPackage\":false,\"identity\":0,\"identityStr\":\"Free\",\"isPayFreshman\":false,\"isSupportCommercialization\":true}"@
}

/// The entitlement record written with a login.
pub fn entitlement_text() -> (r: String)
    ensures
        r@ == entitlement_json(),
{
    "{\"detail\":{\"canGenSoloCode\":false,\"can_gen_solo_code\":false,\"fastRequestPer\":1,\"fast_request_per\":1,\"inWaitlist\":false,\"in_wait\":false,\"permission\":1,\"toastRead\":false,\"toast_read\":false},\"enableEntitlement\":true,\"hasPackage\":false,\"identity\":0,\"identityStr\":\"Free\",\"isPayFreshman\":false,\"isSupportCommercialization\":true}".to_string()
}

/// Why a login could not be written.
#[derive(Debug, Clone, Copy, PartialEq, Eq)]
pub enum LoginWriteError {
    /// The time given lies outside the years that the record's instants can take.
    TimeOutOfRange,
}

/// Whether `m2` is `m` with the login record of `info` at `now` written in: a sealed
/// record that opens to [`auth_info_json`], and the entitlement record.
pub open spec fn login_written(
    m: Map<Seq<char>, StorageValueView>,
    m2: Map<Seq<char>, StorageValueView>,
    info: TraeLoginInfo,
    now_secs: i64,
    now_nanos: u32,
) -> bool {
    exists|sealed: Seq<char>|
        open_text(sealed) == Ok::<Seq<char>, AuthCryptoError>(auth_info_json(info, now_secs, now_nanos))
            && #[trigger] m.insert(auth_info_key(), StorageValueView::Text(sealed)).insert(
            entitlement_key(),
            StorageValueView::Text(entitlement_json()),
        ) == m2
}

/// Writes the login record of `info` (sealed) and the entitlement record into the
/// object, as of `now`. Fails, leaving the object as it was, only where an instant of
/// the record cannot be written.
pub fn write_product_login_info(
    doc: &mut StorageDoc,
    info: &TraeLoginInfo,
    now_secs: i64,
    now_nanos: u32,
) -> (r: Result<(), LoginWriteError>)
    ensures
        r is Ok ==> login_written(old(doc)@, final(doc)@, *info, now_secs, now_nanos),
        r is Err <==> !login_instants_in_range(now_secs, now_nanos),
        r is Err ==> final(doc)@ == old(doc)@,
{
    let plain = match auth_info_text(info, now_secs, now_nanos) {
        Some(p) => p,
        None => return Err(LoginWriteError::TimeOutOfRange),
    };
    let sealed = match encrypt_solo_cn_auth_info(plain.as_str()) {
        Ok(s) => s,
        Err(_) => return Err(LoginWriteError::TimeOutOfRange),
    };
    let ghost sealed_view = sealed@;
    doc.set_text("iCubeAuthInfo://icube.cloudide", sealed);
    doc.set_text("iCubeEntitlementInfo://icube.cloudide", entitlement_text());
    assert(old(doc)@.insert(auth_info_key(), StorageValueView::Text(sealed_view)).insert(
        entitlement_key(),
        StorageValueView::Text(entitlement_json()),
    ) == doc@);
    Ok(())
}

impl StorageDoc {
    /// Removes the entries that hold a login: the login record, the entitlement record,
    /// the server data and the user tag.
    pub fn clear_login(&mut self)
        ensures
            final(self)@ == without_login(old(self)@),
    {
        self.remove("iCubeAuthInfo://icube.cloudide");
        self.remove("iCubeEntitlementInfo://icube.cloudide");
        self.remove("iCubeServerData://icube.cloudide");
        self.remove("iCubeAuthInfo://usertag");
    }

    /// Writes fresh telemetry ids for `machine_id`.
    pub fn set_telemetry(&mut self, machine_id: &str, sqm_uuid: &str, device_uuid: &str)
        ensures
            final(self)@ == with_telemetry(old(self)@, machine_id@, sqm_uuid@, device_uuid@),
    {
        let h = md5_hash(machine_id);
        self.set_text("telemetry.machineId", hex_lower(h));
        let upper = to_upper(sqm_uuid);
        let braced = concat(concat("{", upper.as_str()).as_str(), "}");
        self.set_text("telemetry.sqmId", braced);
        self.set_text("telemetry.devDeviceId", device_uuid.to_string());
    }
}

/// Whether `m2` is `m` after an account's login was put in place: the old login entries
/// removed, fresh telemetry ids for `machine_id` written, and the login of `info` at
/// `now` written.
pub open spec fn login_replaced(
    m: Map<Seq<char>, StorageValueView>,
    m2: Map<Seq<char>, StorageValueView>,
    info: TraeLoginInfo,
    machine_id: Seq<char>,
    sqm_uuid: Seq<char>,
    device_uuid: Seq<char>,
    now_secs: i64,
    now_nanos: u32,
) -> bool {
    login_written(
        with_telemetry(without_login(m), machine_id, sqm_uuid, device_uuid),
        m2,
        info,
        now_secs,
        now_nanos,
    )
}

/// Puts the login of `info` in place of whatever login the object holds, with fresh
/// telemetry ids for `machine_id`. Fails, changing nothing, only where an instant of the
/// record cannot be written.
pub fn replace_login(
    doc: &mut StorageDoc,
    info: &TraeLoginInfo,
    machine_id: &str,
    sqm_uuid: &str,
    device_uuid: &str,
    now_secs: i64,
    now_nanos: u32,
) -> (r: Result<(), LoginWriteError>)
    ensures
        r is Ok ==> login_replaced(
            old(doc)@,
            final(doc)@,
            *info,
            machine_id@,
            sqm_uuid@,
            device_uuid@,
            now_secs,
            now_nanos,
        ),
        r is Err <==> !login_instants_in_range(now_secs, now_nanos),
        r is Err ==> final(doc)@ == old(doc)@,
{
    if now_secs < CHRONO_MIN_SECS || now_secs > CHRONO_MAX_SECS - REFRESH_VALID_SECS || now_nanos >= 1000000000 {
        return Err(LoginWriteError::TimeOutOfRange);
    }
    doc.clear_login();
    doc.set_telemetry(machine_id, sqm_uuid, device_uuid);
    write_product_login_info(doc, info, now_secs, now_nanos)
}

/// The ids that putting a login in place writes: the machine id, and the UUIDs from
/// which the telemetry SQM id and device id are made.
#[derive(Debug, Clone, PartialEq, Eq)]
pub struct FreshIds {
    pub machine_id: String,
    pub sqm_uuid: String,
    pub device_uuid: String,
}

/// Whether the fresh ids are version-4 UUIDs in hyphenated lowercase form: the two
/// telemetry ids always, the machine id where it was made here (`fresh_machine`).
pub open spec fn fresh_ids_form(fresh_machine: bool, ids: FreshIds) -> bool {
    &&& fresh_machine ==> is_uuid_v4_text(ids.machine_id@)
    &&& is_uuid_v4_text(ids.sqm_uuid@)
    &&& is_uuid_v4_text(ids.device_uuid@)
}

/// The ids to write: the machine id given, else a fresh one, and two fresh UUIDs.
fn fresh_ids(machine_id: Option<String>) -> (r: FreshIds)
    ensures
        machine_id matches Some(m) ==> r.machine_id == m,
        fresh_ids_form(machine_id is None, r),
{
    let mid = match machine_id {
        Some(m) => m,
        None => generate_machine_guid(),
    };
    FreshIds { machine_id: mid, sqm_uuid: generate_machine_guid(), device_uuid: generate_machine_guid() }
}

/// The `storage.json` part of switching the product to an account: the ids written are
/// returned (the machine id is `machine_id`, else a fresh one), and the object gets the
/// account's login in place of the old one, with fresh telemetry ids for that machine id.
pub fn switch_product_account(
    doc: &mut StorageDoc,
    info: &TraeLoginInfo,
    machine_id: Option<String>,
    now_secs: i64,
    now_nanos: u32,
) -> (r: Result<FreshIds, LoginWriteError>)
    ensures
        r matches Ok(ids) ==> (machine_id matches Some(g) ==> ids.machine_id == g),
        r matches Ok(ids) ==> fresh_ids_form(machine_id is None, ids),
        r matches Ok(ids) ==> login_replaced(
            old(doc)@,
            final(doc)@,
            *info,
            ids.machine_id@,
            ids.sqm_uuid@,
            ids.device_uuid@,
            now_secs,
            now_nanos,
        ),
        r is Err <==> !login_instants_in_range(now_secs, now_nanos),
        r is Err ==> final(doc)@ == old(doc)@,
{
    let ids = fresh_ids(machine_id);
    match replace_login(
        doc,
        info,
        ids.machine_id.as_str(),
        ids.sqm_uuid.as_str(),
        ids.device_uuid.as_str(),
        now_secs,
        now_nanos,
    ) {
        Ok(()) => Ok(ids),
        Err(e) => Err(e),
    }
}

/// The `storage.json` part of starting the product on its own data directory for an
/// account: as for [`switch_product_account`], on that directory's object.
pub fn launch_product_multi(
    doc: &mut StorageDoc,
    info: &TraeLoginInfo,
    machine_id: Option<String>,
    now_secs: i64,
    now_nanos: u32,
) -> (r: Result<FreshIds, LoginWriteError>)
    ensures
        r matches Ok(ids) ==> (machine_id matches Some(g) ==> ids.machine_id == g),
        r matches Ok(ids) ==> fresh_ids_form(machine_id is None, ids),
        r matches Ok(ids) ==> login_replaced(
            old(doc)@,
            final(doc)@,
            *info,
            ids.machine_id@,
            ids.sqm_uuid@,
            ids.device_uuid@,
            now_secs,
            now_nanos,
        ),
        r is Err <==> !login_instants_in_range(now_secs, now_nanos),
        r is Err ==> final(doc)@ == old(doc)@,
{
    switch_product_account(doc, info, machine_id, now_secs, now_nanos)
}

/// The `storage.json` part of clearing the product's login: fresh ids are returned, and
/// the object, where there is one, loses its login entries and gets fresh telemetry ids
/// for the new machine id.
pub fn clear_product_login_state(doc: Option<StorageDoc>) -> (r: (FreshIds, Option<StorageDoc>))
    ensures
        doc is Some <==> r.1 is Some,
        fresh_ids_form(true, r.0),
        doc matches Some(d) ==> r.1->Some_0@ == with_telemetry(
            without_login(d@),
            r.0.machine_id@,
            r.0.sqm_uuid@,
            r.0.device_uuid@,
        ),
{
    let ids = fresh_ids(None);
    match doc {
        Some(d) => {
            let mut d = d;
            d.clear_login();
            d.set_telemetry(ids.machine_id.as_str(), ids.sqm_uuid.as_str(), ids.device_uuid.as_str());
            (ids, Some(d))
        },
        None => (ids, None),
    }
}

/// The paths under a data directory that hold a browser session and are removed with a
/// login, each with whether it is a directory.
pub open spec fn session_paths() -> Seq<(Seq<char>, bool)> {
    seq![
        ("Local State"@, false),
        ("IndexedDB"@, true),
        ("Local Storage"@, true),
        ("Session Storage"@, true),
        ("Network/Cookies"@, false),
        ("Network/Cookies-journal"@, false),
    ]
}

/// The paths under a data directory removed with a login.
pub fn session_paths_to_clear() -> (r: Vec<(String, bool)>)
    ensures
        r@.len() == session_paths().len(),
        forall|i: int|
            0 <= i < r@.len() ==> (#[trigger] r@[i]).0@ == session_paths()[i].0 && r@[i].1
                == session_paths()[i].1,
{
    let mut r: Vec<(String, bool)> = Vec::new();
    r.push(("Local State".to_string(), false));
    r.push(("IndexedDB".to_string(), true));
    r.push(("Local Storage".to_string(), true));
    r.push(("Session Storage".to_string(), true));
    r.push(("Network/Cookies".to_string(), false));
    r.push(("Network/Cookies-journal".to_string(), false));
    r
}

/// What the text of a login record gives: the text itself where it is JSON, else the
/// plaintext of the sealed record it holds (an error where its ciphertext is not whole
/// blocks).
pub open spec fn login_record_plaintext(raw: Seq<char>) -> Result<Seq<char>, AuthCryptoError> {
    if is_json_text(raw) {
        Ok(raw)
    } else if !text_whole_blocks(raw) {
        Err(AuthCryptoError::CiphertextLength)
    } else {
        open_text(raw)
    }
}

/// The plaintext of a login record as read from `storage.json`.
pub fn resolve_auth_info_text(raw: &str) -> (r: Result<String, AuthCryptoError>)
    ensures
        match r {
            Ok(s) => login_record_plaintext(raw@) == Ok::<Seq<char>, AuthCryptoError>(s@),
            Err(e) => login_record_plaintext(raw@) == Err::<Seq<char>, AuthCryptoError>(e),
        },
{
    if parses_as_json(raw) {
        Ok(raw.to_string())
    } else {
        open_solo_cn_auth_info(raw)
    }
}

/// Why no login could be read from `storage.json`.
#[derive(Debug, Clone, Copy, PartialEq, Eq)]
pub enum LoginReadError {
    /// The object holds no login record text.
    NotFound,
    /// The sealed record could not be opened.
    Sealed(AuthCryptoError),
}

/// The login record text that an object holds, where it holds one as a string.
pub open spec fn stored_login_text(m: Map<Seq<char>, StorageValueView>) -> Option<Seq<char>> {
    if m.dom().contains(auth_info_key()) {
        match m[auth_info_key()] {
            StorageValueView::Text(t) => Some(t),
            StorageValueView::Json(_) => None,
        }
    } else {
        None
    }
}

impl StorageDoc {
    /// The plaintext of the login record that the object holds.
    pub fn login_record(&self) -> (r: Result<String, LoginReadError>)
        ensures
            match (r, stored_login_text(self@)) {
                (Ok(s), Some(t)) => login_record_plaintext(t) == Ok::<Seq<char>, AuthCryptoError>(s@),
                (Err(LoginReadError::NotFound), None) => true,
                (Err(LoginReadError::Sealed(e)), Some(t)) => login_record_plaintext(t) == Err::<
                    Seq<char>,
                    AuthCryptoError,
                >(e),
                _ => false,
            },
    {
        match self.get("iCubeAuthInfo://icube.cloudide") {
            Some(StorageValue::Text(t)) => match resolve_auth_info_text(t.as_str()) {
                Ok(s) => Ok(s),
                Err(e) => Err(LoginReadError::Sealed(e)),
            },
            _ => Err(LoginReadError::NotFound),
        }
    }
}

} // verus!
