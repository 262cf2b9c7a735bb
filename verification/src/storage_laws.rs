//! Laws of the `storage.json` edits.
use vstd::prelude::*;
use crate::auth_crypto::{open_text, AuthCryptoError};
use crate::machine::TraeLoginInfo;
use crate::storage::{
    auth_info_json, auth_info_key, entitlement_json, entitlement_key, login_replaced, login_written,
    server_data_key, stored_login_text, telemetry_device_key, telemetry_machine_key, telemetry_sqm_key,
    user_tag_key, with_telemetry, without_login, StorageValueView,
};

verus! {

/// The keys of the login record and of the entitlement record differ.
proof fn lemma_login_keys_differ()
    ensures
        auth_info_key() != entitlement_key(),
{
    reveal_strlit("iCubeAuthInfo://icube.cloudide");
    reveal_strlit("iCubeEntitlementInfo://icube.cloudide");
    assert(auth_info_key()[5] != entitlement_key()[5]);
}

/// What a write puts in is what a read gets back: after the login of `info` is written,
/// the object holds a login record text, and opening it gives the login's JSON text.
pub proof fn written_login_reads_back(
    m: Map<Seq<char>, StorageValueView>,
    m2: Map<Seq<char>, StorageValueView>,
    info: TraeLoginInfo,
    now_secs: i64,
    now_nanos: u32,
)
    requires
        login_written(m, m2, info, now_secs, now_nanos),
    ensures
        stored_login_text(m2) matches Some(t) && open_text(t) == Ok::<Seq<char>, AuthCryptoError>(
            auth_info_json(info, now_secs, now_nanos),
        ),
        m2.dom().contains(entitlement_key()) && m2[entitlement_key()] == StorageValueView::Text(
            entitlement_json(),
        ),
{
    lemma_login_keys_differ();
    let sealed = choose|sealed: Seq<char>|
        open_text(sealed) == Ok::<Seq<char>, AuthCryptoError>(auth_info_json(info, now_secs, now_nanos))
            && #[trigger] m.insert(auth_info_key(), StorageValueView::Text(sealed)).insert(
            entitlement_key(),
            StorageValueView::Text(entitlement_json()),
        ) == m2;
    assert(m2[auth_info_key()] == StorageValueView::Text(sealed));
}

/// Putting an account's login in place changes no entry but the login entries and the
/// telemetry ids.
pub proof fn login_replace_keeps_other_entries(
    m: Map<Seq<char>, StorageValueView>,
    m2: Map<Seq<char>, StorageValueView>,
    info: TraeLoginInfo,
    machine_id: Seq<char>,
    sqm_uuid: Seq<char>,
    device_uuid: Seq<char>,
    now_secs: i64,
    now_nanos: u32,
    key: Seq<char>,
)
    requires
        login_replaced(m, m2, info, machine_id, sqm_uuid, device_uuid, now_secs, now_nanos),
        key != auth_info_key(),
        key != entitlement_key(),
        key != server_data_key(),
        key != user_tag_key(),
        key != telemetry_machine_key(),
        key != telemetry_sqm_key(),
        key != telemetry_device_key(),
    ensures
        m2.dom().contains(key) == m.dom().contains(key),
        m.dom().contains(key) ==> m2[key] == m[key],
{
    let base = with_telemetry(without_login(m), machine_id, sqm_uuid, device_uuid);
    let sealed = choose|sealed: Seq<char>|
        open_text(sealed) == Ok::<Seq<char>, AuthCryptoError>(auth_info_json(info, now_secs, now_nanos))
            && #[trigger] base.insert(auth_info_key(), StorageValueView::Text(sealed)).insert(
            entitlement_key(),
            StorageValueView::Text(entitlement_json()),
        ) == m2;
}

/// Clearing the login leaves no login entry behind.
pub proof fn cleared_login_is_gone(
    m: Map<Seq<char>, StorageValueView>,
    machine_id: Seq<char>,
    sqm_uuid: Seq<char>,
    device_uuid: Seq<char>,
)
    ensures
        ({
            let c = with_telemetry(without_login(m), machine_id, sqm_uuid, device_uuid);
            &&& !c.dom().contains(auth_info_key())
            &&& !c.dom().contains(entitlement_key())
            &&& !c.dom().contains(server_data_key())
            &&& !c.dom().contains(user_tag_key())
        }),
{
    reveal_strlit("iCubeAuthInfo://icube.cloudide");
    reveal_strlit("iCubeEntitlementInfo://icube.cloudide");
    reveal_strlit("iCubeServerData://icube.cloudide");
    reveal_strlit("iCubeAuthInfo://usertag");
    reveal_strlit("telemetry.machineId");
    reveal_strlit("telemetry.sqmId");
    reveal_strlit("telemetry.devDeviceId");
    assert(telemetry_machine_key()[0] != auth_info_key()[0]);
    assert(telemetry_sqm_key()[0] != auth_info_key()[0]);
    assert(telemetry_device_key()[0] != auth_info_key()[0]);
    assert(telemetry_machine_key()[0] != entitlement_key()[0]);
    assert(telemetry_sqm_key()[0] != entitlement_key()[0]);
    assert(telemetry_device_key()[0] != entitlement_key()[0]);
    assert(telemetry_machine_key()[0] != server_data_key()[0]);
    assert(telemetry_sqm_key()[0] != server_data_key()[0]);
    assert(telemetry_device_key()[0] != server_data_key()[0]);
    assert(telemetry_machine_key()[0] != user_tag_key()[0]);
    assert(telemetry_sqm_key()[0] != user_tag_key()[0]);
    assert(telemetry_device_key()[0] != user_tag_key()[0]);
}

} // verus!
