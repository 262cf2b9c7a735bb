//! Laws that relate the account manager's operations.
use vstd::prelude::*;
use crate::account_types::Account;
use crate::account_manager::{
    find_id, has_user_id, id_is, ids_unique, is_login_info_of, is_switch_login, lemma_has_user_id,
    lemma_has_user_id_push, lemma_merged_unique, merged_in, user_ids_unique,
};
use crate::machine::TraeLoginInfo;
use crate::seq_search::{lemma_first_match, lemma_first_match_none};

verus! {

/// After a merging import, every imported account's user id is stored.
proof fn lemma_merged_covers(existing: Seq<Account>, imported: Seq<Account>)
    ensures
        forall|i: int|
            0 <= i < imported.len() ==> has_user_id(
                existing + merged_in(existing, imported),
                #[trigger] imported[i].user_id@,
            ),
    decreases imported.len(),
{
    if imported.len() > 0 {
        let init = imported.drop_last();
        let prev = merged_in(existing, init);
        let a = imported.last();
        let before = existing + prev;
        let after = existing + merged_in(existing, imported);
        lemma_merged_covers(existing, init);
        assert forall|i: int| 0 <= i < imported.len() implies has_user_id(after, #[trigger] imported[i].user_id@) by {
            if !has_user_id(before, a.user_id@) {
                assert(after =~= before.push(a));
            } else {
                assert(after =~= before);
            }
            if i < init.len() {
                assert(init[i] == imported[i]);
                if !has_user_id(before, a.user_id@) {
                    lemma_has_user_id_push(before, a, imported[i].user_id@);
                }
            } else if !has_user_id(before, a.user_id@) {
                assert(after[before.len() as int] == a);
                lemma_has_user_id(after, a.user_id@, before.len() as int);
            }
        }
    }
}

/// A merging import of accounts whose user ids are all stored keeps none.
proof fn lemma_merged_none(existing: Seq<Account>, imported: Seq<Account>)
    requires
        forall|i: int| 0 <= i < imported.len() ==> has_user_id(existing, #[trigger] imported[i].user_id@),
    ensures
        merged_in(existing, imported).len() == 0,
    decreases imported.len(),
{
    if imported.len() > 0 {
        let init = imported.drop_last();
        assert forall|i: int| 0 <= i < init.len() implies has_user_id(existing, #[trigger] init[i].user_id@) by {
            assert(init[i] == imported[i]);
        }
        lemma_merged_none(existing, init);
        assert(existing + merged_in(existing, init) =~= existing);
        assert(has_user_id(existing, imported[imported.len() - 1].user_id@));
    }
}

/// Importing the same accounts again in merging mode adds nothing: after a merge,
/// every imported account's user id is stored.
pub proof fn reimport_adds_nothing(existing: Seq<Account>, imported: Seq<Account>)
    ensures
        merged_in(existing + merged_in(existing, imported), imported).len() == 0,
{
    lemma_merged_covers(existing, imported);
    lemma_merged_none(existing + merged_in(existing, imported), imported);
}

/// A merging import keeps user ids distinct: where no two stored accounts share a user
/// id, no two accounts share one after the import, whatever was imported.
pub proof fn merge_keeps_user_ids_distinct(existing: Seq<Account>, imported: Seq<Account>)
    requires
        user_ids_unique(existing),
    ensures
        user_ids_unique(existing + merged_in(existing, imported)),
{
    lemma_merged_unique(existing, imported);
}

/// Where ids are unique, once the account found by an id is removed, no account has
/// that id any more: a lookup of a removed account fails.
pub proof fn removed_account_is_gone(accounts: Seq<Account>, id: Seq<char>)
    requires
        ids_unique(accounts),
    ensures
        find_id(accounts, id) matches Some(i) ==> find_id(accounts.remove(i), id) is None,
{
    lemma_first_match(accounts, id_is(id));
    if let Some(i) = find_id(accounts, id) {
        let r = accounts.remove(i);
        assert forall|j: int| 0 <= j < r.len() implies !id_is(id)(#[trigger] r[j]) by {
            let k = if j < i { j } else { j + 1 };
            assert(r[j] == accounts[k]);
            assert(k != i);
        }
        lemma_first_match_none(r, id_is(id));
    }
}

/// The login record built for an account names the account's TRAE user by its user id,
/// never by the manager's own account id, and carries the account's token, e-mail, name
/// and avatar, the refresh token it was built with, no host, and the account's region,
/// or "CN" where it has none.
pub proof fn login_record_names_trae_user(info: TraeLoginInfo, a: Account, refresh_token: Option<String>)
    requires
        is_login_info_of(info, a, refresh_token),
    ensures
        info.user_id@ == a.user_id@,
        a.user_id@ != a.id@ ==> info.user_id@ != a.id@,
        a.jwt_token matches Some(t) && info.token@ == t@,
        info.refresh_token == refresh_token,
        info.email@ == a.email@,
        info.username@ == a.name@,
        info.avatar_url@ == a.avatar_url@,
        info.host@.len() == 0,
        a.region@.len() == 0 ==> info.region@ == "CN"@,
        a.region@.len() > 0 ==> info.region@ == a.region@,
{
}

/// Switching the product to an account (or opening a separate instance for it) writes
/// the login of that account's TRAE user, without a refresh token, and keeps the
/// account's machine code.
pub proof fn switch_login_names_trae_user(p: (TraeLoginInfo, Option<String>), a: Account)
    requires
        is_switch_login(p, a),
    ensures
        p.0.user_id@ == a.user_id@,
        a.jwt_token matches Some(t) && p.0.token@ == t@,
        p.0.refresh_token is None,
        p.1 == a.machine_id,
{
}

} // verus!
