//! Laws about what the instance manager writes for the accounts bound to instances.
use vstd::prelude::*;
use crate::account_manager::find_id;
use crate::account_types::{opt_view, Account, AccountView};
use crate::instance_manager::{
    account_views, accounts_after_binding, creates_account, is_account_login, is_bound_login,
    login_user, DirLogin,
};
use crate::instance_types::TraeInstance;
use crate::machine::TraeLoginInfo;
use crate::seq_search::lemma_first_match_at;

verus! {

/// Launching or binding an instance writes the login of its account's TRAE user with
/// that account's own refresh token, so that the instance's login can be renewed, and
/// keeps the account's machine code.
pub proof fn account_login_keeps_refresh_token(p: (TraeLoginInfo, Option<String>), a: Account)
    requires
        is_account_login(p, a),
    ensures
        p.0.refresh_token == a.refresh_token,
        p.0.user_id@ == a.user_id@,
        a.jwt_token matches Some(t) && p.0.token@ == t@,
        p.1 == a.machine_id,
{
}

/// The launch plan of an instance bound to a stored account with a token (the first
/// account with the bound id) holds that account's login record, with the account's
/// user id, token and refresh token, and its machine code; an instance bound to no
/// stored account gets no login.
pub proof fn launch_login_of_bound_account(
    login: Option<(TraeLoginInfo, Option<String>)>,
    inst: TraeInstance,
    accounts: Seq<Account>,
    k: int,
)
    requires
        is_bound_login(login, inst, accounts),
    ensures
        inst.bound_account_id is None ==> login is None,
        (inst.bound_account_id matches Some(aid) && 0 <= k < accounts.len() && accounts[k].id@ == aid@
            && (forall|j: int| 0 <= j < k ==> #[trigger] accounts[j].id@ != aid@)
            && accounts[k].jwt_token is Some) ==> (login matches Some(p) && p.0.refresh_token
            == accounts[k].refresh_token && p.0.user_id@ == accounts[k].user_id@ && accounts[k].jwt_token
            == Some(p.0.token) && p.1 == accounts[k].machine_id),
{
    if let Some(aid) = inst.bound_account_id {
        if 0 <= k < accounts.len() && accounts[k].id@ == aid@ && (forall|j: int|
            0 <= j < k ==> #[trigger] accounts[j].id@ != aid@) && accounts[k].jwt_token is Some {
            lemma_first_match_at(accounts, crate::account_manager::id_is(aid@), k);
            assert(find_id(accounts, aid@) == Some(k));
        }
    }
}

/// Automatic binding keeps the stored accounts and adds only accounts made from the
/// logins found: each added account carries its login's user id, token and refresh
/// token (so the login can be renewed), e-mail, avatar and region, the login's fresh
/// id, source "local", and was created at `now`.
pub proof fn bound_accounts_come_from_logins(
    insts: Seq<TraeInstance>,
    logins: Seq<Option<DirLogin>>,
    old_accounts: Seq<Account>,
    now: i64,
    n: nat,
)
    requires
        n <= insts.len(),
        n <= logins.len(),
    ensures
        ({
            let after = accounts_after_binding(insts, logins, old_accounts, now, n);
            &&& old_accounts.len() <= after.len()
            &&& forall|m: int| 0 <= m < old_accounts.len() ==> #[trigger] after[m] == old_accounts[m]@
            &&& forall|m: int|
                #![trigger after[m]]
                old_accounts.len() <= m < after.len() ==> exists|k: int|
                    #![trigger logins[k]]
                    0 <= k < n && made_from(after[m], logins[k], now)
        }),
    decreases n,
{
    if n > 0 {
        bound_accounts_come_from_logins(insts, logins, old_accounts, now, (n - 1) as nat);
        let prev = accounts_after_binding(insts, logins, old_accounts, now, (n - 1) as nat);
        let after = accounts_after_binding(insts, logins, old_accounts, now, n);
        if creates_account(insts[n - 1], logins[n - 1], old_accounts, prev) {
            assert(login_user(logins[n - 1]) is Some);
            assert(after == prev.push(crate::instance_manager::local_login_view(logins[n - 1]->Some_0, now)));
            assert forall|m: int| #![trigger after[m]] old_accounts.len() <= m < after.len() implies exists|k: int|
                #![trigger logins[k]]
                0 <= k < n && made_from(after[m], logins[k], now) by {
                if m < prev.len() {
                    assert(after[m] == prev[m]);
                    let k = choose|k: int| #![trigger logins[k]] 0 <= k < n - 1 && made_from(prev[m], logins[k], now);
                    assert(0 <= k < n && made_from(after[m], logins[k], now));
                } else {
                    assert(made_from(after[m], logins[n - 1], now));
                }
            }
        }
    } else {
        let after = accounts_after_binding(insts, logins, old_accounts, now, n);
        assert(after == account_views(old_accounts));
    }
}

/// Whether an account view was made from a data-directory login at `now`, field by
/// field.
pub open spec fn made_from(v: AccountView, login: Option<DirLogin>, now: i64) -> bool {
    login matches Some(l) && {
        &&& v.user_id == l.info.user_id@
        &&& v.jwt_token == Some(l.info.token@)
        &&& v.refresh_token == opt_view(l.info.refresh_token)
        &&& v.email == l.info.email@
        &&& v.avatar_url == l.info.avatar_url@
        &&& v.region == l.info.region@
        &&& v.id == l.new_account_id@
        &&& v.tenant_id == l.tenant_id@
        &&& v.source == "local"@
        &&& v.created_at == now
        &&& v.updated_at == now
    }
}

} // verus!
