//! The two authentication flows.
//!
//! `signup` registers an identity: validate, hash the secret, append the
//! account record, then mint a session. `signin` authenticates: look the
//! account up, check the secret against its digest, then mint a session;
//! it applies no input validation of its own, so every request that does
//! not authenticate fails the same way. In both flows, a session-mint
//! failure after the account exists is
//! reported as `SessionIssuanceFailed` and never rolls the account back.
//! An unknown identity and a wrong secret fail `signin` with the one same
//! error, so a caller cannot probe which identities are registered.

use vstd::prelude::*;

use crate::account::{has_identity, Account, AccountCredentials, AccountStore, Unique};
use crate::errors::AppError;
use crate::hashing::{digest_verifies, verify};
use crate::session::{spec_all_scopes, Scope, Session, SessionStore};

verus! {

/// Whether `email` with `password` authenticates against the relation:
/// some record carries the identity and its digest verifies the password.
pub open spec fn spec_auth_ok(s: Seq<Account>, email: Seq<char>, password: Seq<char>) -> bool {
    exists|i: int|
        0 <= i < s.len() && s[i].email@ == email && digest_verifies(
            password,
            #[trigger] s[i].password_hash@,
        )
}

/// Registers a new identity and mints its first session, returning the raw
/// bearer token. Invalid credentials and a taken identity are refused with
/// the stores untouched. Once the account record is committed, a failure to
/// mint the session leaves the account in place and reports
/// `SessionIssuanceFailed`: the caller retries through `signin`, not by
/// registering again.
pub fn signup(
    req: &AccountCredentials,
    accounts: &mut AccountStore,
    sessions: &mut SessionStore,
    now: u64,
    session_expire: u64,
) -> (r: Result<String, AppError>)
    requires
        old(accounts).wf(),
        old(sessions).wf(),
        now + session_expire <= u64::MAX,
    ensures
        final(accounts).wf(),
        final(sessions).wf(),
        !req.spec_valid() ==> ({
            &&& r matches Err(e) && e == AppError::ValidationError
            &&& final(accounts)@ == old(accounts)@
            &&& final(sessions)@ == old(sessions)@
        }),
        req.spec_valid() && has_identity(old(accounts)@, req.email@) ==> ({
            &&& r matches Err(e) && e == AppError::IdentityTaken
            &&& final(accounts)@ == old(accounts)@
            &&& final(sessions)@ == old(sessions)@
        }),
        req.spec_valid() && !has_identity(old(accounts)@, req.email@) ==> match r {
            Ok(token) => ({
                &&& final(accounts)@.len() == old(accounts)@.len() + 1
                &&& final(accounts)@.drop_last() == old(accounts)@
                &&& final(accounts)@.last().email@ == req.email@
                &&& digest_verifies(req.password@, final(accounts)@.last().password_hash@)
                &&& final(sessions)@.len() == old(sessions)@.len() + 1
                &&& final(sessions)@.drop_last() == old(sessions)@
                &&& digest_verifies(token@, final(sessions)@.last().key@)
                &&& final(sessions)@.last().session.user_id == final(accounts)@.last().id
                &&& final(sessions)@.last().session.scopes@ == spec_all_scopes()
                &&& final(sessions)@.last().expires_at == now + session_expire
                &&& token@.len() == 36
            }),
            Err(e) => ({
                ||| {
                    &&& e == AppError::HashingError
                    &&& final(accounts)@ == old(accounts)@
                    &&& final(sessions)@ == old(sessions)@
                }
                ||| {
                    &&& e == AppError::SessionIssuanceFailed
                    &&& final(accounts)@.len() == old(accounts)@.len() + 1
                    &&& final(accounts)@.drop_last() == old(accounts)@
                    &&& final(accounts)@.last().email@ == req.email@
                    &&& digest_verifies(req.password@, final(accounts)@.last().password_hash@)
                    &&& final(sessions)@ == old(sessions)@
                }
            }),
        },
{
    if let Err(e) = req.validate() {
        return Err(e);
    }
    let account = match Account::insert(req, accounts, now) {
        Ok(a) => a,
        Err(e) => {
            return Err(e);
        },
    };
    proof {
        assert(accounts@.drop_last() =~= old(accounts)@);
    }
    let session = Session { user_id: account.id, scopes: Scope::all() };
    match Session::insert(&session, session_expire, sessions, now) {
        Ok(token) => {
            proof {
                assert(sessions@.drop_last() =~= old(sessions)@);
            }
            Ok(token)
        },
        Err(_) => Err(AppError::SessionIssuanceFailed),
    }
}

/// Authenticates an identity and mints a fresh session, returning the raw
/// bearer token. No validation is applied here: an unknown identity, a
/// wrong secret and a malformed request all fail with exactly
/// `AuthenticationFailed`, the stores untouched, so a caller cannot probe
/// which identities are registered; a mint failure after a successful
/// check is `SessionIssuanceFailed`.
pub fn signin(
    req: &AccountCredentials,
    accounts: &AccountStore,
    sessions: &mut SessionStore,
    now: u64,
    session_expire: u64,
) -> (r: Result<String, AppError>)
    requires
        accounts.wf(),
        old(sessions).wf(),
        now + session_expire <= u64::MAX,
    ensures
        final(sessions).wf(),
        !spec_auth_ok(accounts@, req.email@, req.password@) ==> ({
            &&& r matches Err(e) && e == AppError::AuthenticationFailed
            &&& final(sessions)@ == old(sessions)@
        }),
        spec_auth_ok(accounts@, req.email@, req.password@) ==> match r {
            Ok(token) => ({
                &&& final(sessions)@.len() == old(sessions)@.len() + 1
                &&& final(sessions)@.drop_last() == old(sessions)@
                &&& digest_verifies(token@, final(sessions)@.last().key@)
                &&& exists|i: int|
                    0 <= i < accounts@.len() && accounts@[i].email@ == req.email@
                        && digest_verifies(req.password@, #[trigger] accounts@[i].password_hash@)
                        && final(sessions)@.last().session.user_id == accounts@[i].id
                &&& final(sessions)@.last().session.scopes@ == spec_all_scopes()
                &&& final(sessions)@.last().expires_at == now + session_expire
                &&& token@.len() == 36
            }),
            Err(e) => ({
                &&& e == AppError::SessionIssuanceFailed
                &&& final(sessions)@ == old(sessions)@
            }),
        },
{
    let account = match Account::get(Unique::Email(req.email.clone()), accounts) {
        Option::Some(a) => a,
        Option::None => {
            return Err(AppError::AuthenticationFailed);
        },
    };
    let ghost i0 = choose|i: int|
        0 <= i < accounts@.len() && account == accounts@[i] && Unique::Email(
            req.email,
        ).spec_matches(accounts@[i]);
    let ok = match verify(req.password.as_str(), account.password_hash.as_str()) {
        Ok(b) => b,
        Err(_) => false,  // unreachable: every stored digest is well formed
    };
    if !ok {
        proof {
            assert forall|j: int|
                0 <= j < accounts@.len() && accounts@[j].email@
                    == req.email@ implies !digest_verifies(
                req.password@,
                #[trigger] accounts@[j].password_hash@,
            ) by {
                if j != i0 {
                    assert(accounts@[j].email@ != accounts@[i0].email@);
                }
            };
        }
        return Err(AppError::AuthenticationFailed);
    }
    let session = Session { user_id: account.id, scopes: Scope::all() };
    match Session::insert(&session, session_expire, sessions, now) {
        Ok(token) => {
            proof {
                assert(sessions@.drop_last() =~= old(sessions)@);
                assert(accounts@[i0].email@ == req.email@ && digest_verifies(
                    req.password@,
                    accounts@[i0].password_hash@,
                ) && sessions@.last().session.user_id == accounts@[i0].id);
            }
            Ok(token)
        },
        Err(_) => Err(AppError::SessionIssuanceFailed),
    }
}

} // verus!
