use ioun::account::{AccountCredentials, AccountStore, Unique, Account};
use ioun::auth::{signin, signup};
use ioun::errors::AppError;
use ioun::session::SessionStore;

const TTL: u64 = 3600;

fn credentials(email: &str, password: &str) -> AccountCredentials {
    AccountCredentials { email: email.to_string(), password: password.to_string() }
}

#[test]
fn end_to_end_register_then_authenticate() {
    let mut accounts = AccountStore::new();
    let mut sessions = SessionStore::new();

    let first = signup(&credentials("a@x.com", "longenough1"), &mut accounts, &mut sessions, 0, TTL)
        .unwrap();
    assert!(first.len() > 0);

    let second = signin(&credentials("a@x.com", "longenough1"), &accounts, &mut sessions, 1, TTL)
        .unwrap();
    assert!(second.len() > 0);
    assert_ne!(first, second);

    let wrong = signin(&credentials("a@x.com", "wrong"), &accounts, &mut sessions, 2, TTL);
    let err = wrong.err().unwrap();
    assert_eq!(err, AppError::AuthenticationFailed);
    assert_eq!(err.status_code(), 401);
}

#[test]
fn duplicate_registration_exactly_one_wins() {
    let mut accounts = AccountStore::new();
    let mut sessions = SessionStore::new();

    let first = signup(&credentials("a@x.com", "longenough1"), &mut accounts, &mut sessions, 0, TTL);
    let second = signup(&credentials("a@x.com", "otherpass2"), &mut accounts, &mut sessions, 0, TTL);
    assert!(first.is_ok());
    let err = second.err().unwrap();
    assert_eq!(err, AppError::IdentityTaken);
    assert_eq!(err.status_code(), 409);
    assert_eq!(accounts.count(), 1);
}

#[test]
fn unknown_identity_and_wrong_secret_are_indistinguishable() {
    let mut accounts = AccountStore::new();
    let mut sessions = SessionStore::new();
    signup(&credentials("a@x.com", "longenough1"), &mut accounts, &mut sessions, 0, TTL).unwrap();

    let unknown = signin(&credentials("b@x.com", "longenough1"), &accounts, &mut sessions, 1, TTL)
        .err()
        .unwrap();
    let mismatch = signin(&credentials("a@x.com", "wrongwrong"), &accounts, &mut sessions, 1, TTL)
        .err()
        .unwrap();
    assert_eq!(unknown, mismatch);
    assert_eq!(unknown.status_code(), mismatch.status_code());
    assert_eq!(unknown.message(), mismatch.message());
}

#[test]
fn signin_applies_no_validation_of_its_own() {
    let mut accounts = AccountStore::new();
    let mut sessions = SessionStore::new();
    signup(&credentials("a@x.com", "longenough1"), &mut accounts, &mut sessions, 0, TTL).unwrap();

    // Requests signup would refuse as malformed still fail here exactly as
    // any other failed authentication does: nothing leaks about why.
    let malformed = signin(&credentials("not-an-email", "x"), &accounts, &mut sessions, 1, TTL)
        .err()
        .unwrap();
    let short = signin(&credentials("a@x.com", "wrong"), &accounts, &mut sessions, 1, TTL)
        .err()
        .unwrap();
    assert_eq!(malformed, AppError::AuthenticationFailed);
    assert_eq!(short, AppError::AuthenticationFailed);
    assert_eq!(malformed.status_code(), 401);
    assert_eq!(sessions.count(), 1);
}

#[test]
fn signup_validates_before_touching_the_stores() {
    let mut accounts = AccountStore::new();
    let mut sessions = SessionStore::new();

    let bad_email = signup(&credentials("nope", "longenough1"), &mut accounts, &mut sessions, 0, TTL);
    assert_eq!(bad_email.err(), Some(AppError::ValidationError));
    let bad_password = signup(&credentials("a@x.com", "short"), &mut accounts, &mut sessions, 0, TTL);
    assert_eq!(bad_password.err(), Some(AppError::ValidationError));
    assert_eq!(accounts.count(), 0);
    assert_eq!(sessions.count(), 0);
}

#[test]
fn signup_account_never_holds_the_raw_password() {
    let mut accounts = AccountStore::new();
    let mut sessions = SessionStore::new();
    signup(&credentials("a@x.com", "longenough1"), &mut accounts, &mut sessions, 0, TTL).unwrap();

    let account = Account::get(Unique::Email("a@x.com".to_string()), &accounts).unwrap();
    assert!(!account.password_hash.contains("longenough1"));
    assert!(!account.debug_string().contains(account.password_hash.as_str()));
    assert!(!account.public_record().contains(account.password_hash.as_str()));
}
