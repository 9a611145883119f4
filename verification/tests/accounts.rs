use ioun::account::{Account, AccountCredentials, AccountStore, Unique};
use ioun::errors::AppError;

fn credentials(email: &str, password: &str) -> AccountCredentials {
    AccountCredentials { email: email.to_string(), password: password.to_string() }
}

#[test]
fn validate_accepts_well_formed_credentials() {
    assert!(credentials("a@x.com", "longenough1").validate().is_ok());
}

#[test]
fn validate_rejects_bad_email() {
    assert_eq!(credentials("not-an-email", "longenough1").validate(), Err(AppError::ValidationError));
    assert_eq!(credentials("", "longenough1").validate(), Err(AppError::ValidationError));
    assert_eq!(credentials("a@", "longenough1").validate(), Err(AppError::ValidationError));
}

#[test]
fn validate_rejects_short_and_long_passwords() {
    assert_eq!(credentials("a@x.com", "seven77").validate(), Err(AppError::ValidationError));
    assert!(credentials("a@x.com", "eight888").validate().is_ok());
    assert!(credentials("a@x.com", "e".repeat(32).as_str()).validate().is_ok());
    assert_eq!(
        credentials("a@x.com", "e".repeat(33).as_str()).validate(),
        Err(AppError::ValidationError)
    );
}

#[test]
fn insert_then_get_by_email_and_id() {
    let mut store = AccountStore::new();
    let account = Account::insert(&credentials("a@x.com", "longenough1"), &mut store, 7).unwrap();
    assert_eq!(account.email, "a@x.com");
    assert_eq!(account.created_at, 7);
    assert_eq!(account.updated_at, 7);
    assert!(account.username.is_none());

    let by_email = Account::get(Unique::Email("a@x.com".to_string()), &store).unwrap();
    assert_eq!(by_email.id, account.id);
    let by_id = Account::get(Unique::Id(account.id), &store).unwrap();
    assert_eq!(by_id.email, "a@x.com");
}

#[test]
fn get_unknown_identity_is_none() {
    let mut store = AccountStore::new();
    Account::insert(&credentials("a@x.com", "longenough1"), &mut store, 0).unwrap();
    assert!(Account::get(Unique::Email("b@x.com".to_string()), &store).is_none());
    assert!(Account::get(Unique::Id(12345), &store).is_none());
}

#[test]
fn duplicate_identity_is_refused_and_one_row_remains() {
    let mut store = AccountStore::new();
    let first = Account::insert(&credentials("a@x.com", "longenough1"), &mut store, 0);
    let second = Account::insert(&credentials("a@x.com", "otherpass2"), &mut store, 1);
    assert!(first.is_ok());
    assert_eq!(second.err(), Some(AppError::IdentityTaken));
    assert_eq!(store.count(), 1);
}

#[test]
fn stored_digest_is_not_the_password() {
    let mut store = AccountStore::new();
    let account = Account::insert(&credentials("a@x.com", "longenough1"), &mut store, 0).unwrap();
    assert!(!account.password_hash.contains("longenough1"));
    assert_ne!(account.password_hash, "longenough1");
}

#[test]
fn unique_key_names_the_column() {
    assert_eq!(Unique::Id(1).key(), "id");
    assert_eq!(Unique::Email("a@x.com".to_string()).key(), "email");
}

#[test]
fn unique_value_renders_the_key() {
    assert_eq!(Unique::Email("a@x.com".to_string()).value(), "a@x.com");
    let rendered = Unique::Id(0x0123456789abcdef0123456789abcdefu128).value();
    assert_eq!(rendered, "01234567-89ab-cdef-0123-456789abcdef");
}

#[test]
fn debug_rendering_redacts_the_digest() {
    let account = Account {
        id: 0x0123456789abcdef0123456789abcdefu128,
        email: "a@x.com".to_string(),
        password_hash: "supersecretdigest".to_string(),
        username: None,
        created_at: 5,
        updated_at: 6,
    };
    let rendered = account.debug_string();
    assert_eq!(
        rendered,
        "Account { id: 01234567-89ab-cdef-0123-456789abcdef, email: \"a@x.com\", \
         password_hash: \"*****\", username: None, created_at: 5, updated_at: 6 }"
    );
    assert!(!rendered.contains("supersecretdigest"));
}

#[test]
fn debug_rendering_shows_a_username() {
    let account = Account {
        id: 1,
        email: "a@x.com".to_string(),
        password_hash: "d".to_string(),
        username: Some("ada".to_string()),
        created_at: 0,
        updated_at: 0,
    };
    assert!(account.debug_string().contains("username: Some(\"ada\")"));
}

#[test]
fn public_record_omits_the_digest() {
    let account = Account {
        id: 0x0123456789abcdef0123456789abcdefu128,
        email: "a@x.com".to_string(),
        password_hash: "supersecretdigest".to_string(),
        username: None,
        created_at: 5,
        updated_at: 6,
    };
    let rendered = account.public_record();
    assert_eq!(
        rendered,
        "{\"id\":\"01234567-89ab-cdef-0123-456789abcdef\",\"email\":\"a@x.com\",\
         \"username\":null,\"created_at\":5,\"updated_at\":6}"
    );
    assert!(!rendered.contains("supersecretdigest"));
    assert!(!rendered.contains("password_hash"));
}

#[test]
fn credentials_debug_redacts_the_password() {
    let rendered = credentials("a@x.com", "longenough1").debug_string();
    assert_eq!(rendered, "AccountCredentials { email: \"a@x.com\", password: \"*****\" }");
    assert!(!rendered.contains("longenough1"));
}
