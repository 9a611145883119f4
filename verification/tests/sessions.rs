use ioun::errors::AppError;
use ioun::session::{Permission, Scope, Session, SessionStore};

fn session_for(user_id: u128) -> Session {
    Session { user_id, scopes: Scope::all() }
}

#[test]
fn all_scopes_is_account_write() {
    assert_eq!(Scope::all(), vec![Scope::Account(Permission::Write)]);
}

#[test]
fn default_permission_is_no_access() {
    assert_eq!(Permission::default(), Permission::NoAccess);
}

#[test]
fn mint_returns_an_opaque_token() {
    let mut store = SessionStore::new();
    let token = Session::insert(&session_for(9), 100, &mut store, 0).unwrap();
    assert_eq!(token.len(), 36);
    assert_eq!(store.count(), 1);
    // The raw token is never stored: the key is its one-way digest.
    assert_ne!(store.entries[0].key, token);
    assert!(!store.entries[0].key.contains(token.as_str()));
}

#[test]
fn mint_then_lookup_returns_the_session() {
    let mut store = SessionStore::new();
    let token = Session::insert(&session_for(9), 100, &mut store, 0).unwrap();
    let found = Session::get(token, 100, &mut store, 5).unwrap();
    assert_eq!(found.user_id, 9);
    assert_eq!(found.scopes, Scope::all());
}

#[test]
fn lookup_after_expiry_is_not_found() {
    let mut store = SessionStore::new();
    let token = Session::insert(&session_for(9), 10, &mut store, 0).unwrap();
    assert_eq!(Session::get(token, 10, &mut store, 10).err(), Some(AppError::SessionNotFound));
}

#[test]
fn unknown_token_is_not_found() {
    let mut store = SessionStore::new();
    let _ = Session::insert(&session_for(9), 100, &mut store, 0).unwrap();
    let bogus = "00000000-0000-0000-0000-000000000000".to_string();
    assert_eq!(Session::get(bogus, 100, &mut store, 0).err(), Some(AppError::SessionNotFound));
}

#[test]
fn refresh_slides_the_expiry() {
    let mut store = SessionStore::new();
    let token = Session::insert(&session_for(9), 10, &mut store, 0).unwrap();
    // Used at 8, the session lives to 18: well past its first expiry at 10.
    assert!(Session::get(token.clone(), 10, &mut store, 8).is_ok());
    assert!(Session::get(token.clone(), 10, &mut store, 15).is_ok());
    // Idle from 15 on, it is gone at 25.
    assert_eq!(Session::get(token, 10, &mut store, 25).err(), Some(AppError::SessionNotFound));
}

#[test]
fn each_token_finds_its_own_session() {
    let mut store = SessionStore::new();
    let token_a = Session::insert(&session_for(1), 100, &mut store, 0).unwrap();
    let token_b = Session::insert(&session_for(2), 100, &mut store, 0).unwrap();
    assert_ne!(token_a, token_b);
    assert_eq!(Session::get(token_a, 100, &mut store, 1).unwrap().user_id, 1);
    assert_eq!(Session::get(token_b, 100, &mut store, 1).unwrap().user_id, 2);
}
