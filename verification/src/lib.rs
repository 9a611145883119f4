//! Account and session core: credential hashing, account records with a
//! unique-identity invariant, session minting and lookup with sliding
//! expiry, and the two flows (signup, signin) that compose them.

pub mod account;
pub mod auth;
pub mod errors;
pub mod hashing;
pub mod ids;
pub mod session;
pub mod text;
