//! Accounts: request credentials with their validation rule, the durable
//! account record, and the relation of records with its unique-identity
//! invariant.
//!
//! The secret digest of a record never appears in either of the two textual
//! renderings: `debug_string` redacts it to a fixed placeholder and
//! `public_record` omits it entirely. Both renderings are specified as
//! functions of the non-secret fields alone.

use vstd::prelude::*;
use vstd::string::StrSliceExecFns;

use crate::errors::AppError;
use crate::hashing::{digest_verifies, digest_well_formed};
use crate::ids::{fresh_id, uuid_string, uuid_text};
use crate::text::{spec_dec, u64_to_dec};

verus! {

/// Whether `s` is a valid e-mail address under the HTML5 rule. Names the
/// result of `validator::ValidateEmail::validate_email`, a function of the
/// string alone.
pub uninterp spec fn is_valid_email(s: Seq<char>) -> bool;

/// Relies on `validator::ValidateEmail::validate_email` for `&str`: the
/// HTML5 e-mail check, decided by the string alone.
#[verifier::external_body]
fn check_email(s: &str) -> (r: bool)
    ensures
        r == is_valid_email(s@),
{
    validator::ValidateEmail::validate_email(&s)
}

/// The credentials of a request: transient, never persisted in plaintext.
pub struct AccountCredentials {
    pub email: String,
    pub password: String,
}

/// The debug rendering of credentials: the password is redacted to a fixed
/// placeholder, so the rendering is a function of the e-mail alone.
pub open spec fn spec_credentials_debug(email: Seq<char>) -> Seq<char> {
    "AccountCredentials { email: \""@ + email + "\", password: \"*****\" }"@
}

impl AccountCredentials {
    /// Well-formed input: a valid e-mail address and a password of 8 to 32
    /// characters. A length or format policy, not a strength judgement.
    pub open spec fn spec_valid(&self) -> bool {
        is_valid_email(self.email@) && 8 <= self.password@.len() <= 32
    }

    /// Accepts exactly the well-formed credentials.
    pub fn validate(&self) -> (r: Result<(), AppError>)
        ensures
            r is Ok <==> self.spec_valid(),
            r matches Err(e) ==> e == AppError::ValidationError,
    {
        if !check_email(self.email.as_str()) {
            return Err(AppError::ValidationError);
        }
        let len = self.password.as_str().unicode_len();
        if len < 8 || len > 32 {
            return Err(AppError::ValidationError);
        }
        Ok(())
    }

    /// The log-safe rendering: never contains the password.
    pub fn debug_string(&self) -> (r: String)
        ensures
            r@ == spec_credentials_debug(self.email@),
    {
        let mut s = "AccountCredentials { email: \"".to_owned();
        s.append(self.email.as_str());
        s.append("\", password: \"*****\" }");
        s
    }
}

/// A key by which a single account may be addressed.
pub enum Unique {
    Id(u128),
    Email(String),
}

impl Unique {
    /// The column this key selects on.
    pub open spec fn spec_key(&self) -> Seq<char> {
        match self {
            Unique::Id(_) => "id"@,
            Unique::Email(_) => "email"@,
        }
    }

    /// The key's value in textual form.
    pub open spec fn spec_value(&self) -> Seq<char> {
        match self {
            Unique::Id(id) => uuid_text(*id),
            Unique::Email(email) => email@,
        }
    }

    /// Whether this key selects the record `a`.
    pub open spec fn spec_matches(&self, a: Account) -> bool {
        match self {
            Unique::Id(id) => a.id == *id,
            Unique::Email(email) => a.email@ == email@,
        }
    }

    pub fn key(&self) -> (r: String)
        ensures
            r@ == self.spec_key(),
    {
        match self {
            Unique::Id(_) => "id".to_owned(),
            Unique::Email(_) => "email".to_owned(),
        }
    }

    pub fn value(&self) -> (r: String)
        ensures
            r@ == self.spec_value(),
    {
        match self {
            Unique::Id(id) => uuid_string(*id),
            Unique::Email(email) => email.clone(),
        }
    }
}

/// One durable account record. The `password_hash` field holds the salted
/// digest of the secret, never the secret itself.
pub struct Account {
    pub id: u128,
    pub email: String,
    pub password_hash: String,
    pub username: Option<String>,
    pub created_at: u64,
    pub updated_at: u64,
}

/// The debug rendering of an optional username.
pub open spec fn spec_opt_debug(u: Option<String>) -> Seq<char> {
    match u {
        Option::Some(name) => "Some(\""@ + name@ + "\")"@,
        Option::None => "None"@,
    }
}

/// The serialized rendering of an optional username.
pub open spec fn spec_opt_json(u: Option<String>) -> Seq<char> {
    match u {
        Option::Some(name) => "\""@ + name@ + "\""@,
        Option::None => "null"@,
    }
}

impl Account {
    /// The log rendering: every field but the digest, which is redacted to
    /// a fixed placeholder. A function of the non-secret fields alone.
    pub open spec fn spec_debug(self) -> Seq<char> {
        "Account { id: "@ + uuid_text(self.id) + ", email: \""@ + self.email@
            + "\", password_hash: \"*****\", username: "@ + spec_opt_debug(self.username)
            + ", created_at: "@ + spec_dec(self.created_at as nat) + ", updated_at: "@
            + spec_dec(self.updated_at as nat) + " }"@
    }

    /// The externally observable rendering: the digest is omitted entirely.
    /// A function of the non-secret fields alone.
    pub open spec fn spec_public(self) -> Seq<char> {
        "{\"id\":\""@ + uuid_text(self.id) + "\",\"email\":\""@ + self.email@
            + "\",\"username\":"@ + spec_opt_json(self.username) + ",\"created_at\":"@
            + spec_dec(self.created_at as nat) + ",\"updated_at\":"@ + spec_dec(
            self.updated_at as nat,
        ) + "}"@
    }

    /// A field-for-field copy.
    pub fn duplicate(&self) -> (r: Account)
        ensures
            r == *self,
    {
        Account {
            id: self.id,
            email: self.email.clone(),
            password_hash: self.password_hash.clone(),
            username: match &self.username {
                Option::Some(name) => Option::Some(name.clone()),
                Option::None => Option::None,
            },
            created_at: self.created_at,
            updated_at: self.updated_at,
        }
    }

    /// Renders the record for a log line, with the digest redacted.
    pub fn debug_string(&self) -> (r: String)
        ensures
            r@ == self.spec_debug(),
    {
        let mut s = "Account { id: ".to_owned();
        s.append(uuid_string(self.id).as_str());
        s.append(", email: \"");
        s.append(self.email.as_str());
        s.append("\", password_hash: \"*****\", username: ");
        match &self.username {
            Option::Some(name) => {
                s.append("Some(\"");
                s.append(name.as_str());
                s.append("\")");
            },
            Option::None => {
                s.append("None");
            },
        }
        s.append(", created_at: ");
        s.append(u64_to_dec(self.created_at).as_str());
        s.append(", updated_at: ");
        s.append(u64_to_dec(self.updated_at).as_str());
        s.append(" }");
        s
    }

    /// Renders the record for the API boundary, with the digest omitted.
    pub fn public_record(&self) -> (r: String)
        ensures
            r@ == self.spec_public(),
    {
        let mut s = "{\"id\":\"".to_owned();
        s.append(uuid_string(self.id).as_str());
        s.append("\",\"email\":\"");
        s.append(self.email.as_str());
        s.append("\",\"username\":");
        match &self.username {
            Option::Some(name) => {
                s.append("\"");
                s.append(name.as_str());
                s.append("\"");
            },
            Option::None => {
                s.append("null");
            },
        }
        s.append(",\"created_at\":");
        s.append(u64_to_dec(self.created_at).as_str());
        s.append(",\"updated_at\":");
        s.append(u64_to_dec(self.updated_at).as_str());
        s.append("}");
        s
    }
}

/// Whether some record in `s` carries the identity `email`.
pub open spec fn has_identity(s: Seq<Account>, email: Seq<char>) -> bool {
    exists|i: int| 0 <= i < s.len() && s[i].email@ == email
}

/// How many records in `s` carry the identity `email`.
pub open spec fn count_identity(s: Seq<Account>, email: Seq<char>) -> nat
    decreases s.len(),
{
    if s.len() == 0 {
        0
    } else {
        count_identity(s.drop_last(), email) + if s.last().email@ == email {
            1nat
        } else {
            0nat
        }
    }
}

/// No two records carry the same identity.
pub open spec fn identities_unique(s: Seq<Account>) -> bool {
    forall|i: int, j: int| 0 <= i < j < s.len() ==> s[i].email@ != s[j].email@
}

/// Every stored digest is well formed.
pub open spec fn digests_well_formed(s: Seq<Account>) -> bool {
    forall|i: int| 0 <= i < s.len() ==> digest_well_formed(#[trigger] s[i].password_hash@)
}

/// The account relation: one record per registered identity.
pub struct AccountStore {
    pub accounts: Vec<Account>,
}

impl View for AccountStore {
    type V = Seq<Account>;

    open spec fn view(&self) -> Seq<Account> {
        self.accounts@
    }
}

impl AccountStore {
    /// The relation's invariant: identities are unique and every stored
    /// digest is well formed.
    pub open spec fn wf(&self) -> bool {
        identities_unique(self@) && digests_well_formed(self@)
    }

    pub fn new() -> (r: AccountStore)
        ensures
            r@ =~= Seq::<Account>::empty(),
            r.wf(),
    {
        AccountStore { accounts: Vec::new() }
    }

    /// How many records the relation holds.
    pub fn count(&self) -> (n: usize)
        ensures
            n == self@.len(),
    {
        self.accounts.len()
    }
}

impl Account {
    /// Registers a new identity: hashes the secret and appends one record.
    /// An identity already present is refused with `IdentityTaken` and the
    /// relation is left unchanged; a hashing failure likewise changes
    /// nothing. On success the new record carries a digest that verifies
    /// against the given password.
    pub fn insert(command: &AccountCredentials, store: &mut AccountStore, now: u64) -> (r: Result<
        Account,
        AppError,
    >)
        requires
            old(store).wf(),
        ensures
            final(store).wf(),
            has_identity(old(store)@, command.email@) ==> (r matches Err(e) && e
                == AppError::IdentityTaken),
            r matches Ok(a) ==> !has_identity(old(store)@, command.email@) && a.email@
                == command.email@ && digest_well_formed(a.password_hash@) && digest_verifies(
                command.password@,
                a.password_hash@,
            ) && a.username is None && a.created_at == now && a.updated_at == now && final(store)@
                =~= old(store)@.push(a),
            r matches Err(e) ==> final(store)@ == old(store)@ && ((e == AppError::IdentityTaken
                && has_identity(old(store)@, command.email@)) || (e == AppError::HashingError
                && !has_identity(old(store)@, command.email@))),
    {
        let n = store.accounts.len();
        let mut i: usize = 0;
        while i < n
            invariant
                store.accounts@ == old(store).accounts@,
                old(store).wf(),
                n == store@.len(),
                forall|j: int| 0 <= j < i ==> store@[j].email@ != command.email@,
            decreases n - i,
        {
            if store.accounts[i].email == command.email {
                return Err(AppError::IdentityTaken);
            }
            i += 1;
        }
        let id = match fresh_id() {
            Ok(id) => id,
            Err(e) => {
                return Err(e);
            },
        };
        match crate::hashing::hash(command.password.as_str()) {
            Ok(digest) => {
                let account = Account {
                    id,
                    email: command.email.clone(),
                    password_hash: digest,
                    username: Option::None,
                    created_at: now,
                    updated_at: now,
                };
                let record = account.duplicate();
                store.accounts.push(account);
                Ok(record)
            },
            Err(e) => Err(e),
        }
    }

    /// Looks an account up by a unique key, returning a copy of the first
    /// record the key selects, if any.
    pub fn get(unique: Unique, store: &AccountStore) -> (r: Option<Account>)
        ensures
            match r {
                Option::Some(a) => exists|i: int|
                    0 <= i < store@.len() && a == store@[i] && unique.spec_matches(store@[i]) && (
                    forall|j: int| 0 <= j < i ==> !unique.spec_matches(store@[j])),
                Option::None => forall|i: int|
                    0 <= i < store@.len() ==> !unique.spec_matches(store@[i]),
            },
    {
        let n = store.accounts.len();
        let mut i: usize = 0;
        while i < n
            invariant
                n == store@.len(),
                forall|j: int| 0 <= j < i ==> !unique.spec_matches(store@[j]),
            decreases n - i,
        {
            let found = match &unique {
                Unique::Id(id) => store.accounts[i].id == *id,
                Unique::Email(email) => store.accounts[i].email == *email,
            };
            if found {
                return Option::Some(store.accounts[i].duplicate());
            }
            i += 1;
        }
        Option::None
    }
}

/// Appending one record changes the count for an identity by one exactly
/// when the record carries it.
pub proof fn lemma_count_push(s: Seq<Account>, a: Account, email: Seq<char>)
    ensures
        count_identity(s.push(a), email) == count_identity(s, email) + if a.email@ == email {
            1nat
        } else {
            0nat
        },
{
    assert(s.push(a).drop_last() =~= s);
    assert(s.push(a).last() == a);
}

/// A relation without an identity holds no record for it.
pub proof fn lemma_absent_identity_count_zero(s: Seq<Account>, email: Seq<char>)
    requires
        !has_identity(s, email),
    ensures
        count_identity(s, email) == 0,
    decreases s.len(),
{
    if s.len() > 0 {
        assert(forall|i: int|
            0 <= i < s.drop_last().len() ==> s.drop_last()[i] == s[i]);
        assert(!has_identity(s.drop_last(), email));
        lemma_absent_identity_count_zero(s.drop_last(), email);
        assert(s.last() == s[s.len() - 1]);
    }
}

/// Exactly one registration wins: once a record for `email` is appended to
/// a relation that held none, the relation holds exactly one record for
/// `email` — and, by `Account::insert`'s contract, any later insert of the
/// same identity is refused with `IdentityTaken`.
pub proof fn lemma_single_registration(s: Seq<Account>, a: Account, email: Seq<char>)
    requires
        !has_identity(s, email),
        a.email@ == email,
    ensures
        has_identity(s.push(a), email),
        count_identity(s.push(a), email) == 1,
{
    assert(s.push(a)[s.len() as int] == a);
    lemma_absent_identity_count_zero(s, email);
    lemma_count_push(s, a, email);
}

} // verus!
