//! Sessions: scopes, the session payload, and the keyed store with a
//! time-to-live on every entry.
//!
//! A minted bearer token is returned to the caller exactly once and never
//! stored: the store keys each payload by a salted one-way digest of the
//! token, and a lookup walks the keys and checks the presented token
//! against each digest, newest entry first. Every successful lookup slides
//! the entry's expiry forward; an entry whose expiry has passed is treated
//! exactly like one that never existed.

use vstd::prelude::*;

use crate::errors::AppError;
use crate::hashing::{digest_verifies, digest_well_formed, hash, verify};
use crate::ids::fresh_token;

verus! {

/// A capability level on a scope.
#[derive(Clone, Copy, Debug, PartialEq, Eq, Structural)]
pub enum Permission {
    NoAccess,
    Read,
    Write,
}

impl Default for Permission {
    fn default() -> (r: Self)
        ensures
            r == Permission::NoAccess,
    {
        Permission::NoAccess
    }
}

/// A capability tag granted to a session.
#[derive(Clone, Copy, Debug, PartialEq, Eq, Structural)]
pub enum Scope {
    Account(Permission),
}

/// The scopes granted to a freshly issued session.
pub open spec fn spec_all_scopes() -> Seq<Scope> {
    seq![Scope::Account(Permission::Write)]
}

impl Scope {
    /// Every scope a fresh session is granted.
    pub fn all() -> (r: Vec<Scope>)
        ensures
            r@ == spec_all_scopes(),
    {
        let mut v: Vec<Scope> = Vec::new();
        v.push(Scope::Account(Permission::Write));
        proof {
            assert(v@ =~= spec_all_scopes());
        }
        v
    }
}

/// The payload of a session: whom it belongs to and what it may do.
pub struct Session {
    pub user_id: u128,
    pub scopes: Vec<Scope>,
}

/// Whether two session values carry the same subject and scopes.
pub open spec fn session_matches(a: Session, b: Session) -> bool {
    a.user_id == b.user_id && a.scopes@ == b.scopes@
}

impl Session {
    /// A field-for-field copy.
    pub fn duplicate(&self) -> (r: Session)
        ensures
            r.user_id == self.user_id,
            r.scopes@ == self.scopes@,
    {
        let mut scopes: Vec<Scope> = Vec::new();
        let n = self.scopes.len();
        let mut i: usize = 0;
        while i < n
            invariant
                n == self.scopes@.len(),
                i <= n,
                i == scopes@.len(),
                forall|j: int| 0 <= j < i ==> scopes@[j] == self.scopes@[j],
            decreases n - i,
        {
            scopes.push(self.scopes[i]);
            i += 1;
        }
        proof {
            assert(scopes@ =~= self.scopes@);
        }
        Session { user_id: self.user_id, scopes }
    }
}

/// One stored session: the digest of its token, its payload, and the
/// moment its time-to-live runs out.
pub struct SessionEntry {
    pub key: String,
    pub session: Session,
    pub expires_at: u64,
}

/// Every stored key is a well-formed digest.
pub open spec fn keys_well_formed(s: Seq<SessionEntry>) -> bool {
    forall|i: int| 0 <= i < s.len() ==> digest_well_formed(#[trigger] s[i].key@)
}

/// The index of the entry a lookup of `token` at time `now` finds: the
/// newest entry whose key digest verifies against the token and whose
/// expiry has not passed.
pub open spec fn find_live(s: Seq<SessionEntry>, token: Seq<char>, now: u64) -> Option<int>
    decreases s.len(),
{
    if s.len() == 0 {
        Option::None
    } else if digest_verifies(token, s.last().key@) && now < s.last().expires_at {
        Option::Some(s.len() - 1)
    } else {
        find_live(s.drop_last(), token, now)
    }
}

/// The key-value store of live sessions.
pub struct SessionStore {
    pub entries: Vec<SessionEntry>,
}

impl View for SessionStore {
    type V = Seq<SessionEntry>;

    open spec fn view(&self) -> Seq<SessionEntry> {
        self.entries@
    }
}

impl SessionStore {
    /// The store's invariant: every key is a well-formed digest.
    pub open spec fn wf(&self) -> bool {
        keys_well_formed(self@)
    }

    pub fn new() -> (r: SessionStore)
        ensures
            r@ =~= Seq::<SessionEntry>::empty(),
            r.wf(),
    {
        SessionStore { entries: Vec::new() }
    }

    /// How many entries the store holds, expired ones included.
    pub fn count(&self) -> (n: usize)
        ensures
            n == self@.len(),
    {
        self.entries.len()
    }
}

impl Session {
    /// Mints a session: draws a fresh random token, stores the payload
    /// under the token's salted digest with its expiry set `expire` from
    /// `now` — one indivisible entry, never a payload without an expiry —
    /// and returns the raw token, which is never stored. Fails only on an
    /// internal failure of the hashing primitive, leaving the store
    /// unchanged.
    pub fn insert(command: &Session, expire: u64, store: &mut SessionStore, now: u64) -> (r: Result<
        String,
        AppError,
    >)
        requires
            old(store).wf(),
            now + expire <= u64::MAX,
        ensures
            final(store).wf(),
            r matches Ok(token) ==> ({
                &&& final(store)@.len() == old(store)@.len() + 1
                &&& final(store)@.drop_last() == old(store)@
                &&& digest_verifies(token@, final(store)@.last().key@)
                &&& session_matches(final(store)@.last().session, *command)
                &&& final(store)@.last().expires_at == now + expire
                &&& token@.len() == 36
            }),
            r matches Err(e) ==> final(store)@ == old(store)@ && e == AppError::HashingError,
    {
        let token = match fresh_token() {
            Ok(token) => token,
            Err(e) => {
                return Err(e);
            },
        };
        match hash(token.as_str()) {
            Ok(key) => {
                store.entries.push(
                    SessionEntry { key, session: command.duplicate(), expires_at: now + expire },
                );
                proof {
                    assert(store.entries@.drop_last() =~= old(store).entries@);
                }
                Ok(token)
            },
            Err(e) => Err(e),
        }
    }

    /// Looks a session up by its raw token and slides its expiry: the
    /// newest unexpired entry whose key digest verifies against the token
    /// is returned with its expiry reset to `expire` from `now`, fetched
    /// and refreshed as one step. When no entry verifies — the token never
    /// existed or its session has expired, two cases deliberately not told
    /// apart — the store is unchanged and the lookup fails with
    /// `SessionNotFound`.
    pub fn get(token: String, expire: u64, store: &mut SessionStore, now: u64) -> (r: Result<
        Session,
        AppError,
    >)
        requires
            old(store).wf(),
            now + expire <= u64::MAX,
        ensures
            final(store).wf(),
            match find_live(old(store)@, token@, now) {
                Option::Some(i) => ({
                    &&& r matches Ok(s) && session_matches(s, old(store)@[i].session)
                    &&& final(store)@.len() == old(store)@.len()
                    &&& forall|j: int|
                        0 <= j < old(store)@.len() && j != i ==> final(store)@[j] == old(store)@[j]
                    &&& final(store)@[i].key == old(store)@[i].key
                    &&& final(store)@[i].session == old(store)@[i].session
                    &&& final(store)@[i].expires_at == now + expire
                }),
                Option::None => r matches Err(e) && e == AppError::SessionNotFound && final(store)@
                    == old(store)@,
            },
    {
        let ghost s0 = store.entries@;
        let mut i: usize = store.entries.len();
        proof {
            assert(s0.take(s0.len() as int) =~= s0);
        }
        while i > 0
            invariant
                s0 == old(store)@,
                store.entries@ == s0,
                keys_well_formed(s0),
                now + expire <= u64::MAX,
                i <= s0.len(),
                find_live(s0, token@, now) == find_live(s0.take(i as int), token@, now),
            decreases i,
        {
            i = i - 1;
            let live = now < store.entries[i].expires_at;
            let matched = match verify(token.as_str(), store.entries[i].key.as_str()) {
                Ok(b) => b,
                Err(_) => false,  // unreachable: every stored key is well formed
            };
            proof {
                assert(s0.take(i + 1).last() == s0[i as int]);
                assert(s0.take(i + 1).drop_last() =~= s0.take(i as int));
            }
            if matched && live {
                proof {
                    assert(digest_verifies(token@, s0[i as int].key@));
                    assert(find_live(s0, token@, now) == Option::Some(i as int));
                }
                store.entries[i].expires_at = now + expire;
                proof {
                    assert(store.entries@[i as int].key == s0[i as int].key);
                    assert(store.entries@[i as int].session == s0[i as int].session);
                    assert(forall|j: int|
                        0 <= j < s0.len() && j != i ==> store.entries@[j] == s0[j]);
                }
                let found = store.entries[i].session.duplicate();
                return Ok(found);
            }
        }
        proof {
            assert(s0.take(0) =~= Seq::<SessionEntry>::empty());
        }
        Err(AppError::SessionNotFound)
    }
}

/// A fresh mint is found at once: pushing an unexpired entry whose key
/// verifies against `token` makes that entry the one a lookup of `token`
/// finds, whatever the store held before.
pub proof fn lemma_mint_then_lookup(
    s: Seq<SessionEntry>,
    e: SessionEntry,
    token: Seq<char>,
    now: u64,
)
    requires
        digest_verifies(token, e.key@),
        now < e.expires_at,
    ensures
        find_live(s.push(e), token, now) == Option::Some(s.len() as int),
{
    assert(s.push(e).last() == e);
}

/// A store whose every expiry has passed answers no lookup: an idle
/// session is gone once its time-to-live has elapsed, exactly as if its
/// token had never existed.
pub proof fn lemma_all_expired_not_found(s: Seq<SessionEntry>, token: Seq<char>, now: u64)
    requires
        forall|i: int| 0 <= i < s.len() ==> #[trigger] s[i].expires_at <= now,
    ensures
        find_live(s, token, now) is None,
    decreases s.len(),
{
    if s.len() > 0 {
        assert(s.last() == s[s.len() - 1]);
        assert(forall|i: int| 0 <= i < s.len() - 1 ==> s.drop_last()[i] == s[i]);
        lemma_all_expired_not_found(s.drop_last(), token, now);
    }
}

/// An entry whose time-to-live has run out is invisible: a lookup behaves
/// exactly as if the entry were absent.
pub proof fn lemma_expired_entry_skipped(
    s: Seq<SessionEntry>,
    e: SessionEntry,
    token: Seq<char>,
    now: u64,
)
    requires
        now >= e.expires_at,
    ensures
        find_live(s.push(e), token, now) == find_live(s, token, now),
{
    assert(s.push(e).drop_last() =~= s);
}

/// What a successful lookup found: a verifying, unexpired entry, with no
/// newer entry that also verifies and is unexpired.
pub proof fn lemma_find_live_found(s: Seq<SessionEntry>, token: Seq<char>, now: u64)
    requires
        find_live(s, token, now) is Some,
    ensures
        ({
            let i = find_live(s, token, now)->0;
            0 <= i < s.len() && digest_verifies(token, s[i].key@) && now < s[i].expires_at
                && forall|j: int|
                i < j < s.len() ==> !(digest_verifies(token, #[trigger] s[j].key@) && now
                    < s[j].expires_at)
        }),
    decreases s.len(),
{
    if !(digest_verifies(token, s.last().key@) && now < s.last().expires_at) {
        lemma_find_live_found(s.drop_last(), token, now);
        let i = find_live(s, token, now)->0;
        assert(forall|j: int| 0 <= j < s.len() - 1 ==> s.drop_last()[j] == s[j]);
        assert forall|j: int|
            i < j < s.len() implies !(digest_verifies(token, #[trigger] s[j].key@) && now
            < s[j].expires_at) by {
            if j < s.len() - 1 {
                assert(s.drop_last()[j] == s[j]);
            } else {
                assert(s[j] == s.last());
            }
        };
    }
}

/// The converse: a verifying, unexpired entry with no live match above it
/// is exactly what a lookup finds.
pub proof fn lemma_find_live_at(s: Seq<SessionEntry>, token: Seq<char>, now: u64, i: int)
    requires
        0 <= i < s.len(),
        digest_verifies(token, s[i].key@),
        now < s[i].expires_at,
        forall|j: int|
            i < j < s.len() ==> !(digest_verifies(token, #[trigger] s[j].key@) && now
                < s[j].expires_at),
    ensures
        find_live(s, token, now) == Option::Some(i),
    decreases s.len(),
{
    if i == s.len() - 1 {
        assert(s.last() == s[i]);
    } else {
        assert(s.last() == s[s.len() - 1]);
        assert(!(digest_verifies(token, s.last().key@) && now < s.last().expires_at));
        assert(forall|j: int| 0 <= j < s.len() - 1 ==> s.drop_last()[j] == s[j]);
        lemma_find_live_at(s.drop_last(), token, now, i);
    }
}

/// Sliding expiry: when the entry a lookup of `token` found at `now` has
/// its expiry reset to `now + expire` and nothing else changes, a lookup
/// of the same token at any `later` time before that new expiry still
/// finds the same entry — the session outlives its original time-to-live
/// for as long as it keeps being used.
pub proof fn lemma_refresh_extends(
    s: Seq<SessionEntry>,
    s2: Seq<SessionEntry>,
    i: int,
    token: Seq<char>,
    now: u64,
    expire: u64,
    later: u64,
)
    requires
        find_live(s, token, now) == Option::Some(i),
        s2.len() == s.len(),
        forall|j: int| 0 <= j < s.len() && j != i ==> s2[j] == s[j],
        s2[i].key == s[i].key,
        s2[i].expires_at == now + expire,
        now <= later,
        later < now + expire,
    ensures
        find_live(s2, token, later) == Option::Some(i),
{
    lemma_find_live_found(s, token, now);
    assert forall|j: int|
        i < j < s2.len() implies !(digest_verifies(token, #[trigger] s2[j].key@) && later
        < s2[j].expires_at) by {
        assert(s2[j] == s[j]);
    };
    lemma_find_live_at(s2, token, later, i);
}

} // verus!
