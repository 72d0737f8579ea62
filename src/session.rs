//! Server-side sessions: rows keyed by the keyed hash of an opaque token.

use vstd::prelude::*;
use crate::token::{compute_sid_hash, new_sid, sid_hash_spec};

verus! {

/// Seconds in one day.
pub const SECONDS_PER_DAY: i64 = 86400;

/// One authenticated browser or device. Times are Unix seconds.
pub struct SessionRow {
    pub sid_hash: String,
    pub user_id: u128,
    pub created_at: i64,
    pub last_seen_at: i64,
    pub expires_at: i64,
    pub revoked_at: Option<i64>,
}

/// Why a session could not be created.
#[derive(PartialEq, Eq, Structural, Debug, Clone, Copy)]
pub enum SessionError {
    /// `now` plus the time to live does not fit the time range.
    ExpiryOutOfRange,
    /// A session with the same token hash is already stored.
    DuplicateToken,
}

/// The sessions table.
pub struct SessionStore {
    pub rows: Vec<SessionRow>,
}

/// A session is live iff it was never revoked and expires after `now`.
pub open spec fn live_at(row: SessionRow, now: i64) -> bool {
    row.revoked_at.is_none() && row.expires_at > now
}

/// The expiry of a session created at `now` that lives `ttl_days` days.
pub open spec fn expiry_of(now: i64, ttl_days: i64) -> int {
    now + ttl_days * SECONDS_PER_DAY
}

/// Whether an expiry fits the time range.
pub open spec fn expiry_fits(now: i64, ttl_days: i64) -> bool {
    i64::MIN <= expiry_of(now, ttl_days) <= i64::MAX
}

/// The row with the given hash, with its last-seen time moved to `now`.
pub open spec fn touched(row: SessionRow, now: i64) -> SessionRow {
    SessionRow { last_seen_at: now, ..row }
}

/// The row, revoked at `now`.
pub open spec fn revoked(row: SessionRow, now: i64) -> SessionRow {
    SessionRow { revoked_at: Some(now), ..row }
}

impl SessionStore {
    /// No two rows share a token hash.
    pub open spec fn wf(&self) -> bool {
        forall|i: int, j: int|
            0 <= i < self.rows@.len() && 0 <= j < self.rows@.len() && i != j
                ==> self.rows@[i].sid_hash@ != self.rows@[j].sid_hash@
    }

    pub open spec fn has_hash(&self, h: Seq<char>) -> bool {
        exists|i: int| 0 <= i < self.rows@.len() && self.rows@[i].sid_hash@ == h
    }

    /// The owner of the live session stored under `h`, if there is one at `now`.
    pub open spec fn user_at(&self, h: Seq<char>, now: i64) -> Option<u128> {
        if exists|i: int|
            0 <= i < self.rows@.len() && self.rows@[i].sid_hash@ == h && live_at(self.rows@[i], now)
        {
            let i = choose|i: int|
                0 <= i < self.rows@.len() && self.rows@[i].sid_hash@ == h && live_at(
                    self.rows@[i],
                    now,
                );
            Some(self.rows@[i].user_id)
        } else {
            None
        }
    }

    /// The rows after a session under `h` for `user_id` was added at `now`.
    pub open spec fn with_session(
        rows: Seq<SessionRow>,
        h: Seq<char>,
        user_id: u128,
        now: i64,
        expires_at: i64,
    ) -> bool {
        &&& rows.len() >= 1
        &&& rows.last().sid_hash@ == h
        &&& rows.last().user_id == user_id
        &&& rows.last().created_at == now
        &&& rows.last().last_seen_at == now
        &&& rows.last().expires_at == expires_at
        &&& rows.last().revoked_at.is_none()
    }

    /// The rows after a successful lookup of `h` at `now`: the live row under
    /// `h`, if any, was seen at `now`; the others are as they were.
    pub open spec fn seen(old_rows: Seq<SessionRow>, new_rows: Seq<SessionRow>, h: Seq<char>, now: i64) -> bool {
        &&& new_rows.len() == old_rows.len()
        &&& forall|i: int|
            0 <= i < old_rows.len() ==> new_rows[i] == if old_rows[i].sid_hash@ == h && live_at(
                old_rows[i],
                now,
            ) {
                touched(old_rows[i], now)
            } else {
                old_rows[i]
            }
    }

    /// The rows after `h` was revoked at `now`: every row under `h` is revoked
    /// at `now`; the others are as they were.
    pub open spec fn revoked_rows(old_rows: Seq<SessionRow>, new_rows: Seq<SessionRow>, h: Seq<char>, now: i64) -> bool {
        &&& new_rows.len() == old_rows.len()
        &&& forall|i: int|
            0 <= i < old_rows.len() ==> new_rows[i] == if old_rows[i].sid_hash@ == h {
                revoked(old_rows[i], now)
            } else {
                old_rows[i]
            }
    }

    /// An empty table.
    pub fn new() -> (r: SessionStore)
        ensures
            r.rows@.len() == 0,
            r.wf(),
    {
        SessionStore { rows: Vec::new() }
    }

    /// The index of the row stored under `h`, if any.
    pub fn find(&self, h: &String) -> (r: Option<usize>)
        requires
            self.wf(),
        ensures
            match r {
                Some(i) => i < self.rows@.len() && self.rows@[i as int].sid_hash@ == h@,
                None => !self.has_hash(h@),
            },
    {
        let mut i: usize = 0;
        while i < self.rows.len()
            invariant
                i <= self.rows@.len(),
                forall|k: int| 0 <= k < i ==> self.rows@[k].sid_hash@ != h@,
            decreases self.rows@.len() - i,
        {
            if self.rows[i].sid_hash == *h {
                return Some(i);
            }
            i = i + 1;
        }
        None
    }

    /// Adds a session under `sid_hash`, refusing a hash that is already stored.
    pub fn insert_session(&mut self, sid_hash: String, user_id: u128, now: i64, expires_at: i64) -> (r:
        Result<(), SessionError>)
        requires
            old(self).wf(),
        ensures
            final(self).wf(),
            r is Ok <==> !old(self).has_hash(sid_hash@),
            r is Err ==> r == Err::<(), SessionError>(SessionError::DuplicateToken) && final(self).rows@
                == old(self).rows@,
            r is Ok ==> final(self).rows@.drop_last() == old(self).rows@ && Self::with_session(
                final(self).rows@,
                sid_hash@,
                user_id,
                now,
                expires_at,
            ),
    {
        if self.find(&sid_hash).is_some() {
            return Err(SessionError::DuplicateToken);
        }
        let row = SessionRow {
            sid_hash,
            user_id,
            created_at: now,
            last_seen_at: now,
            expires_at,
            revoked_at: None,
        };
        self.rows.push(row);
        assert(self.rows@.drop_last() =~= old(self).rows@);
        Ok(())
    }
}

/// Relies on chrono's `Utc::now` and `DateTime::timestamp`: the current time in
/// Unix seconds. The clock is outside the library: nothing is said of the value.
#[verifier::external_body]
fn now_unix_seconds() -> (r: i64) {
    chrono::Utc::now().timestamp()
}

/// Starts a session for `user_id` at `now` that lives `ttl_days` days, under
/// the token `sid`, and returns that token. Only the token's hash is stored.
/// Succeeds exactly when the expiry fits and no session is stored under the
/// same hash.
pub fn create_session_with_sid(
    store: &mut SessionStore,
    secret: &str,
    user_id: u128,
    ttl_days: i64,
    now: i64,
    sid: String,
) -> (r: Result<String, SessionError>)
    requires
        old(store).wf(),
    ensures
        final(store).wf(),
        r is Ok <==> expiry_fits(now, ttl_days) && !old(store).has_hash(sid_hash_spec(secret@, sid@)),
        !expiry_fits(now, ttl_days) <==> r == Err::<String, SessionError>(SessionError::ExpiryOutOfRange),
        r is Err ==> final(store).rows@ == old(store).rows@,
        r matches Ok(t) ==> {
            &&& t@ == sid@
            &&& final(store).rows@.drop_last() == old(store).rows@
            &&& SessionStore::with_session(
                final(store).rows@,
                sid_hash_spec(secret@, sid@),
                user_id,
                now,
                expiry_of(now, ttl_days) as i64,
            )
        },
{
    let wide: i128 = now as i128 + ttl_days as i128 * SECONDS_PER_DAY as i128;
    if wide < i64::MIN as i128 || wide > i64::MAX as i128 {
        return Err(SessionError::ExpiryOutOfRange);
    }
    let expires_at = wide as i64;
    let h = compute_sid_hash(secret, sid.as_str());
    match store.insert_session(h, user_id, now, expires_at) {
        Ok(()) => Ok(sid),
        Err(e) => Err(e),
    }
}

/// Starts a session for `user_id` at `now` that lives `ttl_days` days, and
/// returns its fresh token. Only the token's hash is stored. The token is
/// random, so it can clash with one already stored; on an empty table it
/// cannot, and success is owed whenever the expiry fits.
pub fn create_session_at(store: &mut SessionStore, secret: &str, user_id: u128, ttl_days: i64, now: i64) -> (r:
    Result<String, SessionError>)
    requires
        old(store).wf(),
    ensures
        final(store).wf(),
        !expiry_fits(now, ttl_days) <==> r == Err::<String, SessionError>(SessionError::ExpiryOutOfRange),
        r == Err::<String, SessionError>(SessionError::DuplicateToken) ==> old(store).rows@.len() > 0,
        r is Err ==> final(store).rows@ == old(store).rows@,
        r matches Ok(sid) ==> {
            &&& sid@.len() == 72
            &&& !old(store).has_hash(sid_hash_spec(secret@, sid@))
            &&& final(store).rows@.drop_last() == old(store).rows@
            &&& SessionStore::with_session(
                final(store).rows@,
                sid_hash_spec(secret@, sid@),
                user_id,
                now,
                expiry_of(now, ttl_days) as i64,
            )
        },
{
    let sid = new_sid();
    create_session_with_sid(store, secret, user_id, ttl_days, now, sid)
}

/// Starts a session for `user_id` that lives `ttl_days` days from the current
/// time. Exact for the time the clock gave.
pub fn create_session(store: &mut SessionStore, secret: &str, user_id: u128, ttl_days: i64) -> (r: Result<
    String,
    SessionError,
>)
    requires
        old(store).wf(),
    ensures
        final(store).wf(),
        r is Err ==> final(store).rows@ == old(store).rows@,
        r == Err::<String, SessionError>(SessionError::DuplicateToken) ==> old(store).rows@.len() > 0,
        exists|now: i64|
            {
                &&& !expiry_fits(now, ttl_days) <==> r == Err::<String, SessionError>(
                    SessionError::ExpiryOutOfRange,
                )
                &&& r matches Ok(sid) ==> {
                    &&& sid@.len() == 72
                    &&& !old(store).has_hash(sid_hash_spec(secret@, sid@))
                    &&& final(store).rows@.drop_last() == old(store).rows@
                    &&& SessionStore::with_session(
                        final(store).rows@,
                        sid_hash_spec(secret@, sid@),
                        user_id,
                        now,
                        expiry_of(now, ttl_days) as i64,
                    )
                }
            },
{
    let now = now_unix_seconds();
    create_session_at(store, secret, user_id, ttl_days, now)
}

/// The owner of the live session for token `sid` at `now`, if any; that
/// session is marked as seen at `now`. Unknown, revoked and expired tokens all
/// give `None`.
pub fn lookup_session_user_at(store: &mut SessionStore, secret: &str, sid: &str, now: i64) -> (r: Option<u128>)
    requires
        old(store).wf(),
    ensures
        final(store).wf(),
        r == old(store).user_at(sid_hash_spec(secret@, sid@), now),
        SessionStore::seen(old(store).rows@, final(store).rows@, sid_hash_spec(secret@, sid@), now),
{
    let h = compute_sid_hash(secret, sid);
    let found = store.find(&h);
    match found {
        None => {
            assert(SessionStore::seen(old(store).rows@, store.rows@, h@, now));
            None
        },
        Some(i) => {
            proof {
                assert forall|k: int|
                    0 <= k < store.rows@.len() && store.rows@[k].sid_hash@ == h@ implies k == i by {}
            }
            if store.rows[i].revoked_at.is_none() && store.rows[i].expires_at > now {
                let user = store.rows[i].user_id;
                store.rows[i].last_seen_at = now;
                proof {
                    assert(store.rows@[i as int] == touched(old(store).rows@[i as int], now));
                }
                Some(user)
            } else {
                Option::None
            }
        },
    }
}

/// The owner of the live session for token `sid` at the current time, if
/// any; that session is marked as seen. Exact for the time the clock gave.
pub fn lookup_session_user(store: &mut SessionStore, secret: &str, sid: &str) -> (r: Option<u128>)
    requires
        old(store).wf(),
    ensures
        final(store).wf(),
        exists|now: i64|
            r == old(store).user_at(sid_hash_spec(secret@, sid@), now) && SessionStore::seen(
                old(store).rows@,
                final(store).rows@,
                sid_hash_spec(secret@, sid@),
                now,
            ),
{
    let now = now_unix_seconds();
    lookup_session_user_at(store, secret, sid, now)
}

/// Marks every session stored for token `sid` as revoked at `now`. Revoking
/// twice, or a token that was never issued, is no error.
pub fn revoke_session_at(store: &mut SessionStore, secret: &str, sid: &str, now: i64)
    requires
        old(store).wf(),
    ensures
        final(store).wf(),
        SessionStore::revoked_rows(old(store).rows@, final(store).rows@, sid_hash_spec(secret@, sid@), now),
{
    let h = compute_sid_hash(secret, sid);
    let mut i: usize = 0;
    while i < store.rows.len()
        invariant
            i <= store.rows@.len(),
            store.rows@.len() == old(store).rows@.len(),
            h@ == sid_hash_spec(secret@, sid@),
            forall|k: int|
                0 <= k < store.rows@.len() ==> store.rows@[k] == if k < i && old(store).rows@[k].sid_hash@
                    == h@ {
                    revoked(old(store).rows@[k], now)
                } else {
                    old(store).rows@[k]
                },
        decreases store.rows@.len() - i,
    {
        if store.rows[i].sid_hash == h {
            store.rows[i].revoked_at = Some(now);
        }
        i = i + 1;
    }
    proof {
        assert forall|a: int, b: int|
            0 <= a < store.rows@.len() && 0 <= b < store.rows@.len() && a != b
                implies store.rows@[a].sid_hash@ != store.rows@[b].sid_hash@ by {
            assert(old(store).rows@[a].sid_hash@ != old(store).rows@[b].sid_hash@);
        }
    }
}

/// Marks every session stored for token `sid` as revoked at the current time.
pub fn revoke_session(store: &mut SessionStore, secret: &str, sid: &str)
    requires
        old(store).wf(),
    ensures
        final(store).wf(),
        exists|now: i64|
            SessionStore::revoked_rows(old(store).rows@, final(store).rows@, sid_hash_spec(secret@, sid@), now),
{
    let now = now_unix_seconds();
    revoke_session_at(store, secret, sid, now);
}

/// A session just created for `user_id` at `now`, with a time to live of at
/// least one day, is found for that same user by a lookup of its token at `now`.
pub proof fn lemma_created_session_validates(
    before: SessionStore,
    after: SessionStore,
    secret: Seq<char>,
    sid: Seq<char>,
    user_id: u128,
    ttl_days: i64,
    now: i64,
)
    requires
        before.wf(),
        ttl_days >= 1,
        expiry_fits(now, ttl_days),
        !before.has_hash(sid_hash_spec(secret, sid)),
        SessionStore::with_session(
            after.rows@,
            sid_hash_spec(secret, sid),
            user_id,
            now,
            expiry_of(now, ttl_days) as i64,
        ),
        after.rows@.drop_last() == before.rows@,
    ensures
        after.user_at(sid_hash_spec(secret, sid), now) == Some(user_id),
{
    let h = sid_hash_spec(secret, sid);
    let last = after.rows@.len() - 1;
    assert(ttl_days * SECONDS_PER_DAY > 0) by (nonlinear_arith)
        requires
            ttl_days >= 1,
            SECONDS_PER_DAY == 86400,
    ;
    assert(after.rows@[last].sid_hash@ == h && live_at(after.rows@[last], now));
    assert forall|k: int| 0 <= k < after.rows@.len() && after.rows@[k].sid_hash@ == h implies k == last by {
        if k != last {
            assert(after.rows@.drop_last()[k] == after.rows@[k]);
            assert(before.rows@[k].sid_hash@ == h);
        }
    }
}

/// Once a token is revoked, no lookup of it finds a session, whatever time
/// remained before its expiry and whenever the lookup comes.
pub proof fn lemma_revoked_session_never_validates(
    before: SessionStore,
    after: SessionStore,
    h: Seq<char>,
    revoked_at: i64,
    now: i64,
)
    requires
        SessionStore::revoked_rows(before.rows@, after.rows@, h, revoked_at),
    ensures
        after.user_at(h, now) is None,
{
    assert forall|i: int| 0 <= i < after.rows@.len() && after.rows@[i].sid_hash@ == h implies !live_at(
        after.rows@[i],
        now,
    ) by {
        if before.rows@[i].sid_hash@ != h {
            assert(after.rows@[i] == before.rows@[i]);
        }
    }
}

/// A session whose expiry is not after `now` is not found by a lookup at
/// `now`, though it was never revoked.
pub proof fn lemma_expired_session_never_validates(store: SessionStore, h: Seq<char>, now: i64)
    requires
        store.wf(),
        exists|i: int| 0 <= i < store.rows@.len() && store.rows@[i].sid_hash@ == h && store.rows@[i].expires_at <= now,
    ensures
        store.user_at(h, now) is None,
{
    let i = choose|i: int|
        0 <= i < store.rows@.len() && store.rows@[i].sid_hash@ == h && store.rows@[i].expires_at <= now;
    assert forall|j: int| 0 <= j < store.rows@.len() && store.rows@[j].sid_hash@ == h implies !live_at(
        store.rows@[j],
        now,
    ) by {
        if j != i {
            assert(store.rows@[i].sid_hash@ != store.rows@[j].sid_hash@);
        }
    }
}

} // verus!
