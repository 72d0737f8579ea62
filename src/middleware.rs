//! The per-request authentication flow: login, resolving a session cookie
//! to an authorization context, and logout.

use vstd::prelude::*;
use crate::context::{AuthContext, distinct_keys};
use crate::guards::{admin_permission, admin_status};
use crate::session::live_at;
use crate::rbac::{RbacStore, load_auth_context};
use crate::session::{SessionError, SessionStore, create_session_at, lookup_session_user_at, revoke_session_at, expiry_fits, expiry_of};
use crate::token::{sid_hash_spec, uuid_text, uuid_text_of};
use crate::context::key_set;

verus! {

/// Days a session lives after login.
pub const SESSION_TTL_DAYS: i64 = 7;

/// A failure of the relational store, never an authorization decision.
#[derive(PartialEq, Eq, Structural, Debug, Clone, Copy)]
pub enum StoreError {
    /// No connection could be had.
    Unavailable,
    /// A query failed.
    Query,
}

/// The body of a login answer.
pub struct LoginResp {
    pub ok: bool,
    pub roles: Vec<String>,
    pub reason: String,
}

/// A login answer: status, body and, on success, the session token to set as
/// the `sid` cookie.
pub struct LoginOutcome {
    pub status: u16,
    pub body: LoginResp,
    pub sid: Option<String>,
}

/// The body of a logout answer.
pub struct LogoutResp {
    pub ok: bool,
}

pub open spec fn reason_ok() -> Seq<char> {
    seq!['o', 'k']
}

pub open spec fn reason_user_not_found() -> Seq<char> {
    seq!['u', 's', 'e', 'r', '_', 'n', 'o', 't', '_', 'f', 'o', 'u', 'n', 'd']
}

pub open spec fn reason_wrong_password() -> Seq<char> {
    seq!['w', 'r', 'o', 'n', 'g', '_', 'p', 'a', 's', 's', 'w', 'o', 'r', 'd']
}

pub open spec fn reason_db_unavailable() -> Seq<char> {
    seq!['d', 'b', '_', 'u', 'n', 'a', 'v', 'a', 'i', 'l', 'a', 'b', 'l', 'e']
}

pub open spec fn reason_db_error() -> Seq<char> {
    seq!['d', 'b', '_', 'e', 'r', 'r', 'o', 'r']
}

pub open spec fn reason_session_create_failed() -> Seq<char> {
    seq![
        's', 'e', 's', 's', 'i', 'o', 'n', '_', 'c', 'r', 'e', 'a', 't', 'e', '_', 'f', 'a', 'i', 'l', 'e', 'd',
    ]
}

/// The reason reported for a store failure.
pub open spec fn store_reason(e: StoreError) -> Seq<char> {
    match e {
        StoreError::Unavailable => reason_db_unavailable(),
        StoreError::Query => reason_db_error(),
    }
}

/// The outcome of checking a password, from the store's answer to comparing
/// the candidate against the user's salted hash: `None` when the user has no
/// credential. A store failure stays a failure, never a wrong password.
pub fn verify_credential(row: Result<Option<bool>, StoreError>) -> (r: Result<bool, StoreError>)
    ensures
        r == match row {
            Err(e) => Err(e),
            Ok(None) => Ok(false),
            Ok(Some(m)) => Ok::<bool, StoreError>(m),
        },
{
    match row {
        Err(e) => Err(e),
        Ok(None) => Ok(false),
        Ok(Some(m)) => Ok(m),
    }
}

/// A refused login: no roles, no cookie.
fn refusal(status: u16, reason: &str) -> (r: LoginOutcome)
    ensures
        r.status == status,
        !r.body.ok,
        r.body.roles@.len() == 0,
        r.body.reason@ == reason@,
        r.sid is None,
{
    LoginOutcome {
        status,
        body: LoginResp { ok: false, roles: Vec::new(), reason: reason.to_owned() },
        sid: None,
    }
}

/// A refusal for a store failure: 503 with its reason.
fn store_refusal(e: StoreError) -> (r: LoginOutcome)
    ensures
        r.status == 503,
        !r.body.ok,
        r.body.roles@.len() == 0,
        r.body.reason@ == store_reason(e),
        r.sid is None,
{
    proof {
        reveal_strlit("db_unavailable");
        reveal_strlit("db_error");
        assert("db_unavailable"@ =~= reason_db_unavailable());
        assert("db_error"@ =~= reason_db_error());
    }
    match e {
        StoreError::Unavailable => refusal(503, "db_unavailable"),
        StoreError::Query => refusal(503, "db_error"),
    }
}

/// Decides a login at `now`. `user` is the store's lookup of the trimmed
/// username; `password` is its check of the candidate password for that user
/// (ignored when no user was found). On success a session of
/// `SESSION_TTL_DAYS` days is created and its token returned with the user's
/// role keys. Unknown users and wrong passwords both get 401; store failures
/// get 503.
pub fn login(
    sessions: &mut SessionStore,
    rbac: &RbacStore,
    secret: &str,
    user: Result<Option<u128>, StoreError>,
    password: Result<Option<bool>, StoreError>,
    now: i64,
) -> (r: LoginOutcome)
    requires
        old(sessions).wf(),
    ensures
        final(sessions).wf(),
        r.sid is None ==> final(sessions).rows@ == old(sessions).rows@,
        r.body.ok <==> r.status == 200,
        r.body.ok <==> r.sid is Some,
        !r.body.ok ==> r.body.roles@.len() == 0,
        match user {
            Err(e) => r.status == 503 && r.body.reason@ == store_reason(e),
            Ok(None) => r.status == 401 && r.body.reason@ == reason_user_not_found(),
            Ok(Some(uid)) => match verify_credential_spec(password) {
                Err(e) => r.status == 503 && r.body.reason@ == store_reason(e),
                Ok(false) => r.status == 401 && r.body.reason@ == reason_wrong_password(),
                Ok(true) => {
                    &&& !expiry_fits(now, SESSION_TTL_DAYS) ==> r.status == 500
                    &&& expiry_fits(now, SESSION_TTL_DAYS) && old(sessions).rows@.len() == 0 ==> r.status == 200
                    &&& r.status == 500 ==> r.body.reason@ == reason_session_create_failed()
                    &&& r.status == 200 || r.status == 500
                    &&& r.sid matches Some(sid) ==> {
                        &&& r.body.reason@ == reason_ok()
                        &&& sid@.len() == 72
                        &&& distinct_keys(r.body.roles@)
                        &&& crate::context::key_set(r.body.roles@) == rbac.user_role_keys(uid)
                        &&& !old(sessions).has_hash(sid_hash_spec(secret@, sid@))
                        &&& final(sessions).rows@.drop_last() == old(sessions).rows@
                        &&& SessionStore::with_session(
                            final(sessions).rows@,
                            sid_hash_spec(secret@, sid@),
                            uid,
                            now,
                            expiry_of(now, SESSION_TTL_DAYS) as i64,
                        )
                    }
                },
            },
        },
{
    proof {
        reveal_strlit("user_not_found");
        reveal_strlit("wrong_password");
        reveal_strlit("session_create_failed");
        reveal_strlit("ok");
        assert("user_not_found"@ =~= reason_user_not_found());
        assert("wrong_password"@ =~= reason_wrong_password());
        assert("session_create_failed"@ =~= reason_session_create_failed());
        assert("ok"@ =~= reason_ok());
    }
    let uid = match user {
        Err(e) => {
            return store_refusal(e);
        },
        Ok(None) => {
            return refusal(401, "user_not_found");
        },
        Ok(Some(uid)) => uid,
    };
    match verify_credential(password) {
        Err(e) => {
            return store_refusal(e);
        },
        Ok(false) => {
            return refusal(401, "wrong_password");
        },
        Ok(true) => {},
    }
    let sid = match create_session_at(sessions, secret, uid, SESSION_TTL_DAYS, now) {
        Ok(sid) => sid,
        Err(e) => {
            assert(e == SessionError::DuplicateToken ==> old(sessions).rows@.len() > 0);
            assert(e == SessionError::ExpiryOutOfRange ==> !expiry_fits(now, SESSION_TTL_DAYS));
            return refusal(500, "session_create_failed");
        },
    };
    let ctx = load_auth_context(rbac, uid);
    LoginOutcome {
        status: 200,
        body: LoginResp { ok: true, roles: ctx.roles, reason: "ok".to_owned() },
        sid: Some(sid),
    }
}

/// What `verify_credential` returns.
pub open spec fn verify_credential_spec(row: Result<Option<bool>, StoreError>) -> Result<bool, StoreError> {
    match row {
        Err(e) => Err(e),
        Ok(None) => Ok(false),
        Ok(Some(m)) => Ok(m),
    }
}

/// Resolves the `sid` cookie of a request at `now` to the authorization
/// context of its user. No cookie, or a token with no live session, gives
/// `None`; no partial context is ever returned.
pub fn authenticate(
    sessions: &mut SessionStore,
    rbac: &RbacStore,
    secret: &str,
    sid: Option<&str>,
    now: i64,
) -> (r: Option<AuthContext>)
    requires
        old(sessions).wf(),
    ensures
        final(sessions).wf(),
        match sid {
            None => r is None && final(sessions).rows@ == old(sessions).rows@,
            Some(t) => {
                &&& SessionStore::seen(
                    old(sessions).rows@,
                    final(sessions).rows@,
                    sid_hash_spec(secret@, t@),
                    now,
                )
                &&& match old(sessions).user_at(sid_hash_spec(secret@, t@), now) {
                    None => r is None,
                    Some(uid) => r matches Some(ctx) && ctx.user_id == uid && ctx.wf()
                        && ctx.role_keys() == rbac.user_role_keys(uid) && ctx.permission_keys()
                        == rbac.user_permission_keys(uid),
                }
            },
        },
{
    match sid {
        None => None,
        Some(t) => match lookup_session_user_at(sessions, secret, t, now) {
            None => None,
            Some(uid) => Some(load_auth_context(rbac, uid)),
        },
    }
}

/// Ends the session of the `sid` cookie, if there is one, at `now`. Always
/// succeeds; the second value says whether a cookie is to be cleared.
pub fn logout(sessions: &mut SessionStore, secret: &str, sid: Option<&str>, now: i64) -> (r: (LogoutResp, bool))
    requires
        old(sessions).wf(),
    ensures
        final(sessions).wf(),
        r.0.ok,
        r.1 == sid is Some,
        match sid {
            None => final(sessions).rows@ == old(sessions).rows@,
            Some(t) => SessionStore::revoked_rows(
                old(sessions).rows@,
                final(sessions).rows@,
                sid_hash_spec(secret@, t@),
                now,
            ),
        },
{
    match sid {
        None => (LogoutResp { ok: true }, false),
        Some(t) => {
            revoke_session_at(sessions, secret, t, now);
            (LogoutResp { ok: true }, true)
        },
    }
}

/// The profile fields of a user as the store holds them: id, username,
/// email and gender.
pub type UserProfile = (u128, Option<String>, Option<String>, Option<String>);

/// The answer to "who am I".
pub struct SessionMeResponse {
    pub ok: bool,
    pub id: String,
    pub username: String,
    pub email: Option<String>,
    pub gender: Option<String>,
    pub roles: Vec<String>,
    pub permissions: Vec<String>,
}

/// The username shown for a user who has none.
pub open spec fn default_username() -> Seq<char> {
    seq!['U', 's', 'e', 'r']
}

/// Lexicographic order of byte strings: a proper prefix comes first.
pub open spec fn bytes_le(a: Seq<u8>, b: Seq<u8>) -> bool
    decreases a.len(),
{
    if a.len() == 0 {
        true
    } else if b.len() == 0 {
        false
    } else if a[0] != b[0] {
        a[0] < b[0]
    } else {
        bytes_le(a.drop_first(), b.drop_first())
    }
}

/// The strings of `v` are in ascending order of their UTF-8 bytes, the order
/// of `Ord` on strings.
pub open spec fn keys_sorted(v: Seq<String>) -> bool {
    forall|i: int, j: int|
        0 <= i < j < v.len() ==> bytes_le(vstd::utf8::encode_utf8(v[i]@), vstd::utf8::encode_utf8(v[j]@))
}

/// Relies on `<[String]>::sort`: the same strings, in ascending order, strings
/// being ordered by their byte values.
#[verifier::external_body]
fn sort_keys(v: Vec<String>) -> (r: Vec<String>)
    ensures
        r@.len() == v@.len(),
        keys_sorted(r@),
        key_set(r@) == key_set(v@),
        distinct_keys(v@) ==> distinct_keys(r@),
{
    let mut v = v;
    v.sort();
    v
}

/// An unsuccessful "who am I" answer.
fn me_refusal() -> (r: SessionMeResponse)
    ensures
        !r.ok,
        r.id@.len() == 0,
        r.username@.len() == 0,
        r.roles@.len() == 0,
        r.permissions@.len() == 0,
{
    SessionMeResponse {
        ok: false,
        id: String::new(),
        username: String::new(),
        email: None,
        gender: None,
        roles: Vec::new(),
        permissions: Vec::new(),
    }
}

/// Answers "who am I" for the context of a request, from the store's lookup
/// of that user's profile: 200 with the profile, role keys and permission
/// keys (sorted); 401 when the user no longer exists; 503 on a store failure.
pub fn session_me(ctx: AuthContext, profile: Result<Option<UserProfile>, StoreError>) -> (r: (
    u16,
    SessionMeResponse,
))
    requires
        ctx.wf(),
    ensures
        r.1.ok <==> r.0 == 200,
        !r.1.ok ==> r.1.id@.len() == 0 && r.1.username@.len() == 0 && r.1.roles@.len() == 0
            && r.1.permissions@.len() == 0,
        match profile {
            Err(_) => r.0 == 503,
            Ok(None) => r.0 == 401,
            Ok(Some(p)) => {
                &&& r.0 == 200
                &&& r.1.id@ == uuid_text_of(p.0)
                &&& r.1.username@ == match p.1 {
                    Some(name) => name@,
                    None => default_username(),
                }
                &&& r.1.email == p.2
                &&& r.1.gender == p.3
                &&& r.1.roles@ == ctx.roles@
                &&& distinct_keys(r.1.permissions@)
                &&& keys_sorted(r.1.permissions@)
                &&& key_set(r.1.permissions@) == ctx.permission_keys()
            },
        },
{
    let (id, username, email, gender) = match profile {
        Err(_) => {
            return (503, me_refusal());
        },
        Ok(None) => {
            return (401, me_refusal());
        },
        Ok(Some(p)) => p,
    };
    proof {
        reveal_strlit("User");
        assert("User"@ =~= default_username());
    }
    let username = match username {
        Some(name) => name,
        None => "User".to_owned(),
    };
    let permissions = sort_keys(ctx.permissions);
    (
        200,
        SessionMeResponse {
            ok: true,
            id: uuid_text(id),
            username,
            email,
            gender,
            roles: ctx.roles,
            permissions,
        },
    )
}

/// After a successful login at `now`, a request carrying its token at any
/// time before the session expires (and before any revocation) resolves to
/// the logged-in user; the administrative check on that user's context lets
/// the request through exactly when some role of the user grants
/// `roles.assign`, and answers 403 otherwise.
pub proof fn lemma_login_session_gates_admin(
    before: SessionStore,
    after: SessionStore,
    rbac: RbacStore,
    h: Seq<char>,
    uid: u128,
    now: i64,
    later: i64,
    ctx: AuthContext,
)
    requires
        before.wf(),
        !before.has_hash(h),
        expiry_fits(now, SESSION_TTL_DAYS),
        SessionStore::with_session(after.rows@, h, uid, now, expiry_of(now, SESSION_TTL_DAYS) as i64),
        after.rows@.drop_last() == before.rows@,
        later < expiry_of(now, SESSION_TTL_DAYS),
        ctx.user_id == uid,
        ctx.permission_keys() == rbac.user_permission_keys(uid),
    ensures
        after.user_at(h, later) == Some(uid),
        admin_status(ctx) == if rbac.user_permission_keys(uid).contains(admin_permission()) {
            200u16
        } else {
            403u16
        },
{
    let last = after.rows@.len() - 1;
    assert(after.rows@[last].sid_hash@ == h && live_at(after.rows@[last], later));
    assert forall|k: int| 0 <= k < after.rows@.len() && after.rows@[k].sid_hash@ == h implies k == last by {
        if k != last {
            assert(after.rows@.drop_last()[k] == after.rows@[k]);
            assert(before.rows@[k].sid_hash@ == h);
        }
    }
}

} // verus!
