use session_rbac::context::AuthContext;
use session_rbac::guards::{admin_only, admin_requirement, require, GuardDecision, Requirement};
use session_rbac::middleware::{
    authenticate, login, logout, session_me, verify_credential, StoreError, SESSION_TTL_DAYS,
};
use session_rbac::rbac::{
    assign_role, load_auth_context, write_audit, AssignRoleError, NewUserRole, Permission, RbacStore, Role,
    RolePermission,
};
use session_rbac::session::{
    create_session, create_session_at, create_session_with_sid, lookup_session_user, lookup_session_user_at, revoke_session,
    revoke_session_at, SessionError, SessionStore, SECONDS_PER_DAY,
};
use session_rbac::subjects::{list_subjects, page_and_limit, SubjectsQuery};
use session_rbac::token::{compute_sid_hash, new_sid};

const SECRET: &str = "server-secret";
const T0: i64 = 1_700_000_000;

const ROLE_A: u128 = 0xA;
const ROLE_B: u128 = 0xB;
const ROLE_ADMIN: u128 = 0xAD;
const ROLE_TEACHER: u128 = 0x7E;

fn ctx(roles: &[&str], perms: &[&str]) -> AuthContext {
    AuthContext {
        user_id: 42,
        roles: roles.iter().map(|r| r.to_string()).collect(),
        permissions: perms.iter().map(|p| p.to_string()).collect(),
    }
}

fn store() -> RbacStore {
    let mut s = RbacStore::new();
    for (id, key) in [(ROLE_A, "a"), (ROLE_B, "b"), (ROLE_ADMIN, "admin"), (ROLE_TEACHER, "teacher")] {
        s.roles.push(Role { id, key: key.to_string(), name: key.to_uppercase() });
    }
    for (id, key) in [(1u128, "cards.read"), (2, "cards.write"), (3, "sets.publish"), (4, "roles.assign")] {
        s.permissions.push(Permission { id, key: key.to_string() });
    }
    for (role_id, permission_id) in [(ROLE_A, 1u128), (ROLE_A, 2), (ROLE_B, 2), (ROLE_B, 3), (ROLE_ADMIN, 4)] {
        s.role_permissions.push(RolePermission { role_id, permission_id });
    }
    s
}

fn link(s: &mut RbacStore, user_id: u128, role_id: u128) {
    s.user_roles.push(NewUserRole { user_id, role_id, assigned_by: None });
}

fn sorted(mut v: Vec<String>) -> Vec<String> {
    v.sort();
    v
}

#[test]
fn sid_hash_is_hex_sha256_of_secret_then_token() {
    assert_eq!(
        compute_sid_hash("server-secret", "token-123"),
        "4adbb6674b190d6fdf13279daebf934fa25479fb241ca6de83af8d1244520374"
    );
    assert_eq!(
        compute_sid_hash("", ""),
        "e3b0c44298fc1c149afbf4c8996fb92427ae41e4649b934ca495991b7852b855"
    );
    assert_eq!(
        compute_sid_hash("clé", "x"),
        "572dcafd5c5f06e8907398c1dc76d5982edc8b68315c57286fee3106705b0c92"
    );
}

#[test]
fn sid_hash_depends_on_the_secret() {
    assert_ne!(compute_sid_hash("k1", "tok"), compute_sid_hash("k2", "tok"));
}

#[test]
fn new_sid_is_long_and_fresh() {
    let a = new_sid();
    let b = new_sid();
    assert_eq!(a.len(), 72);
    assert_ne!(a, b);
}

#[test]
fn created_session_validates_for_its_user() {
    for ttl in [1i64, 7, 365] {
        let mut s = SessionStore::new();
        let sid = create_session_at(&mut s, SECRET, 99, ttl, T0).unwrap();
        assert_eq!(lookup_session_user_at(&mut s, SECRET, &sid, T0), Some(99));
        assert_eq!(s.rows[0].expires_at, T0 + ttl * SECONDS_PER_DAY);
        assert_eq!(s.rows[0].sid_hash, compute_sid_hash(SECRET, &sid));
    }
}

#[test]
fn raw_token_is_never_stored() {
    let mut s = SessionStore::new();
    let sid = create_session_at(&mut s, SECRET, 1, 7, T0).unwrap();
    assert_ne!(s.rows[0].sid_hash, sid);
    assert_eq!(s.rows[0].sid_hash.len(), 64);
}

#[test]
fn lookup_marks_session_seen() {
    let mut s = SessionStore::new();
    let sid = create_session_at(&mut s, SECRET, 5, 7, T0).unwrap();
    assert_eq!(lookup_session_user_at(&mut s, SECRET, &sid, T0 + 60), Some(5));
    assert_eq!(s.rows[0].last_seen_at, T0 + 60);
    assert_eq!(s.rows[0].expires_at, T0 + 7 * SECONDS_PER_DAY);
}

#[test]
fn revoked_session_no_longer_validates() {
    let mut s = SessionStore::new();
    let sid = create_session_at(&mut s, SECRET, 7, 30, T0).unwrap();
    revoke_session_at(&mut s, SECRET, &sid, T0 + 10);
    assert_eq!(lookup_session_user_at(&mut s, SECRET, &sid, T0 + 11), None);
    assert_eq!(lookup_session_user_at(&mut s, SECRET, &sid, T0), None);
    assert_eq!(s.rows[0].revoked_at, Some(T0 + 10));
}

#[test]
fn revoking_twice_or_unknown_token_is_harmless() {
    let mut s = SessionStore::new();
    let sid = create_session_at(&mut s, SECRET, 7, 30, T0).unwrap();
    revoke_session_at(&mut s, SECRET, "never-issued", T0);
    assert_eq!(lookup_session_user_at(&mut s, SECRET, &sid, T0), Some(7));
    revoke_session_at(&mut s, SECRET, &sid, T0);
    revoke_session_at(&mut s, SECRET, &sid, T0 + 1);
    assert_eq!(s.rows.len(), 1);
    assert_eq!(lookup_session_user_at(&mut s, SECRET, &sid, T0 + 2), None);
}

#[test]
fn expired_session_fails_without_revocation() {
    let mut s = SessionStore::new();
    let sid = create_session_at(&mut s, SECRET, 3, 1, T0).unwrap();
    assert_eq!(lookup_session_user_at(&mut s, SECRET, &sid, T0 + SECONDS_PER_DAY - 1), Some(3));
    assert_eq!(lookup_session_user_at(&mut s, SECRET, &sid, T0 + SECONDS_PER_DAY), None);
    assert_eq!(lookup_session_user_at(&mut s, SECRET, &sid, T0 + 10 * SECONDS_PER_DAY), None);
    assert_eq!(s.rows[0].revoked_at, None);
}

#[test]
fn token_checked_under_another_secret_fails() {
    let mut s = SessionStore::new();
    let sid = create_session_at(&mut s, SECRET, 3, 1, T0).unwrap();
    assert_eq!(lookup_session_user_at(&mut s, "rotated", &sid, T0), None);
}

#[test]
fn expiry_out_of_range_is_refused() {
    let mut s = SessionStore::new();
    assert_eq!(create_session_at(&mut s, SECRET, 1, i64::MAX, T0), Err(SessionError::ExpiryOutOfRange));
    assert_eq!(create_session_at(&mut s, SECRET, 1, i64::MIN, T0), Err(SessionError::ExpiryOutOfRange));
    assert!(s.rows.is_empty());
}

#[test]
fn duplicate_hash_is_refused() {
    let mut s = SessionStore::new();
    let h = compute_sid_hash(SECRET, "t");
    assert_eq!(s.insert_session(h.clone(), 1, T0, T0 + 5), Ok(()));
    assert_eq!(s.insert_session(h, 2, T0, T0 + 5), Err(SessionError::DuplicateToken));
    assert_eq!(s.rows.len(), 1);
}

#[test]
fn clock_based_session_operations() {
    let mut s = SessionStore::new();
    let sid = create_session(&mut s, SECRET, 11, 7).unwrap();
    assert_eq!(lookup_session_user(&mut s, SECRET, &sid), Some(11));
    revoke_session(&mut s, SECRET, &sid);
    assert_eq!(lookup_session_user(&mut s, SECRET, &sid), None);
}

#[test]
fn assigning_same_role_twice_gives_one_row() {
    let mut s = store();
    let admin = ctx(&["admin"], &["roles.assign"]);
    assert_eq!(assign_role(&mut s, &admin, 500, "teacher"), Ok(()));
    assert_eq!(assign_role(&mut s, &admin, 500, "teacher"), Ok(()));
    let rows: Vec<_> = s.user_roles.iter().filter(|r| r.user_id == 500 && r.role_id == ROLE_TEACHER).collect();
    assert_eq!(rows.len(), 1);
    assert_eq!(rows[0].assigned_by, Some(42));
    assert_eq!(s.audit_log.len(), 2);
    let ev = &s.audit_log[0];
    assert_eq!(ev.action, "role.assign");
    assert_eq!(ev.entity_type, "user");
    assert_eq!(ev.entity_id, 500);
    assert_eq!(ev.actor_id, Some(42));
    assert_eq!(ev.metadata, vec![("role_key".to_string(), "teacher".to_string())]);
}

#[test]
fn assign_role_without_permission_is_forbidden() {
    let mut s = store();
    let teacher = ctx(&["teacher", "admin"], &[]);
    assert_eq!(assign_role(&mut s, &teacher, 500, "teacher"), Err(AssignRoleError::Forbidden));
    assert!(s.user_roles.is_empty());
    assert!(s.audit_log.is_empty());
}

#[test]
fn assign_unknown_role_is_refused() {
    let mut s = store();
    let admin = ctx(&[], &["roles.assign"]);
    assert_eq!(assign_role(&mut s, &admin, 500, "nope"), Err(AssignRoleError::UnknownRole));
    assert!(s.user_roles.is_empty());
    assert!(s.audit_log.is_empty());
}

#[test]
fn write_audit_appends_event() {
    let mut s = store();
    write_audit(&mut s, None, "user.delete", "user", 9, vec![]);
    assert_eq!(s.audit_log.len(), 1);
    assert_eq!(s.audit_log[0].action, "user.delete");
    assert_eq!(s.audit_log[0].actor_id, None);
}

#[test]
fn permissions_are_union_of_roles() {
    let mut s = store();
    link(&mut s, 7, ROLE_A);
    link(&mut s, 7, ROLE_B);
    let c = load_auth_context(&s, 7);
    assert_eq!(c.user_id, 7);
    assert_eq!(sorted(c.permissions.clone()), vec!["cards.read", "cards.write", "sets.publish"]);
    assert_eq!(sorted(c.roles.clone()), vec!["a", "b"]);
    assert!(c.has_perm("cards.write"));
    assert!(!c.has_perm("roles.assign"));
    assert!(c.has_role("a"));
    assert!(!c.has_role("admin"));
}

#[test]
fn user_without_roles_has_empty_context() {
    let mut s = store();
    link(&mut s, 8, ROLE_ADMIN);
    let c = load_auth_context(&s, 7);
    assert!(c.roles.is_empty());
    assert!(c.permissions.is_empty());
}

#[test]
fn permission_guard_rejects_teacher_and_accepts_assigner() {
    let need = Requirement::Permission("roles.assign".to_string());
    let teacher = ctx(&["teacher"], &[]);
    assert_eq!(require(Some(&teacher), &need), GuardDecision::Forbidden);
    assert_eq!(require(Some(&teacher), &need).status(), 403);
    assert_eq!(admin_only(&teacher), 403);
    let assigner = ctx(&[], &["content.edit", "roles.assign"]);
    assert_eq!(require(Some(&assigner), &need), GuardDecision::Allow);
    assert_eq!(require(Some(&assigner), &need).status(), 200);
    assert_eq!(admin_only(&assigner), 200);
}

#[test]
fn guard_without_context_fails_closed() {
    let need = Requirement::Any(
        Box::new(Requirement::Role("x".to_string())),
        Box::new(Requirement::Permission("y".to_string())),
    );
    assert_eq!(require(None, &need), GuardDecision::Unauthenticated);
    assert_eq!(require(None, &need).status(), 401);
}

#[test]
fn guards_compose_as_and() {
    let p = Requirement::Role("teacher".to_string());
    let q = Requirement::Permission("cards.read".to_string());
    let both = Requirement::All(Box::new(Requirement::Role("teacher".to_string())), Box::new(Requirement::Permission("cards.read".to_string())));
    for c in [ctx(&["teacher"], &["cards.read"]), ctx(&["teacher"], &[]), ctx(&[], &["cards.read"]), ctx(&[], &[])] {
        let seq = match require(Some(&c), &p) {
            GuardDecision::Allow => require(Some(&c), &q),
            d => d,
        };
        assert_eq!(seq, require(Some(&c), &both));
    }
}

#[test]
fn admin_requirement_accepts_role_or_permission() {
    let req = admin_requirement();
    assert_eq!(require(Some(&ctx(&["admin"], &[])), &req), GuardDecision::Allow);
    assert_eq!(require(Some(&ctx(&[], &["roles.assign"])), &req), GuardDecision::Allow);
    assert_eq!(require(Some(&ctx(&["teacher"], &["cards.read"])), &req), GuardDecision::Forbidden);
}

#[test]
fn verify_credential_keeps_store_failures_apart() {
    assert_eq!(verify_credential(Ok(Some(true))), Ok(true));
    assert_eq!(verify_credential(Ok(Some(false))), Ok(false));
    assert_eq!(verify_credential(Ok(None)), Ok(false));
    assert_eq!(verify_credential(Err(StoreError::Unavailable)), Err(StoreError::Unavailable));
}

#[test]
fn login_failures() {
    let rbac = store();
    let mut s = SessionStore::new();
    let o = login(&mut s, &rbac, SECRET, Ok(None), Ok(None), T0);
    assert_eq!((o.status, o.body.ok, o.body.reason.as_str(), o.sid.is_none()), (401, false, "user_not_found", true));
    let o = login(&mut s, &rbac, SECRET, Err(StoreError::Unavailable), Ok(None), T0);
    assert_eq!((o.status, o.body.reason.as_str()), (503, "db_unavailable"));
    let o = login(&mut s, &rbac, SECRET, Err(StoreError::Query), Ok(None), T0);
    assert_eq!((o.status, o.body.reason.as_str()), (503, "db_error"));
    let o = login(&mut s, &rbac, SECRET, Ok(Some(1)), Err(StoreError::Query), T0);
    assert_eq!((o.status, o.body.reason.as_str()), (503, "db_error"));
    let o = login(&mut s, &rbac, SECRET, Ok(Some(1)), Ok(None), T0);
    assert_eq!((o.status, o.body.reason.as_str()), (401, "wrong_password"));
    let o = login(&mut s, &rbac, SECRET, Ok(Some(1)), Ok(Some(true)), i64::MAX - 5);
    assert_eq!((o.status, o.body.reason.as_str(), o.sid.is_none()), (500, "session_create_failed", true));
    assert!(s.rows.is_empty());
}

#[test]
fn end_to_end_login_guard_logout() {
    let mut rbac = store();
    link(&mut rbac, 1, ROLE_TEACHER);
    link(&mut rbac, 2, ROLE_ADMIN);
    let mut s = SessionStore::new();

    let o = login(&mut s, &rbac, SECRET, Ok(Some(1)), Ok(Some(false)), T0);
    assert_eq!(o.status, 401);
    assert_eq!(o.body.reason, "wrong_password");
    assert!(!o.body.ok);
    assert!(o.sid.is_none());
    assert!(s.rows.is_empty());

    let o = login(&mut s, &rbac, SECRET, Ok(Some(1)), Ok(Some(true)), T0);
    assert_eq!(o.status, 200);
    assert!(o.body.ok);
    assert_eq!(o.body.roles, vec!["teacher"]);
    let teacher_sid = o.sid.unwrap();
    assert_eq!(s.rows[0].expires_at, T0 + SESSION_TTL_DAYS * SECONDS_PER_DAY);

    let o = login(&mut s, &rbac, SECRET, Ok(Some(2)), Ok(Some(true)), T0);
    assert_eq!(o.body.roles, vec!["admin"]);
    let admin_sid = o.sid.unwrap();

    let admin_route = admin_requirement();
    let c = authenticate(&mut s, &rbac, SECRET, Some(&teacher_sid), T0 + 1);
    assert_eq!(require(c.as_ref(), &admin_route).status(), 403);
    let c = authenticate(&mut s, &rbac, SECRET, Some(&admin_sid), T0 + 1);
    assert_eq!(require(c.as_ref(), &admin_route).status(), 200);
    assert_eq!(require(None, &admin_route).status(), 401);

    let captured = admin_sid.clone();
    let (resp, clear) = logout(&mut s, SECRET, Some(&admin_sid), T0 + 2);
    assert!(resp.ok);
    assert!(clear);
    let c = authenticate(&mut s, &rbac, SECRET, Some(&captured), T0 + 3);
    assert!(c.is_none());
    assert_eq!(require(c.as_ref(), &admin_route).status(), 401);
    let c = authenticate(&mut s, &rbac, SECRET, Some(&teacher_sid), T0 + 3);
    assert!(c.is_some());
}

#[test]
fn logout_without_cookie_is_ok() {
    let mut s = SessionStore::new();
    let (resp, clear) = logout(&mut s, SECRET, None, T0);
    assert!(resp.ok);
    assert!(!clear);
    assert!(authenticate(&mut s, &store(), SECRET, None, T0).is_none());
}

#[test]
fn session_me_reports_profile_and_sorted_permissions() {
    let c = ctx(&["editor"], &["z.last", "a.first", "m.mid"]);
    let (status, me) = session_me(c, Ok(Some((0x0123456789abcdef0123456789abcdef, None, Some("e@x".to_string()), None))));
    assert_eq!(status, 200);
    assert!(me.ok);
    assert_eq!(me.id, "01234567-89ab-cdef-0123-456789abcdef");
    assert_eq!(me.username, "User");
    assert_eq!(me.email, Some("e@x".to_string()));
    assert_eq!(me.roles, vec!["editor"]);
    assert_eq!(me.permissions, vec!["a.first", "m.mid", "z.last"]);
}

#[test]
fn session_me_failures() {
    let (status, me) = session_me(ctx(&["a"], &["p"]), Ok(None));
    assert_eq!(status, 401);
    assert!(!me.ok);
    assert!(me.permissions.is_empty());
    let (status, me) = session_me(ctx(&["a"], &["p"]), Err(StoreError::Unavailable));
    assert_eq!(status, 503);
    assert!(me.roles.is_empty());
}

#[test]
fn subject_listing_paging() {
    let q = |page: Option<i64>, limit: Option<i64>| SubjectsQuery { page, limit, search: None, sortBy: None, sortOrder: None };
    assert_eq!(page_and_limit(&q(None, None)), (1, 20));
    assert_eq!(page_and_limit(&q(Some(-3), Some(0))), (1, 1));
    assert_eq!(page_and_limit(&q(Some(4), Some(500))), (4, 100));
    assert_eq!(page_and_limit(&q(Some(2), Some(50))), (2, 50));
    let r = list_subjects(&q(Some(3), Some(10)));
    assert!(r.ok);
    assert!(r.items.is_empty());
    assert_eq!((r.page, r.limit, r.total), (3, 10, 0));
}

#[test]
fn session_with_given_token_is_stored_under_its_hash() {
    let mut s = SessionStore::new();
    let r = create_session_with_sid(&mut s, SECRET, 4, 2, T0, "tok-1".to_string());
    assert_eq!(r, Ok("tok-1".to_string()));
    assert_eq!(s.rows[0].sid_hash, compute_sid_hash(SECRET, "tok-1"));
    assert_eq!(s.rows[0].user_id, 4);
    assert_eq!(s.rows[0].created_at, T0);
    assert_eq!(s.rows[0].expires_at, T0 + 2 * SECONDS_PER_DAY);
    assert_eq!(s.rows[0].revoked_at, None);
    assert_eq!(lookup_session_user_at(&mut s, SECRET, "tok-1", T0), Some(4));
}

#[test]
fn session_with_clashing_token_is_refused() {
    let mut s = SessionStore::new();
    create_session_with_sid(&mut s, SECRET, 4, 2, T0, "tok-1".to_string()).unwrap();
    let r = create_session_with_sid(&mut s, SECRET, 5, 2, T0, "tok-1".to_string());
    assert_eq!(r, Err(SessionError::DuplicateToken));
    assert_eq!(s.rows.len(), 1);
    let r = create_session_with_sid(&mut s, SECRET, 5, i64::MAX, T0, "tok-2".to_string());
    assert_eq!(r, Err(SessionError::ExpiryOutOfRange));
}

#[test]
fn new_sid_halves_are_hyphenated_uuids() {
    let sid = new_sid();
    for half in [&sid[..36], &sid[36..]] {
        let groups: Vec<&str> = half.split('-').collect();
        assert_eq!(groups.iter().map(|g| g.len()).collect::<Vec<_>>(), vec![8, 4, 4, 4, 12]);
        assert!(groups.iter().all(|g| g.chars().all(|c| c.is_ascii_hexdigit() && !c.is_ascii_uppercase())));
    }
}

#[test]
fn session_me_refusal_has_empty_identity() {
    let (_, me) = session_me(ctx(&["a"], &["p"]), Ok(None));
    assert_eq!(me.id, "");
    assert_eq!(me.username, "");
}
