use session_rbac::users::{find_or_create, find_or_create_with, User, UserStore};

#[test]
fn first_login_creates_user_once() {
    let mut s = UserStore::new();
    assert_eq!(find_or_create_with(&mut s, "auth0|abc", Some("a@x".to_string()), 10), Some(10));
    assert_eq!(find_or_create_with(&mut s, "auth0|abc", None, 11), Some(10));
    assert_eq!(s.users.len(), 1);
    assert_eq!(s.users[0].email, Some("a@x".to_string()));
}

#[test]
fn taken_fresh_id_is_refused() {
    let mut s = UserStore::new();
    s.users.push(User { id: 10, auth0_id: "auth0|one".to_string(), email: None });
    assert_eq!(find_or_create_with(&mut s, "auth0|two", None, 10), None);
    assert_eq!(s.users.len(), 1);
    assert_eq!(find_or_create_with(&mut s, "auth0|two", None, 12), Some(12));
}

#[test]
fn random_ids_differ_between_users() {
    let mut s = UserStore::new();
    let a = find_or_create(&mut s, "auth0|a", None).unwrap();
    let b = find_or_create(&mut s, "auth0|b", None).unwrap();
    assert_ne!(a, b);
    assert_eq!(find_or_create(&mut s, "auth0|a", None), Some(a));
    assert_eq!(s.users.len(), 2);
}

#[test]
fn first_user_in_empty_table_is_created() {
    let mut s = UserStore::new();
    assert!(find_or_create(&mut s, "auth0|first", Some("f@x".to_string())).is_some());
    assert_eq!(s.users.len(), 1);
}
