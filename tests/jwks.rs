use session_rbac::jwks::{get_key, update_jwks, JwkEntry, JwksCache};

fn entry(kid: Option<&str>, n: Option<&str>, e: Option<&str>) -> JwkEntry {
    JwkEntry { kid: kid.map(String::from), n: n.map(String::from), e: e.map(String::from) }
}

#[test]
fn empty_cache_has_no_key() {
    let c = JwksCache::new();
    assert!(get_key(&c, "k1").is_none());
}

#[test]
fn refresh_keeps_complete_entries_and_last_wins() {
    let mut c = JwksCache::new();
    update_jwks(
        &mut c,
        vec![
            entry(Some("k1"), Some("n1"), Some("AQAB")),
            entry(Some("k2"), None, Some("AQAB")),
            entry(None, Some("n3"), Some("AQAB")),
            entry(Some("k1"), Some("n1b"), Some("AQAB")),
        ],
    );
    let k = get_key(&c, "k1").unwrap();
    assert_eq!((k.n.as_str(), k.e.as_str()), ("n1b", "AQAB"));
    assert!(get_key(&c, "k2").is_none());
    assert_eq!(c.keys.len(), 1);
}

#[test]
fn refresh_replaces_previous_keys() {
    let mut c = JwksCache::new();
    update_jwks(&mut c, vec![entry(Some("old"), Some("n"), Some("e"))]);
    update_jwks(&mut c, vec![entry(Some("new"), Some("n2"), Some("e2"))]);
    assert!(get_key(&c, "old").is_none());
    assert_eq!(get_key(&c, "new").unwrap().n, "n2");
}
