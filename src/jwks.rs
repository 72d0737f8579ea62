//! A cache of the identity provider's signing keys, by key id. A refresh
//! replaces the whole cache with the keys of a freshly fetched key set.

use vstd::prelude::*;

verus! {

/// The RSA components of a signing key, as the key set gives them.
#[derive(Clone, Debug)]
pub struct RsaKey {
    pub n: String,
    pub e: String,
}

/// One element of a fetched key set, with the fields that were present.
pub struct JwkEntry {
    pub kid: Option<String>,
    pub n: Option<String>,
    pub e: Option<String>,
}

/// Signing keys by key id.
pub struct JwksCache {
    pub keys: Vec<(String, RsaKey)>,
}

/// The key that a cache holds for `kid` as a pair of components.
pub open spec fn components(k: RsaKey) -> (Seq<char>, Seq<char>) {
    (k.n@, k.e@)
}

/// An entry that names a key id and both components.
pub open spec fn complete(j: JwkEntry) -> bool {
    j.kid is Some && j.n is Some && j.e is Some
}

/// The key a refresh from `entries` keeps for `kid`: that of the last
/// complete entry with that id.
pub open spec fn latest(entries: Seq<JwkEntry>, kid: Seq<char>) -> Option<(Seq<char>, Seq<char>)>
    decreases entries.len(),
{
    if entries.len() == 0 {
        None
    } else if complete(entries.last()) && entries.last().kid->Some_0@ == kid {
        Some((entries.last().n->Some_0@, entries.last().e->Some_0@))
    } else {
        latest(entries.drop_last(), kid)
    }
}

impl JwksCache {
    /// Key ids are unique.
    pub open spec fn wf(&self) -> bool {
        forall|i: int, j: int|
            0 <= i < self.keys@.len() && 0 <= j < self.keys@.len() && i != j ==> self.keys@[i].0@
                != self.keys@[j].0@
    }

    /// The key held for `kid`, if any.
    pub open spec fn key_for(&self, kid: Seq<char>) -> Option<(Seq<char>, Seq<char>)> {
        if exists|i: int| 0 <= i < self.keys@.len() && self.keys@[i].0@ == kid {
            Some(components(self.keys@[choose|i: int| 0 <= i < self.keys@.len() && self.keys@[i].0@ == kid].1))
        } else {
            None
        }
    }

    /// An empty cache.
    pub fn new() -> (r: JwksCache)
        ensures
            r.wf(),
            forall|kid: Seq<char>| r.key_for(kid) is None,
    {
        JwksCache { keys: Vec::new() }
    }

    /// The index of the key for `kid`, if any.
    fn index_of(&self, kid: &String) -> (r: Option<usize>)
        requires
            self.wf(),
        ensures
            match r {
                Some(i) => i < self.keys@.len() && self.keys@[i as int].0@ == kid@ && self.key_for(kid@)
                    == Some(components(self.keys@[i as int].1)),
                None => self.key_for(kid@) is None,
            },
    {
        let mut i: usize = 0;
        while i < self.keys.len()
            invariant
                i <= self.keys@.len(),
                self.wf(),
                forall|m: int| 0 <= m < i ==> self.keys@[m].0@ != kid@,
            decreases self.keys@.len() - i,
        {
            if self.keys[i].0 == *kid {
                proof {
                    assert(self.keys@[i as int].0@ == kid@);
                    let c = choose|m: int| 0 <= m < self.keys@.len() && self.keys@[m].0@ == kid@;
                    if c != i {
                        assert(self.keys@[c].0@ != self.keys@[i as int].0@);
                    }
                }
                return Some(i);
            }
            i = i + 1;
        }
        None
    }

    /// Holds `key` for `kid`, replacing a key held for it before.
    fn put(&mut self, kid: String, key: RsaKey)
        requires
            old(self).wf(),
        ensures
            final(self).wf(),
            forall|k: Seq<char>|
                final(self).key_for(k) == if k == kid@ {
                    Some(components(key))
                } else {
                    old(self).key_for(k)
                },
    {
        let ghost kid_view = kid@;
        let ghost key_view = components(key);
        match self.index_of(&kid) {
            Some(i) => {
                self.keys.set(i, (kid, key));
                proof {
                    assert forall|a: int, b: int|
                        0 <= a < self.keys@.len() && 0 <= b < self.keys@.len() && a != b implies self.keys@[a].0@
                            != self.keys@[b].0@ by {
                        if a != i && b != i {
                            assert(old(self).keys@[a].0@ != old(self).keys@[b].0@);
                        } else if a == i {
                            assert(old(self).keys@[i as int].0@ != old(self).keys@[b].0@);
                        } else {
                            assert(old(self).keys@[a].0@ != old(self).keys@[i as int].0@);
                        }
                    }
                    assert forall|k: Seq<char>|
                        self.key_for(k) == if k == kid_view {
                            Some(key_view)
                        } else {
                            old(self).key_for(k)
                        } by {
                        if k == kid_view {
                            assert(self.keys@[i as int].0@ == k);
                            let c = choose|m: int| 0 <= m < self.keys@.len() && self.keys@[m].0@ == k;
                            if c != i {
                                assert(self.keys@[c].0@ != self.keys@[i as int].0@);
                            }
                        } else {
                            if exists|m: int| 0 <= m < old(self).keys@.len() && old(self).keys@[m].0@ == k {
                                let m = choose|m: int| 0 <= m < old(self).keys@.len() && old(self).keys@[m].0@ == k;
                                assert(self.keys@[m] == old(self).keys@[m]);
                            }
                            if exists|m: int| 0 <= m < self.keys@.len() && self.keys@[m].0@ == k {
                                let m = choose|m: int| 0 <= m < self.keys@.len() && self.keys@[m].0@ == k;
                                assert(self.keys@[m] == old(self).keys@[m]);
                            }
                            assert forall|m: int| 0 <= m < self.keys@.len() && self.keys@[m].0@ == k
                                implies self.keys@[m] == old(self).keys@[m] by {}
                        }
                    }
                }
            },
            None => {
                self.keys.push((kid, key));
                proof {
                    let n = old(self).keys@.len() as int;
                    assert forall|a: int, b: int|
                        0 <= a < self.keys@.len() && 0 <= b < self.keys@.len() && a != b implies self.keys@[a].0@
                            != self.keys@[b].0@ by {
                        if a < n && b < n {
                            assert(old(self).keys@[a].0@ != old(self).keys@[b].0@);
                        } else if a < n {
                            assert(self.keys@[a] == old(self).keys@[a]);
                        } else {
                            assert(self.keys@[b] == old(self).keys@[b]);
                        }
                    }
                    assert forall|k: Seq<char>|
                        self.key_for(k) == if k == kid_view {
                            Some(key_view)
                        } else {
                            old(self).key_for(k)
                        } by {
                        if k == kid_view {
                            assert(self.keys@[n].0@ == k);
                            let c = choose|m: int| 0 <= m < self.keys@.len() && self.keys@[m].0@ == k;
                            if c != n {
                                assert(self.keys@[c] == old(self).keys@[c]);
                            }
                        } else {
                            if exists|m: int| 0 <= m < old(self).keys@.len() && old(self).keys@[m].0@ == k {
                                let m = choose|m: int| 0 <= m < old(self).keys@.len() && old(self).keys@[m].0@ == k;
                                assert(self.keys@[m] == old(self).keys@[m]);
                            }
                            if exists|m: int| 0 <= m < self.keys@.len() && self.keys@[m].0@ == k {
                                let m = choose|m: int| 0 <= m < self.keys@.len() && self.keys@[m].0@ == k;
                                assert(self.keys@[m] == old(self).keys@[m]);
                            }
                            assert forall|m: int| 0 <= m < self.keys@.len() && self.keys@[m].0@ == k
                                implies m < n && self.keys@[m] == old(self).keys@[m] by {}
                        }
                    }
                }
            },
        }
    }
}

/// The key held for `kid`, if any.
pub fn get_key(cache: &JwksCache, kid: &str) -> (r: Option<RsaKey>)
    requires
        cache.wf(),
    ensures
        match r {
            Some(k) => cache.key_for(kid@) == Some(components(k)),
            None => cache.key_for(kid@) is None,
        },
{
    let target = kid.to_owned();
    match cache.index_of(&target) {
        Some(i) => {
            let n = cache.keys[i].1.n.clone();
            let e = cache.keys[i].1.e.clone();
            Some(RsaKey { n, e })
        },
        None => None,
    }
}

/// Replaces the cache with the keys of a freshly fetched key set. Entries
/// that lack a key id or a component are skipped; of two entries with one
/// key id, the later wins.
pub fn update_jwks(cache: &mut JwksCache, entries: Vec<JwkEntry>)
    ensures
        final(cache).wf(),
        forall|kid: Seq<char>| final(cache).key_for(kid) == latest(entries@, kid),
{
    let mut fresh = JwksCache::new();
    let mut i: usize = 0;
    while i < entries.len()
        invariant
            i <= entries@.len(),
            fresh.wf(),
            forall|kid: Seq<char>| fresh.key_for(kid) == latest(entries@.subrange(0, i as int), kid),
        decreases entries@.len() - i,
    {
        let entry = &entries[i];
        proof {
            assert(entries@.subrange(0, i + 1).drop_last() =~= entries@.subrange(0, i as int));
            assert(entries@.subrange(0, i + 1).last() == entries@[i as int]);
        }
        match (&entry.kid, &entry.n, &entry.e) {
            (Some(kid), Some(n), Some(e)) => {
                fresh.put(kid.clone(), RsaKey { n: n.clone(), e: e.clone() });
            },
            _ => {},
        }
        i = i + 1;
    }
    proof {
        assert(entries@.subrange(0, entries@.len() as int) =~= entries@);
    }
    *cache = fresh;
}

} // verus!
