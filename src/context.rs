//! The per-request authorization context: a user, its role keys and its
//! permission keys.

use vstd::prelude::*;

verus! {

/// Whether some element of `v` has the text `k`.
pub open spec fn contains_key(v: Seq<String>, k: Seq<char>) -> bool {
    exists|i: int| 0 <= i < v.len() && v[i]@ == k
}

/// No two elements of `v` have the same text.
pub open spec fn distinct_keys(v: Seq<String>) -> bool {
    forall|i: int, j: int| 0 <= i < v.len() && 0 <= j < v.len() && i != j ==> v[i]@ != v[j]@
}

/// The texts of the elements of `v`, as a set.
pub open spec fn key_set(v: Seq<String>) -> Set<Seq<char>> {
    Set::new(|k: Seq<char>| contains_key(v, k))
}

/// Who is making a request and what they may do. Permission keys are
/// distinct, as in a set.
#[derive(Clone, Debug)]
pub struct AuthContext {
    pub user_id: u128,
    pub roles: Vec<String>,
    pub permissions: Vec<String>,
}

/// Whether `v` holds an element with the same text as `k`.
pub fn vec_contains_key(v: &Vec<String>, k: &str) -> (r: bool)
    ensures
        r == contains_key(v@, k@),
{
    let target = k.to_owned();
    let mut i: usize = 0;
    while i < v.len()
        invariant
            i <= v@.len(),
            target@ == k@,
            forall|j: int| 0 <= j < i ==> v@[j]@ != k@,
        decreases v@.len() - i,
    {
        if v[i] == target {
            return true;
        }
        i = i + 1;
    }
    false
}

/// Appends `s` to `v` unless `v` already holds the same text.
pub fn push_unique(v: &mut Vec<String>, s: String)
    requires
        distinct_keys(old(v)@),
    ensures
        distinct_keys(final(v)@),
        forall|k: Seq<char>| contains_key(final(v)@, k) <==> (contains_key(old(v)@, k) || k == s@),
{
    let mut i: usize = 0;
    while i < v.len()
        invariant
            i <= v@.len(),
            v@ == old(v)@,
            distinct_keys(old(v)@),
            forall|j: int| 0 <= j < i ==> v@[j]@ != s@,
        decreases v@.len() - i,
    {
        if v[i] == s {
            return;
        }
        i = i + 1;
    }
    let ghost before = v@;
    v.push(s);
    proof {
        assert forall|k: Seq<char>| contains_key(v@, k) <==> (contains_key(before, k) || k == s@) by {
            if contains_key(before, k) {
                let j = choose|j: int| 0 <= j < before.len() && before[j]@ == k;
                assert(v@[j] == before[j]);
            }
            if k == s@ {
                assert(v@[before.len() as int]@ == k);
            }
            if contains_key(v@, k) {
                let j = choose|j: int| 0 <= j < v@.len() && v@[j]@ == k;
                if j < before.len() {
                    assert(v@[j] == before[j]);
                }
            }
        }
    }
}

impl AuthContext {
    pub open spec fn role_keys(&self) -> Set<Seq<char>> {
        key_set(self.roles@)
    }

    pub open spec fn permission_keys(&self) -> Set<Seq<char>> {
        key_set(self.permissions@)
    }

    /// Permission keys appear once each.
    pub open spec fn wf(&self) -> bool {
        distinct_keys(self.permissions@)
    }

    /// Whether the user holds the role with key `r`.
    pub fn has_role(&self, r: &str) -> (b: bool)
        ensures
            b == self.role_keys().contains(r@),
    {
        vec_contains_key(&self.roles, r)
    }

    /// Whether the user holds the permission with key `p`.
    pub fn has_perm(&self, p: &str) -> (b: bool)
        ensures
            b == self.permission_keys().contains(p@),
    {
        vec_contains_key(&self.permissions, p)
    }
}

} // verus!
