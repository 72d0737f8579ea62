//! Local user records, materialised on first authentication through an
//! external identity.

use vstd::prelude::*;

verus! {

/// A local user. `auth0_id` is the external identity it was created for.
pub struct User {
    pub id: u128,
    pub auth0_id: String,
    pub email: Option<String>,
}

/// The users table.
pub struct UserStore {
    pub users: Vec<User>,
}

impl UserStore {
    /// Ids are unique, and so are external identities.
    pub open spec fn wf(&self) -> bool {
        forall|i: int, j: int|
            0 <= i < self.users@.len() && 0 <= j < self.users@.len() && i != j ==> self.users@[i].id
                != self.users@[j].id && self.users@[i].auth0_id@ != self.users@[j].auth0_id@
    }

    /// The id of the user created for `external_id`, if there is one.
    pub open spec fn user_for(&self, external_id: Seq<char>) -> Option<u128> {
        if exists|i: int| 0 <= i < self.users@.len() && self.users@[i].auth0_id@ == external_id {
            Some(
                self.users@[choose|i: int|
                    0 <= i < self.users@.len() && self.users@[i].auth0_id@ == external_id].id,
            )
        } else {
            None
        }
    }

    pub open spec fn id_taken(&self, id: u128) -> bool {
        exists|i: int| 0 <= i < self.users@.len() && self.users@[i].id == id
    }

    /// An empty table.
    pub fn new() -> (r: UserStore)
        ensures
            r.wf(),
            r.users@.len() == 0,
    {
        UserStore { users: Vec::new() }
    }
}

/// Relies on uuid's `Uuid::new_v4` and `Uuid::as_u128`: a random version 4
/// UUID as an integer. Nothing is said of its value.
#[verifier::external_body]
fn random_uuid() -> (r: u128) {
    uuid::Uuid::new_v4().as_u128()
}

/// The id of the user for `external_id`; when there is none, a user with id
/// `fresh_id` is created for it. `None` only when a user must be created and
/// `fresh_id` is already taken.
pub fn find_or_create_with(store: &mut UserStore, external_id: &str, email: Option<String>, fresh_id: u128) -> (r:
    Option<u128>)
    requires
        old(store).wf(),
    ensures
        final(store).wf(),
        match old(store).user_for(external_id@) {
            Some(id) => r == Some(id) && final(store).users@ == old(store).users@,
            None => if old(store).id_taken(fresh_id) {
                r is None && final(store).users@ == old(store).users@
            } else {
                &&& r == Some(fresh_id)
                &&& final(store).users@.drop_last() == old(store).users@
                &&& final(store).users@.len() == old(store).users@.len() + 1
                &&& final(store).users@.last().id == fresh_id
                &&& final(store).users@.last().auth0_id@ == external_id@
                &&& final(store).users@.last().email == email
                &&& final(store).user_for(external_id@) == Some(fresh_id)
            },
        },
{
    let target = external_id.to_owned();
    let mut taken = false;
    let mut i: usize = 0;
    while i < store.users.len()
        invariant
            i <= store.users@.len(),
            store.users@ == old(store).users@,
            old(store).wf(),
            target@ == external_id@,
            forall|k: int| 0 <= k < i ==> store.users@[k].auth0_id@ != external_id@,
            taken <==> exists|k: int| 0 <= k < i && store.users@[k].id == fresh_id,
        decreases store.users@.len() - i,
    {
        if store.users[i].auth0_id == target {
            proof {
                let c = choose|k: int| 0 <= k < store.users@.len() && store.users@[k].auth0_id@ == external_id@;
                if c != i {
                    assert(store.users@[c].auth0_id@ != store.users@[i as int].auth0_id@);
                }
            }
            return Some(store.users[i].id);
        }
        if store.users[i].id == fresh_id {
            taken = true;
        }
        i = i + 1;
    }
    if taken {
        return None;
    }
    store.users.push(User { id: fresh_id, auth0_id: target, email });
    proof {
        let n = old(store).users@.len() as int;
        assert(store.users@.drop_last() =~= old(store).users@);
        assert forall|a: int, b: int|
            0 <= a < store.users@.len() && 0 <= b < store.users@.len() && a != b implies store.users@[a].id
                != store.users@[b].id && store.users@[a].auth0_id@ != store.users@[b].auth0_id@ by {
            if a < n {
                assert(store.users@[a] == old(store).users@[a]);
            }
            if b < n {
                assert(store.users@[b] == old(store).users@[b]);
            }
        }
        assert(store.users@[n].auth0_id@ == external_id@);
        let c = choose|k: int| 0 <= k < store.users@.len() && store.users@[k].auth0_id@ == external_id@;
        if c != n {
            assert(store.users@[c] == old(store).users@[c]);
        }
    }
    Some(fresh_id)
}

/// The id of the user for `external_id`, creating one under a random id when
/// there is none. `None` only when the random id is already taken, which
/// cannot happen on an empty table.
pub fn find_or_create(store: &mut UserStore, external_id: &str, email: Option<String>) -> (r: Option<u128>)
    requires
        old(store).wf(),
    ensures
        final(store).wf(),
        old(store).user_for(external_id@) matches Some(id) ==> r == Some(id) && final(store).users@ == old(
            store,
        ).users@,
        r matches Some(id) ==> final(store).user_for(external_id@) == Some(id),
        old(store).users@.len() == 0 ==> r is Some,
{
    let fresh_id = random_uuid();
    find_or_create_with(store, external_id, email, fresh_id)
}

} // verus!
