//! Roles, permissions and their links to users; resolution of a user's
//! authorization context; idempotent role assignment.

use vstd::prelude::*;
use crate::context::{AuthContext, contains_key, distinct_keys, push_unique};

verus! {

/// A named permission bundle.
pub struct Role {
    pub id: u128,
    pub key: String,
    pub name: String,
}

/// A named capability.
pub struct Permission {
    pub id: u128,
    pub key: String,
}

/// Grants a permission to a role.
#[derive(PartialEq, Eq, Structural, Debug, Clone, Copy)]
pub struct RolePermission {
    pub role_id: u128,
    pub permission_id: u128,
}

/// Grants a role to a user, recording who assigned it.
#[derive(PartialEq, Eq, Structural, Debug, Clone, Copy)]
pub struct NewUserRole {
    pub user_id: u128,
    pub role_id: u128,
    pub assigned_by: Option<u128>,
}

/// One entry of the audit log. `metadata` holds key and value pairs.
pub struct AuditEvent {
    pub actor_id: Option<u128>,
    pub action: String,
    pub entity_type: String,
    pub entity_id: u128,
    pub metadata: Vec<(String, String)>,
}

/// The role, permission, link and audit tables.
pub struct RbacStore {
    pub roles: Vec<Role>,
    pub permissions: Vec<Permission>,
    pub role_permissions: Vec<RolePermission>,
    pub user_roles: Vec<NewUserRole>,
    pub audit_log: Vec<AuditEvent>,
}

/// Why a role could not be assigned.
#[derive(PartialEq, Eq, Structural, Debug, Clone, Copy)]
pub enum AssignRoleError {
    /// The acting user lacks the `roles.assign` permission.
    Forbidden,
    /// No role has the requested key.
    UnknownRole,
}

/// The permission that role assignment requires.
pub open spec fn roles_assign_key() -> Seq<char> {
    seq!['r', 'o', 'l', 'e', 's', '.', 'a', 's', 's', 'i', 'g', 'n']
}

/// Whether `rows` links `user_id` to `role_id`.
pub open spec fn has_link(rows: Seq<NewUserRole>, user_id: u128, role_id: u128) -> bool {
    exists|i: int| 0 <= i < rows.len() && rows[i].user_id == user_id && rows[i].role_id == role_id
}

/// Exactly one row of `rows` links `user_id` to `role_id`.
pub open spec fn single_link(rows: Seq<NewUserRole>, user_id: u128, role_id: u128) -> bool {
    exists|i: int|
        0 <= i < rows.len() && rows[i].user_id == user_id && rows[i].role_id == role_id && forall|j: int|
            0 <= j < rows.len() && rows[j].user_id == user_id && rows[j].role_id == role_id ==> j == i
}

impl RbacStore {
    /// Role keys are unique, and no (user, role) pair is linked twice.
    pub open spec fn wf(&self) -> bool {
        &&& forall|i: int, j: int|
            0 <= i < self.roles@.len() && 0 <= j < self.roles@.len() && i != j ==> self.roles@[i].key@
                != self.roles@[j].key@
        &&& forall|i: int, j: int|
            0 <= i < self.user_roles@.len() && 0 <= j < self.user_roles@.len() && i != j ==> !(
            self.user_roles@[i].user_id == self.user_roles@[j].user_id && self.user_roles@[i].role_id
                == self.user_roles@[j].role_id)
    }

    /// Role `role_id` has key `k`.
    pub open spec fn role_has_key(&self, role_id: u128, k: Seq<char>) -> bool {
        exists|j: int| 0 <= j < self.roles@.len() && self.roles@[j].id == role_id && self.roles@[j].key@ == k
    }

    /// Role `role_id` grants the permission with key `k`.
    pub open spec fn role_grants(&self, role_id: u128, k: Seq<char>) -> bool {
        exists|a: int, b: int|
            0 <= a < self.role_permissions@.len() && 0 <= b < self.permissions@.len()
                && self.role_permissions@[a].role_id == role_id && self.permissions@[b].id
                == self.role_permissions@[a].permission_id && self.permissions@[b].key@ == k
    }

    /// The keys of the roles linked to `user_id`.
    pub open spec fn user_role_keys(&self, user_id: u128) -> Set<Seq<char>> {
        Set::new(
            |k: Seq<char>|
                exists|i: int|
                    0 <= i < self.user_roles@.len() && self.user_roles@[i].user_id == user_id
                        && self.role_has_key(self.user_roles@[i].role_id, k),
        )
    }

    /// The keys of the permissions that any role linked to `user_id` grants.
    pub open spec fn user_permission_keys(&self, user_id: u128) -> Set<Seq<char>> {
        Set::new(
            |k: Seq<char>|
                exists|i: int|
                    0 <= i < self.user_roles@.len() && self.user_roles@[i].user_id == user_id
                        && self.role_grants(self.user_roles@[i].role_id, k),
        )
    }

    /// The id of the role with key `k`, if there is one.
    pub open spec fn role_id_for(&self, k: Seq<char>) -> Option<u128> {
        if exists|j: int| 0 <= j < self.roles@.len() && self.roles@[j].key@ == k {
            Some(self.roles@[choose|j: int| 0 <= j < self.roles@.len() && self.roles@[j].key@ == k].id)
        } else {
            None
        }
    }

    /// Empty tables.
    pub fn new() -> (r: RbacStore)
        ensures
            r.wf(),
            r.roles@.len() == 0,
            r.permissions@.len() == 0,
            r.role_permissions@.len() == 0,
            r.user_roles@.len() == 0,
            r.audit_log@.len() == 0,
    {
        RbacStore {
            roles: Vec::new(),
            permissions: Vec::new(),
            role_permissions: Vec::new(),
            user_roles: Vec::new(),
            audit_log: Vec::new(),
        }
    }
}

/// Adds to `out` the key of every role with id `role_id`.
fn add_role_keys(store: &RbacStore, role_id: u128, out: &mut Vec<String>)
    requires
        distinct_keys(old(out)@),
    ensures
        distinct_keys(final(out)@),
        forall|k: Seq<char>|
            contains_key(final(out)@, k) <==> (contains_key(old(out)@, k) || store.role_has_key(role_id, k)),
{
    let mut j: usize = 0;
    while j < store.roles.len()
        invariant
            j <= store.roles@.len(),
            distinct_keys(out@),
            forall|k: Seq<char>|
                contains_key(out@, k) <==> (contains_key(old(out)@, k) || exists|m: int|
                    0 <= m < j && store.roles@[m].id == role_id && store.roles@[m].key@ == k),
        decreases store.roles@.len() - j,
    {
        if store.roles[j].id == role_id {
            push_unique(out, store.roles[j].key.clone());
        }
        j = j + 1;
    }
}

/// Adds to `out` the key of every permission with id `permission_id`.
fn add_permission_keys(store: &RbacStore, permission_id: u128, out: &mut Vec<String>)
    requires
        distinct_keys(old(out)@),
    ensures
        distinct_keys(final(out)@),
        forall|k: Seq<char>|
            contains_key(final(out)@, k) <==> (contains_key(old(out)@, k) || exists|b: int|
                0 <= b < store.permissions@.len() && store.permissions@[b].id == permission_id
                    && store.permissions@[b].key@ == k),
{
    let mut b: usize = 0;
    while b < store.permissions.len()
        invariant
            b <= store.permissions@.len(),
            distinct_keys(out@),
            forall|k: Seq<char>|
                contains_key(out@, k) <==> (contains_key(old(out)@, k) || exists|m: int|
                    0 <= m < b && store.permissions@[m].id == permission_id && store.permissions@[m].key@ == k),
        decreases store.permissions@.len() - b,
    {
        if store.permissions[b].id == permission_id {
            push_unique(out, store.permissions[b].key.clone());
        }
        b = b + 1;
    }
}

/// Adds to `out` the key of every permission that role `role_id` grants.
fn add_granted_keys(store: &RbacStore, role_id: u128, out: &mut Vec<String>)
    requires
        distinct_keys(old(out)@),
    ensures
        distinct_keys(final(out)@),
        forall|k: Seq<char>|
            contains_key(final(out)@, k) <==> (contains_key(old(out)@, k) || store.role_grants(role_id, k)),
{
    let mut a: usize = 0;
    while a < store.role_permissions.len()
        invariant
            a <= store.role_permissions@.len(),
            distinct_keys(out@),
            forall|k: Seq<char>|
                contains_key(out@, k) <==> (contains_key(old(out)@, k) || exists|m: int, b: int|
                    0 <= m < a && 0 <= b < store.permissions@.len() && store.role_permissions@[m].role_id
                        == role_id && store.permissions@[b].id == store.role_permissions@[m].permission_id
                        && store.permissions@[b].key@ == k),
        decreases store.role_permissions@.len() - a,
    {
        let link = store.role_permissions[a];
        if link.role_id == role_id {
            let ghost before = out@;
            add_permission_keys(store, link.permission_id, out);
            proof {
                assert forall|k: Seq<char>|
                    contains_key(out@, k) <==> (contains_key(old(out)@, k) || exists|m: int, b: int|
                        0 <= m < a + 1 && 0 <= b < store.permissions@.len()
                            && store.role_permissions@[m].role_id == role_id && store.permissions@[b].id
                            == store.role_permissions@[m].permission_id && store.permissions@[b].key@
                            == k) by {
                    if exists|b: int|
                        0 <= b < store.permissions@.len() && store.permissions@[b].id == link.permission_id
                            && store.permissions@[b].key@ == k {
                        let b = choose|b: int|
                            0 <= b < store.permissions@.len() && store.permissions@[b].id
                                == link.permission_id && store.permissions@[b].key@ == k;
                        assert(store.role_permissions@[a as int] == link);
                    }
                    if exists|m: int, b: int|
                        0 <= m < a + 1 && 0 <= b < store.permissions@.len()
                            && store.role_permissions@[m].role_id == role_id && store.permissions@[b].id
                            == store.role_permissions@[m].permission_id && store.permissions@[b].key@ == k {
                        let (m, b) = choose|m: int, b: int|
                            0 <= m < a + 1 && 0 <= b < store.permissions@.len()
                                && store.role_permissions@[m].role_id == role_id && store.permissions@[b].id
                                == store.role_permissions@[m].permission_id && store.permissions@[b].key@
                                == k;
                        if m == a {
                            assert(store.role_permissions@[m] == link);
                        }
                    }
                }
            }
        }
        a = a + 1;
    }
}

/// The authorization context of `user_id`: the keys of its roles and the
/// keys of every permission any of them grants, each key once. A user with
/// no roles gets empty sets.
pub fn load_auth_context(store: &RbacStore, uid: u128) -> (r: AuthContext)
    ensures
        r.user_id == uid,
        r.wf(),
        distinct_keys(r.roles@),
        r.role_keys() == store.user_role_keys(uid),
        r.permission_keys() == store.user_permission_keys(uid),
{
    let mut role_keys: Vec<String> = Vec::new();
    let mut perm_keys: Vec<String> = Vec::new();
    let mut i: usize = 0;
    while i < store.user_roles.len()
        invariant
            i <= store.user_roles@.len(),
            distinct_keys(role_keys@),
            distinct_keys(perm_keys@),
            forall|k: Seq<char>|
                contains_key(role_keys@, k) <==> exists|m: int|
                    0 <= m < i && store.user_roles@[m].user_id == uid && store.role_has_key(
                        store.user_roles@[m].role_id,
                        k,
                    ),
            forall|k: Seq<char>|
                contains_key(perm_keys@, k) <==> exists|m: int|
                    0 <= m < i && store.user_roles@[m].user_id == uid && store.role_grants(
                        store.user_roles@[m].role_id,
                        k,
                    ),
        decreases store.user_roles@.len() - i,
    {
        let link = store.user_roles[i];
        if link.user_id == uid {
            let ghost roles_before = role_keys@;
            let ghost perms_before = perm_keys@;
            add_role_keys(store, link.role_id, &mut role_keys);
            add_granted_keys(store, link.role_id, &mut perm_keys);
            proof {
                assert(store.user_roles@[i as int] == link);
                assert forall|k: Seq<char>|
                    contains_key(role_keys@, k) <==> exists|m: int|
                        0 <= m < i + 1 && store.user_roles@[m].user_id == uid && store.role_has_key(
                            store.user_roles@[m].role_id,
                            k,
                        ) by {
                    if store.role_has_key(link.role_id, k) {
                        assert(0 <= i < i + 1 && store.user_roles@[i as int].user_id == uid);
                    }
                    if contains_key(roles_before, k) {
                        let m = choose|m: int|
                            0 <= m < i && store.user_roles@[m].user_id == uid && store.role_has_key(
                                store.user_roles@[m].role_id,
                                k,
                            );
                        assert(0 <= m < i + 1);
                    }
                    if exists|m: int|
                        0 <= m < i + 1 && store.user_roles@[m].user_id == uid && store.role_has_key(
                            store.user_roles@[m].role_id,
                            k,
                        ) {
                        let m = choose|m: int|
                            0 <= m < i + 1 && store.user_roles@[m].user_id == uid && store.role_has_key(
                                store.user_roles@[m].role_id,
                                k,
                            );
                        if m < i {
                            assert(contains_key(roles_before, k));
                        }
                    }
                }
                assert forall|k: Seq<char>|
                    contains_key(perm_keys@, k) <==> exists|m: int|
                        0 <= m < i + 1 && store.user_roles@[m].user_id == uid && store.role_grants(
                            store.user_roles@[m].role_id,
                            k,
                        ) by {
                    if store.role_grants(link.role_id, k) {
                        assert(0 <= i < i + 1 && store.user_roles@[i as int].user_id == uid);
                    }
                    if contains_key(perms_before, k) {
                        let m = choose|m: int|
                            0 <= m < i && store.user_roles@[m].user_id == uid && store.role_grants(
                                store.user_roles@[m].role_id,
                                k,
                            );
                        assert(0 <= m < i + 1);
                    }
                    if exists|m: int|
                        0 <= m < i + 1 && store.user_roles@[m].user_id == uid && store.role_grants(
                            store.user_roles@[m].role_id,
                            k,
                        ) {
                        let m = choose|m: int|
                            0 <= m < i + 1 && store.user_roles@[m].user_id == uid && store.role_grants(
                                store.user_roles@[m].role_id,
                                k,
                            );
                        if m < i {
                            assert(contains_key(perms_before, k));
                        }
                    }
                }
            }
        } else {
            proof {
                assert forall|k: Seq<char>|
                    (exists|m: int|
                        0 <= m < i + 1 && store.user_roles@[m].user_id == uid && store.role_has_key(
                            store.user_roles@[m].role_id,
                            k,
                        )) implies contains_key(role_keys@, k) by {
                    if exists|m: int|
                        0 <= m < i + 1 && store.user_roles@[m].user_id == uid && store.role_has_key(
                            store.user_roles@[m].role_id,
                            k,
                        ) {
                        let m = choose|m: int|
                            0 <= m < i + 1 && store.user_roles@[m].user_id == uid && store.role_has_key(
                                store.user_roles@[m].role_id,
                                k,
                            );
                        assert(m < i);
                    }
                }
                assert forall|k: Seq<char>|
                    (exists|m: int|
                        0 <= m < i + 1 && store.user_roles@[m].user_id == uid && store.role_grants(
                            store.user_roles@[m].role_id,
                            k,
                        )) implies contains_key(perm_keys@, k) by {
                    if exists|m: int|
                        0 <= m < i + 1 && store.user_roles@[m].user_id == uid && store.role_grants(
                            store.user_roles@[m].role_id,
                            k,
                        ) {
                        let m = choose|m: int|
                            0 <= m < i + 1 && store.user_roles@[m].user_id == uid && store.role_grants(
                                store.user_roles@[m].role_id,
                                k,
                            );
                        assert(m < i);
                    }
                }
            }
        }
        i = i + 1;
    }
    let r = AuthContext { user_id: uid, roles: role_keys, permissions: perm_keys };
    assert(r.role_keys() =~= store.user_role_keys(uid));
    assert(r.permission_keys() =~= store.user_permission_keys(uid));
    r
}

/// The action recorded when a role is assigned.
pub open spec fn role_assign_action() -> Seq<char> {
    seq!['r', 'o', 'l', 'e', '.', 'a', 's', 's', 'i', 'g', 'n']
}

/// The entity type recorded when a role is assigned.
pub open spec fn user_entity() -> Seq<char> {
    seq!['u', 's', 'e', 'r']
}

/// The metadata key under which an assigned role's key is recorded.
pub open spec fn role_key_field() -> Seq<char> {
    seq!['r', 'o', 'l', 'e', '_', 'k', 'e', 'y']
}

/// The links after `user_id` was given role `role_id` by `actor`: unchanged
/// when the pair was linked already, else one row more.
pub open spec fn assigned(
    old_rows: Seq<NewUserRole>,
    new_rows: Seq<NewUserRole>,
    user_id: u128,
    role_id: u128,
    actor: u128,
) -> bool {
    if has_link(old_rows, user_id, role_id) {
        new_rows == old_rows
    } else {
        new_rows == old_rows.push(NewUserRole { user_id, role_id, assigned_by: Some(actor) })
    }
}

/// Appends an event to the audit log.
pub fn write_audit(
    store: &mut RbacStore,
    actor_id: Option<u128>,
    action: &str,
    entity_type: &str,
    entity_id: u128,
    metadata: Vec<(String, String)>,
)
    ensures
        final(store).roles@ == old(store).roles@,
        final(store).permissions@ == old(store).permissions@,
        final(store).role_permissions@ == old(store).role_permissions@,
        final(store).user_roles@ == old(store).user_roles@,
        final(store).audit_log@.drop_last() == old(store).audit_log@,
        final(store).audit_log@.len() == old(store).audit_log@.len() + 1,
        final(store).audit_log@.last().actor_id == actor_id,
        final(store).audit_log@.last().action@ == action@,
        final(store).audit_log@.last().entity_type@ == entity_type@,
        final(store).audit_log@.last().entity_id == entity_id,
        final(store).audit_log@.last().metadata@ == metadata@,
{
    let event = AuditEvent {
        actor_id,
        action: action.to_owned(),
        entity_type: entity_type.to_owned(),
        entity_id,
        metadata,
    };
    store.audit_log.push(event);
    assert(store.audit_log@.drop_last() =~= old(store).audit_log@);
}

/// The index of the role with key `key`, if any.
pub fn find_role_by_key(store: &RbacStore, key: &str) -> (r: Option<usize>)
    requires
        store.wf(),
    ensures
        match r {
            Some(j) => j < store.roles@.len() && store.roles@[j as int].key@ == key@ && store.role_id_for(key@)
                == Some(store.roles@[j as int].id),
            None => store.role_id_for(key@) is None,
        },
{
    let target = key.to_owned();
    let mut j: usize = 0;
    while j < store.roles.len()
        invariant
            j <= store.roles@.len(),
            store.wf(),
            target@ == key@,
            forall|m: int| 0 <= m < j ==> store.roles@[m].key@ != key@,
        decreases store.roles@.len() - j,
    {
        if store.roles[j].key == target {
            proof {
                assert(store.roles@[j as int].key@ == key@);
                let c = choose|m: int| 0 <= m < store.roles@.len() && store.roles@[m].key@ == key@;
                if c != j {
                    assert(store.roles@[c].key@ != store.roles@[j as int].key@);
                }
            }
            return Some(j);
        }
        j = j + 1;
    }
    None
}

/// Whether `user_id` is linked to `role_id`.
fn link_exists(store: &RbacStore, user_id: u128, role_id: u128) -> (r: bool)
    ensures
        r == has_link(store.user_roles@, user_id, role_id),
{
    let mut i: usize = 0;
    while i < store.user_roles.len()
        invariant
            i <= store.user_roles@.len(),
            forall|m: int|
                0 <= m < i ==> !(store.user_roles@[m].user_id == user_id && store.user_roles@[m].role_id
                    == role_id),
        decreases store.user_roles@.len() - i,
    {
        if store.user_roles[i].user_id == user_id && store.user_roles[i].role_id == role_id {
            return true;
        }
        i = i + 1;
    }
    false
}

/// Gives `user_id` the role with key `role_key`, acting as `ctx`, and records
/// the assignment in the audit log. Refused without the `roles.assign`
/// permission, or for an unknown key. Assigning a role the user already holds
/// adds no link and is no error.
pub fn assign_role(store: &mut RbacStore, ctx: &AuthContext, user_id: u128, role_key: &str) -> (r: Result<
    (),
    AssignRoleError,
>)
    requires
        old(store).wf(),
    ensures
        final(store).wf(),
        final(store).roles@ == old(store).roles@,
        final(store).permissions@ == old(store).permissions@,
        final(store).role_permissions@ == old(store).role_permissions@,
        r == Err::<(), AssignRoleError>(AssignRoleError::Forbidden) <==> !ctx.permission_keys().contains(
            roles_assign_key(),
        ),
        r == Err::<(), AssignRoleError>(AssignRoleError::UnknownRole) <==> (ctx.permission_keys().contains(
            roles_assign_key(),
        ) && old(store).role_id_for(role_key@) is None),
        r is Err ==> final(store).user_roles@ == old(store).user_roles@ && final(store).audit_log@ == old(
            store,
        ).audit_log@,
        r is Ok ==> {
            let role_id = old(store).role_id_for(role_key@)->Some_0;
            &&& assigned(old(store).user_roles@, final(store).user_roles@, user_id, role_id, ctx.user_id)
            &&& single_link(final(store).user_roles@, user_id, role_id)
            &&& final(store).audit_log@.drop_last() == old(store).audit_log@
            &&& final(store).audit_log@.len() == old(store).audit_log@.len() + 1
            &&& final(store).audit_log@.last().actor_id == Some(ctx.user_id)
            &&& final(store).audit_log@.last().action@ == role_assign_action()
            &&& final(store).audit_log@.last().entity_type@ == user_entity()
            &&& final(store).audit_log@.last().entity_id == user_id
            &&& final(store).audit_log@.last().metadata@.len() == 1
            &&& final(store).audit_log@.last().metadata@[0].0@ == role_key_field()
            &&& final(store).audit_log@.last().metadata@[0].1@ == role_key@
        },
{
    proof {
        reveal_strlit("roles.assign");
        reveal_strlit("role.assign");
        reveal_strlit("user");
        reveal_strlit("role_key");
        assert("roles.assign"@ =~= roles_assign_key());
        assert("role.assign"@ =~= role_assign_action());
        assert("user"@ =~= user_entity());
        assert("role_key"@ =~= role_key_field());
    }
    if !ctx.has_perm("roles.assign") {
        return Err(AssignRoleError::Forbidden);
    }
    let j = match find_role_by_key(store, role_key) {
        Some(j) => j,
        None => {
            return Err(AssignRoleError::UnknownRole);
        },
    };
    let role_id = store.roles[j].id;
    if !link_exists(store, user_id, role_id) {
        store.user_roles.push(NewUserRole { user_id, role_id, assigned_by: Some(ctx.user_id) });
        proof {
            let n = old(store).user_roles@.len() as int;
            assert forall|a: int, b: int|
                0 <= a < store.user_roles@.len() && 0 <= b < store.user_roles@.len() && a != b implies !(
                store.user_roles@[a].user_id == store.user_roles@[b].user_id
                    && store.user_roles@[a].role_id == store.user_roles@[b].role_id) by {
                if a < n && b < n {
                    assert(old(store).user_roles@[a] == store.user_roles@[a]);
                    assert(old(store).user_roles@[b] == store.user_roles@[b]);
                } else if a < n {
                    assert(old(store).user_roles@[a] == store.user_roles@[a]);
                } else {
                    assert(old(store).user_roles@[b] == store.user_roles@[b]);
                }
            }
            assert(store.user_roles@[n].user_id == user_id && store.user_roles@[n].role_id == role_id);
        }
    } else {
        proof {
            let i = choose|i: int|
                0 <= i < store.user_roles@.len() && store.user_roles@[i].user_id == user_id
                    && store.user_roles@[i].role_id == role_id;
            assert forall|b: int|
                0 <= b < store.user_roles@.len() && store.user_roles@[b].user_id == user_id
                    && store.user_roles@[b].role_id == role_id implies b == i by {}
        }
    }
    let mut metadata: Vec<(String, String)> = Vec::new();
    metadata.push(("role_key".to_owned(), role_key.to_owned()));
    write_audit(store, Some(ctx.user_id), "role.assign", "user", user_id, metadata);
    Ok(())
}

/// The keys of the permissions that role `role_id` grants.
pub open spec fn granted_by(store: RbacStore, role_id: u128) -> Set<Seq<char>> {
    Set::new(|k: Seq<char>| store.role_grants(role_id, k))
}

/// Assigning the same role to the same user twice leaves exactly one link
/// for the pair; the second assignment changes no link.
pub proof fn lemma_assign_twice_single_link(
    first: RbacStore,
    second: RbacStore,
    third: RbacStore,
    user_id: u128,
    role_id: u128,
    actor: u128,
    second_actor: u128,
)
    requires
        first.wf(),
        second.wf(),
        assigned(first.user_roles@, second.user_roles@, user_id, role_id, actor),
        assigned(second.user_roles@, third.user_roles@, user_id, role_id, second_actor),
    ensures
        third.user_roles@ == second.user_roles@,
        single_link(third.user_roles@, user_id, role_id),
{
    if has_link(first.user_roles@, user_id, role_id) {
        let i = choose|i: int|
            0 <= i < first.user_roles@.len() && first.user_roles@[i].user_id == user_id
                && first.user_roles@[i].role_id == role_id;
        assert(second.user_roles@[i] == first.user_roles@[i]);
    } else {
        let n = first.user_roles@.len() as int;
        assert(second.user_roles@[n].user_id == user_id && second.user_roles@[n].role_id == role_id);
    }
    let i = choose|i: int|
        0 <= i < second.user_roles@.len() && second.user_roles@[i].user_id == user_id
            && second.user_roles@[i].role_id == role_id;
    assert forall|j: int|
        0 <= j < third.user_roles@.len() && third.user_roles@[j].user_id == user_id
            && third.user_roles@[j].role_id == role_id implies j == i by {}
}

/// A user whose links are to roles `a` and `b` holds exactly the permissions
/// that `a` grants together with those that `b` grants.
pub proof fn lemma_permissions_union_of_roles(store: RbacStore, uid: u128, a: u128, b: u128)
    requires
        has_link(store.user_roles@, uid, a),
        has_link(store.user_roles@, uid, b),
        forall|i: int|
            0 <= i < store.user_roles@.len() && store.user_roles@[i].user_id == uid ==> (
            store.user_roles@[i].role_id == a || store.user_roles@[i].role_id == b),
    ensures
        store.user_permission_keys(uid) == granted_by(store, a).union(granted_by(store, b)),
{
    let ia = choose|i: int|
        0 <= i < store.user_roles@.len() && store.user_roles@[i].user_id == uid && store.user_roles@[i].role_id
            == a;
    let ib = choose|i: int|
        0 <= i < store.user_roles@.len() && store.user_roles@[i].user_id == uid && store.user_roles@[i].role_id
            == b;
    assert forall|k: Seq<char>|
        store.user_permission_keys(uid).contains(k) <==> granted_by(store, a).union(
            granted_by(store, b),
        ).contains(k) by {
        if store.role_grants(a, k) {
            assert(store.user_roles@[ia].user_id == uid && store.role_grants(store.user_roles@[ia].role_id, k));
        }
        if store.role_grants(b, k) {
            assert(store.user_roles@[ib].user_id == uid && store.role_grants(store.user_roles@[ib].role_id, k));
        }
    }
    assert(store.user_permission_keys(uid) =~= granted_by(store, a).union(granted_by(store, b)));
}

} // verus!
