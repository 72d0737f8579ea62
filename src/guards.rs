//! Permission guards: boolean requirements over a context's role and
//! permission keys, failing closed when there is no context.

use vstd::prelude::*;
use crate::context::AuthContext;

verus! {

/// A requirement on the role and permission keys of a context.
pub enum Requirement {
    Role(String),
    Permission(String),
    All(Box<Requirement>, Box<Requirement>),
    Any(Box<Requirement>, Box<Requirement>),
}

/// What a guard decides for a request.
#[derive(PartialEq, Eq, Structural, Debug, Clone, Copy)]
pub enum GuardDecision {
    Allow,
    /// No context was attached: 401.
    Unauthenticated,
    /// The context does not meet the requirement: 403.
    Forbidden,
}

/// Whether `ctx` meets `req`.
pub open spec fn meets(ctx: AuthContext, req: Requirement) -> bool
    decreases req,
{
    match req {
        Requirement::Role(r) => ctx.role_keys().contains(r@),
        Requirement::Permission(p) => ctx.permission_keys().contains(p@),
        Requirement::All(a, b) => meets(ctx, *a) && meets(ctx, *b),
        Requirement::Any(a, b) => meets(ctx, *a) || meets(ctx, *b),
    }
}

/// What a guard with `req` decides for a request whose context is `ctx`.
pub open spec fn decision(ctx: Option<AuthContext>, req: Requirement) -> GuardDecision {
    match ctx {
        None => GuardDecision::Unauthenticated,
        Some(c) => if meets(c, req) {
            GuardDecision::Allow
        } else {
            GuardDecision::Forbidden
        },
    }
}

/// Two guards one after the other: the first refusal stands.
pub open spec fn in_sequence(first: GuardDecision, second: GuardDecision) -> GuardDecision {
    if first == GuardDecision::Allow {
        second
    } else {
        first
    }
}

/// The permission key that administrative routes require.
pub open spec fn admin_permission() -> Seq<char> {
    seq!['r', 'o', 'l', 'e', 's', '.', 'a', 's', 's', 'i', 'g', 'n']
}

/// The role key of administrators.
pub open spec fn admin_role() -> Seq<char> {
    seq!['a', 'd', 'm', 'i', 'n']
}

impl GuardDecision {
    /// The HTTP status of the decision.
    pub fn status(&self) -> (r: u16)
        ensures
            r == match self {
                GuardDecision::Allow => 200u16,
                GuardDecision::Unauthenticated => 401u16,
                GuardDecision::Forbidden => 403u16,
            },
    {
        match self {
            GuardDecision::Allow => 200,
            GuardDecision::Unauthenticated => 401,
            GuardDecision::Forbidden => 403,
        }
    }
}

/// Whether `ctx` meets `req`.
pub fn evaluate(ctx: &AuthContext, req: &Requirement) -> (r: bool)
    ensures
        r == meets(*ctx, *req),
    decreases req,
{
    match req {
        Requirement::Role(r) => ctx.has_role(r.as_str()),
        Requirement::Permission(p) => ctx.has_perm(p.as_str()),
        Requirement::All(a, b) => evaluate(ctx, a) && evaluate(ctx, b),
        Requirement::Any(a, b) => evaluate(ctx, a) || evaluate(ctx, b),
    }
}

/// Decides a request against `req`. Without a context the request is
/// unauthenticated, whatever `req` says.
pub fn require(ctx: Option<&AuthContext>, req: &Requirement) -> (r: GuardDecision)
    ensures
        r == decision(
            match ctx {
                Some(c) => Some(*c),
                None => None,
            },
            *req,
        ),
{
    match ctx {
        None => GuardDecision::Unauthenticated,
        Some(c) => if evaluate(c, req) {
            GuardDecision::Allow
        } else {
            GuardDecision::Forbidden
        },
    }
}

/// The requirement of administrative routes: the `admin` role or the
/// `roles.assign` permission.
pub fn admin_requirement() -> (r: Requirement)
    ensures
        r matches Requirement::Any(a, b) && *a matches Requirement::Role(role) && *b matches Requirement::Permission(
            perm,
        ) && role@ == admin_role() && perm@ == admin_permission(),
{
    proof {
        reveal_strlit("admin");
        reveal_strlit("roles.assign");
        assert("admin"@ =~= admin_role());
        assert("roles.assign"@ =~= admin_permission());
    }
    Requirement::Any(
        Box::new(Requirement::Role("admin".to_owned())),
        Box::new(Requirement::Permission("roles.assign".to_owned())),
    )
}

/// The status of the administrative check for `ctx`.
pub open spec fn admin_status(ctx: AuthContext) -> u16 {
    if ctx.permission_keys().contains(admin_permission()) {
        200
    } else {
        403
    }
}

/// The status of the administrative check: 200 with the `roles.assign`
/// permission, else 403.
pub fn admin_only(ctx: &AuthContext) -> (r: u16)
    ensures
        r == admin_status(*ctx),
{
    proof {
        reveal_strlit("roles.assign");
        assert("roles.assign"@ =~= admin_permission());
    }
    if !ctx.has_perm("roles.assign") {
        return 403;
    }
    200
}

/// Applying two guards one after the other decides as one guard that
/// requires both, in either order.
pub proof fn lemma_guards_compose(ctx: Option<AuthContext>, p: Requirement, q: Requirement)
    ensures
        in_sequence(decision(ctx, p), decision(ctx, q)) == decision(
            ctx,
            Requirement::All(Box::new(p), Box::new(q)),
        ),
        in_sequence(decision(ctx, p), decision(ctx, q)) == in_sequence(decision(ctx, q), decision(ctx, p)),
{
}

} // verus!
