//! Composition of the stages per route group, and the run of a request
//! through them.

use vstd::prelude::*;
use crate::error::{AuthError, status_of};
use crate::guard::{authorize, authorize_outcome};
use crate::identity::{Identity, start_outcome};
use crate::claims::ClaimsView;
use crate::text::starts_with_seq;
use crate::token::{bearer_prefix, local_outcome};
use crate::role::Role;

verus! {

/// A set of routes that share one stack of guards.
#[derive(Clone, Copy, Debug, PartialEq, Eq, Structural)]
pub enum RouteGroup {
    /// Observation only.
    Public,
    /// Observation, then authentication.
    Authenticated,
    /// Observation, authentication, then authorization for `Admin`.
    Admin,
}

/// A stage of the pipeline, outermost first.
#[derive(Clone, Copy, Debug, PartialEq, Eq, Structural)]
pub enum Stage {
    Observe,
    Authenticate,
    Authorize(Role),
    Handler,
}

/// The guard stages of a route group, outermost first; the handler follows
/// them.
pub open spec fn stages_of(g: RouteGroup) -> Seq<Stage> {
    match g {
        RouteGroup::Public => seq![Stage::Observe],
        RouteGroup::Authenticated => seq![Stage::Observe, Stage::Authenticate],
        RouteGroup::Admin => seq![Stage::Observe, Stage::Authenticate, Stage::Authorize(Role::Admin)],
    }
}

/// What the pipeline decided for a request.
#[derive(Clone, Debug, PartialEq, Eq)]
pub enum Decision {
    /// Call the handler, with the identity attached to the request, if any.
    Invoke(Option<Identity>),
    /// Answer with the error's status and body; no inner stage runs.
    Reject(AuthError),
}

/// The decision for a request, and the stages entered, in order.
#[derive(Clone, Debug, PartialEq, Eq)]
pub struct Dispatch {
    pub decision: Decision,
    pub entered: Vec<Stage>,
}

/// One stage applied to the attached identity: the identity attached after
/// it, or the error that stops the request there.
pub open spec fn step_outcome(st: Stage, auth: Result<Identity, AuthError>, attached: Option<Identity>) -> Result<Option<Identity>, AuthError> {
    match st {
        Stage::Authenticate => match auth {
            Ok(i) => Ok(Some(i)),
            Err(e) => Err(e),
        },
        Stage::Authorize(r) => match authorize_outcome(attached, r) {
            Ok(_) => Ok(attached),
            Err(e) => Err(e),
        },
        _ => Ok(attached),
    }
}

/// The run of the stages `s` with the authentication result `auth` and the
/// identity attached so far: the decision and the stages entered.
pub open spec fn run_stages(s: Seq<Stage>, auth: Result<Identity, AuthError>, attached: Option<Identity>) -> (Decision, Seq<Stage>)
    decreases s.len(),
{
    if s.len() == 0 {
        (Decision::Invoke(attached), seq![Stage::Handler])
    } else {
        match step_outcome(s[0], auth, attached) {
            Err(e) => (Decision::Reject(e), seq![s[0]]),
            Ok(a) => {
                let rest = run_stages(s.drop_first(), auth, a);
                (rest.0, seq![s[0]] + rest.1)
            },
        }
    }
}

impl RouteGroup {
    /// The guard stages of the group, outermost first.
    pub fn stages(&self) -> (r: Vec<Stage>)
        ensures
            r@ == stages_of(*self),
    {
        let mut v: Vec<Stage> = Vec::new();
        v.push(Stage::Observe);
        match self {
            RouteGroup::Public => {},
            RouteGroup::Authenticated => {
                v.push(Stage::Authenticate);
            },
            RouteGroup::Admin => {
                v.push(Stage::Authenticate);
                v.push(Stage::Authorize(Role::Admin));
            },
        }
        assert(v@ =~= stages_of(*self));
        v
    }

    /// Whether requests of the group must be authenticated.
    pub fn requires_authentication(&self) -> (r: bool)
        ensures
            r == stages_of(*self).contains(Stage::Authenticate),
    {
        match self {
            RouteGroup::Public => {
                assert(!stages_of(*self).contains(Stage::Authenticate)) by {
                    assert(stages_of(*self)[0] != Stage::Authenticate);
                }
                false
            },
            RouteGroup::Authenticated => {
                assert(stages_of(*self)[1] == Stage::Authenticate);
                true
            },
            RouteGroup::Admin => {
                assert(stages_of(*self)[1] == Stage::Authenticate);
                true
            },
        }
    }
}

/// Runs a request of `group` through its stages, outermost first, and then
/// the handler. `auth` is the result of authenticating the request; only an
/// `Authenticate` stage reads it. A stage that fails stops the run there:
/// no inner stage and no handler is entered.
pub fn dispatch(group: RouteGroup, auth: Result<Identity, AuthError>) -> (r: Dispatch)
    ensures
        (r.decision, r.entered@) == run_stages(stages_of(group), auth, None),
{
    let stages = group.stages();
    let ghost s = stages@;
    let mut attached: Option<Identity> = None;
    let mut entered: Vec<Stage> = Vec::new();
    let mut i: usize = 0;
    assert(s.skip(0) =~= s);
    assert(entered@ + run_stages(s, auth, None).1 =~= run_stages(s, auth, None).1);
    while i < stages.len()
        invariant
            s == stages@,
            s == stages_of(group),
            i <= s.len(),
            run_stages(s, auth, None) == ({
                let rest = run_stages(s.skip(i as int), auth, attached);
                (rest.0, entered@ + rest.1)
            }),
        decreases s.len() - i,
    {
        let st = stages[i];
        assert(s.skip(i as int)[0] == st);
        assert(s.skip(i as int).drop_first() =~= s.skip(i + 1));
        entered.push(st);
        match st {
            Stage::Authenticate => {
                match &auth {
                    Ok(id) => {
                        attached = Some(id.duplicate());
                    },
                    Err(e) => {
                        return Dispatch { decision: Decision::Reject(*e), entered };
                    },
                }
            },
            Stage::Authorize(role) => {
                match authorize(attached.as_ref(), role) {
                    Ok(()) => {},
                    Err(e) => {
                        return Dispatch { decision: Decision::Reject(e), entered };
                    },
                }
            },
            _ => {},
        }
        i = i + 1;
    }
    assert(s.skip(i as int) =~= Seq::<Stage>::empty());
    entered.push(Stage::Handler);
    Dispatch { decision: Decision::Invoke(attached), entered }
}

/// In every route group, for every authentication result, an
/// authorization stage is entered only after an authentication stage, and
/// only when authentication attached an identity.
pub proof fn lemma_authorization_follows_authentication(g: RouteGroup, auth: Result<Identity, AuthError>)
    ensures
        forall|j: int|
            #![trigger run_stages(stages_of(g), auth, None).1[j]]
            0 <= j < run_stages(stages_of(g), auth, None).1.len()
                && run_stages(stages_of(g), auth, None).1[j] is Authorize ==> auth is Ok && exists|i: int|
                0 <= i < j && run_stages(stages_of(g), auth, None).1[i] == Stage::Authenticate,
{
    reveal_with_fuel(run_stages, 5);
    let s = stages_of(g);
    match g {
        RouteGroup::Public => {
            assert(s.drop_first() =~= Seq::<Stage>::empty());
        },
        RouteGroup::Authenticated => {
            assert(s.drop_first().drop_first() =~= Seq::<Stage>::empty());
        },
        RouteGroup::Admin => {
            assert(s.drop_first().drop_first().drop_first() =~= Seq::<Stage>::empty());
        },
    }
    let t = run_stages(s, auth, None).1;
    assert forall|j: int|
        0 <= j < t.len() && t[j] is Authorize implies auth is Ok && exists|i: int|
            0 <= i < j && t[i] == Stage::Authenticate by {
        assert(t[1] == Stage::Authenticate);
    }
}

/// A request to an authenticating route whose `Authorization` header does
/// not start with `Bearer ` (or is absent) is rejected as
/// `MalformedAuthHeader`, shown as 401, whatever the secret and the time:
/// the signature check is never consulted, and no inner stage is entered.
pub proof fn lemma_unframed_header_rejected(h: Option<Seq<char>>, secret: Seq<u8>, now: u64, g: RouteGroup)
    requires
        h matches Some(s) ==> !starts_with_seq(s, bearer_prefix()),
        g != RouteGroup::Public,
    ensures
        local_outcome(h, secret, now) == Err::<ClaimsView, AuthError>(AuthError::MalformedAuthHeader),
        start_outcome(h, secret, now) == Err::<(ClaimsView, u128), AuthError>(AuthError::MalformedAuthHeader),
        status_of(AuthError::MalformedAuthHeader) == 401,
        run_stages(stages_of(g), Err(AuthError::MalformedAuthHeader), None) == (
            Decision::Reject(AuthError::MalformedAuthHeader),
            seq![Stage::Observe, Stage::Authenticate],
        ),
{
    reveal_with_fuel(run_stages, 3);
    let s = stages_of(g);
    assert(s.drop_first()[0] == Stage::Authenticate);
    assert(seq![s[0]] + seq![s.drop_first()[0]] =~= seq![Stage::Observe, Stage::Authenticate]);
}

/// A request to an admin route whose authenticated identity is not `Admin`
/// is rejected as `Forbidden` (403), and its handler is never entered.
pub proof fn lemma_non_admin_refused(i: Identity)
    requires
        i.role != Role::Admin,
    ensures
        run_stages(stages_of(RouteGroup::Admin), Ok(i), None).0 == Decision::Reject(AuthError::Forbidden),
        status_of(AuthError::Forbidden) == 403,
        !run_stages(stages_of(RouteGroup::Admin), Ok(i), None).1.contains(Stage::Handler),
{
    reveal_with_fuel(run_stages, 5);
    let s = stages_of(RouteGroup::Admin);
    assert(s.drop_first().drop_first().drop_first() =~= Seq::<Stage>::empty());
    let t = run_stages(s, Ok(i), None).1;
    assert(t =~= s);
}

} // verus!
