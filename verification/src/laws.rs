//! The laws of the dispatcher, stated over the models that the contracts of
//! `table`, `auth` and `service` use, and proved once and for all: routing
//! over the management table is unambiguous, the version gate hides and
//! reveals routes exactly, anonymous routes admit every caller, restricted
//! routes fail closed and block the handler on denial, and dispatch is a
//! pure function of the request, so repetition changes nothing.

use vstd::prelude::*;

use crate::auth::{spec_authorized, IdentityV};
use crate::route::{captures_of, path_segs, route_matches, seg_disjoint, seg_matches, Method, PolicyV, RouteV};
use crate::service::{dispatch_spec, management_routes, DecisionV, ErrorKind};
use crate::table::{first_match, lemma_first_match_is, match_outcome, OutcomeV};
use crate::version::ApiVersion;

verus! {

/// Law: at most one route of the management table fits a request's method
/// and path, and the table walk finds exactly that route. Matching can never
/// be ambiguous.
pub proof fn lemma_unique_first_match(m: Method, path: Seq<char>, i: int)
    requires
        0 <= i < management_routes().len(),
        route_matches(management_routes()[i], m, path),
    ensures
        forall|j: int|
            0 <= j < management_routes().len() && j != i ==> !route_matches(
                management_routes()[j],
                m,
                path,
            ),
        first_match(management_routes(), m, path) == Some(i),
{
    let mr = management_routes();
    let segs = path_segs(path);
    assert forall|j: int| 0 <= j < mr.len() && j != i implies !route_matches(mr[j], m, path) by {
        if route_matches(mr[j], m, path) {
            assert(mr[j].pattern.len() == segs.len());
            assert(mr[i].pattern.len() == segs.len());
            let a = if j < i { j } else { i };
            let b = if j < i { i } else { j };
            crate::service::lemma_patterns_differ(mr, a, b);
            let i0 = choose|i0: int|
                0 <= i0 < mr[b].pattern.len() && seg_disjoint(mr[a].pattern[i0], mr[b].pattern[i0]);
            assert(seg_matches(mr[a].pattern[i0], segs[i0]));
            assert(seg_matches(mr[b].pattern[i0], segs[i0]));
            assert(false);
        }
    }
    lemma_first_match_is(mr, m, path, i);
}

/// Law: a request whose method and path fit a route of the management table,
/// at a revision at least the route's, resolves to exactly that route's
/// handler, policy and captures; no other route fits the request.
pub proof fn lemma_routing_unambiguous(m: Method, v: ApiVersion, path: Seq<char>, i: int)
    requires
        0 <= i < management_routes().len(),
        route_matches(management_routes()[i], m, path),
        v.spec_ge(management_routes()[i].min_version),
    ensures
        forall|j: int|
            0 <= j < management_routes().len() && j != i ==> !route_matches(
                management_routes()[j],
                m,
                path,
            ),
        match_outcome(management_routes(), m, v, path) == (OutcomeV::Matched {
            handler: management_routes()[i].handler,
            policy: management_routes()[i].policy,
            captures: captures_of(management_routes()[i].pattern, path_segs(path)),
        }),
{
    lemma_unique_first_match(m, path, i);
}

/// Law: a route is unreachable below the revision that introduced it, even
/// when its method and path fit, and the same request at a revision at least
/// the route's matches. The too-old request is answered as not found,
/// whoever the caller is.
pub proof fn lemma_version_gates_route(
    m: Method,
    v_old: ApiVersion,
    v_new: ApiVersion,
    path: Seq<char>,
    i: int,
)
    requires
        0 <= i < management_routes().len(),
        route_matches(management_routes()[i], m, path),
        !v_old.spec_ge(management_routes()[i].min_version),
        v_new.spec_ge(management_routes()[i].min_version),
    ensures
        match_outcome(management_routes(), m, v_old, path) == OutcomeV::VersionTooOld,
        forall|id: IdentityV|
            dispatch_spec(management_routes(), m, v_old, path, id) == (DecisionV::Reject {
                error: ErrorKind::NotFound,
            }),
        match_outcome(management_routes(), m, v_new, path) == (OutcomeV::Matched {
            handler: management_routes()[i].handler,
            policy: management_routes()[i].policy,
            captures: captures_of(management_routes()[i].pattern, path_segs(path)),
        }),
{
    lemma_unique_first_match(m, path, i);
}

/// Law: an anonymous policy admits every caller, also one whose identity
/// could not be resolved or whose resolution failed.
pub proof fn lemma_anonymous_always_authorized(id: IdentityV)
    ensures
        spec_authorized(PolicyV::Anonymous, id),
{
}

/// Law: a policy restricted to an owner admits exactly the caller that
/// resolved to the owner's name: any other name, an unresolved caller and a
/// failed resolution are all denied: authorization never grants on doubt.
pub proof fn lemma_restricted_fails_closed(owner: Seq<char>, id: IdentityV)
    ensures
        spec_authorized(PolicyV::RestrictedToOwner(owner), id) <==> id == IdentityV::Resolved(
            owner,
        ),
{
}

/// Law: a handler is named in a dispatch decision only when its route
/// matched and its policy admitted the caller; every rejection, a denial in
/// particular, names no handler, so a denied request can have no side
/// effect on the Module Runtime.
pub proof fn lemma_denial_blocks_handler(
    rs: Seq<RouteV>,
    m: Method,
    v: ApiVersion,
    path: Seq<char>,
    id: IdentityV,
)
    ensures
        match match_outcome(rs, m, v, path) {
            OutcomeV::Matched { handler, policy, captures } => dispatch_spec(rs, m, v, path, id)
                == if spec_authorized(policy, id) {
                DecisionV::Invoke { handler, captures }
            } else {
                DecisionV::Reject { error: ErrorKind::Denied }
            },
            _ => !(dispatch_spec(rs, m, v, path, id) matches DecisionV::Invoke { .. }),
        },
{
}

/// Law: the dispatch decision is a pure function of the table, the request
/// and the resolved identity, so repeating a request with unchanged backing
/// state yields the same routing and authorization outcome.
pub proof fn lemma_dispatch_repeatable(
    rs: Seq<RouteV>,
    m1: Method,
    v1: ApiVersion,
    path1: Seq<char>,
    id1: IdentityV,
    m2: Method,
    v2: ApiVersion,
    path2: Seq<char>,
    id2: IdentityV,
)
    requires
        m1 == m2,
        v1 == v2,
        path1 == path2,
        id1 == id2,
    ensures
        dispatch_spec(rs, m1, v1, path1, id1) == dispatch_spec(rs, m2, v2, path2, id2),
{
}

} // verus!
