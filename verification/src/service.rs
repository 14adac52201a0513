//! The management service: the fixed route table of the management plane,
//! composed with the authorization gate into a single dispatch decision per
//! request. The table is built once at startup; a collision between two
//! routes is a construction error, so the service that comes out can never
//! answer a request ambiguously.

use vstd::prelude::*;

use crate::auth::{authorize, spec_authorized, IdentityLookup, IdentityV};
use crate::route::{
    capture, lit, pat_view, HandlerId, Method, Policy, PolicyV, Route, RouteV, SegV, Segment,
};
use crate::table::{
    match_outcome, some_pattern_fits, ConstructionError, Outcome, OutcomeV, RouteTable,
};
use crate::version::{spec_version_from_query, ApiVersion};

verus! {

/// The structured per-request errors of the dispatcher, each with the status
/// code it is surfaced as.
#[derive(Clone, Copy, Debug, PartialEq, Eq, Structural)]
pub enum ErrorKind {
    /// No route fits the path, or the fitting route is gated above the
    /// caller's declared revision.
    NotFound,
    /// Some route fits the path, but none with the request's method.
    MethodNotAllowed,
    /// The route's policy rejected the caller; the handler never ran.
    Denied,
    /// The request declares no revision the service knows.
    InvalidApiVersion,
    /// The Module Runtime or Identity Manager failed while a handler ran;
    /// the cause stays internal and only a generic code is surfaced.
    RuntimeError,
}

impl ErrorKind {
    /// The status code this error is surfaced as.
    pub open spec fn spec_status(self) -> u16 {
        match self {
            ErrorKind::NotFound => 404,
            ErrorKind::MethodNotAllowed => 405,
            ErrorKind::Denied => 403,
            ErrorKind::InvalidApiVersion => 400,
            ErrorKind::RuntimeError => 500,
        }
    }

    /// The status code this error is surfaced as.
    pub fn status(self) -> (r: u16)
        ensures
            r == self.spec_status(),
    {
        match self {
            ErrorKind::NotFound => 404,
            ErrorKind::MethodNotAllowed => 405,
            ErrorKind::Denied => 403,
            ErrorKind::InvalidApiVersion => 400,
            ErrorKind::RuntimeError => 500,
        }
    }
}

/// What the dispatcher decides for one request: which handler may run with
/// which captured path segments, or which structured error to answer.
#[derive(Debug, PartialEq, Eq)]
pub enum Decision {
    /// The route matched and the policy admitted the caller: the named
    /// handler may run with these captures.
    Invoke { handler: HandlerId, captures: Vec<(String, String)> },
    /// The request is answered with this error and no handler runs.
    Reject { error: ErrorKind },
}

/// Mathematical model of a `Decision`.
pub ghost enum DecisionV {
    Invoke { handler: HandlerId, captures: Seq<(Seq<char>, Seq<char>)> },
    Reject { error: ErrorKind },
}

impl View for Decision {
    type V = DecisionV;

    open spec fn view(&self) -> DecisionV {
        match self {
            Decision::Invoke { handler, captures } => DecisionV::Invoke {
                handler: *handler,
                captures: crate::route::capture_views(captures@),
            },
            Decision::Reject { error } => DecisionV::Reject { error: *error },
        }
    }
}

/// The well-known name of the orchestrating agent module, the owner of every
/// restricted route.
pub open spec fn agent_name() -> Seq<char> {
    "edgeAgent"@
}

/// The well-known name of the orchestrating agent module.
pub fn agent() -> (r: &'static str)
    ensures
        r@ == agent_name(),
{
    "edgeAgent"
}

/// The policy of the privileged routes: restricted to the agent.
pub open spec fn owner_agent() -> PolicyV {
    PolicyV::RestrictedToOwner(agent_name())
}

/// The full route table of the management plane, in registration order.
/// This is the whole privilege surface of the service, auditable in one
/// place.
pub open spec fn management_routes() -> Seq<RouteV> {
    seq![
        route_v(Method::Get, ApiVersion::V2018_06_28, seq![SegV::Lit("modules"@)], PolicyV::Anonymous, HandlerId::ListModules),
        route_v(Method::Post, ApiVersion::V2018_06_28, seq![SegV::Lit("modules"@)], owner_agent(), HandlerId::CreateModule),
        route_v(Method::Get, ApiVersion::V2018_06_28, seq![SegV::Lit("modules"@), SegV::Capture("name"@)], PolicyV::Anonymous, HandlerId::GetModule),
        route_v(Method::Put, ApiVersion::V2018_06_28, seq![SegV::Lit("modules"@), SegV::Capture("name"@)], owner_agent(), HandlerId::UpdateModule),
        route_v(Method::Post, ApiVersion::V2019_01_30, seq![SegV::Lit("modules"@), SegV::Capture("name"@), SegV::Lit("prepareupdate"@)], owner_agent(), HandlerId::PrepareUpdateModule),
        route_v(Method::Delete, ApiVersion::V2018_06_28, seq![SegV::Lit("modules"@), SegV::Capture("name"@)], owner_agent(), HandlerId::DeleteModule),
        route_v(Method::Post, ApiVersion::V2018_06_28, seq![SegV::Lit("modules"@), SegV::Capture("name"@), SegV::Lit("start"@)], PolicyV::Anonymous, HandlerId::StartModule),
        route_v(Method::Post, ApiVersion::V2018_06_28, seq![SegV::Lit("modules"@), SegV::Capture("name"@), SegV::Lit("stop"@)], PolicyV::Anonymous, HandlerId::StopModule),
        route_v(Method::Post, ApiVersion::V2018_06_28, seq![SegV::Lit("modules"@), SegV::Capture("name"@), SegV::Lit("restart"@)], PolicyV::Anonymous, HandlerId::RestartModule),
        route_v(Method::Get, ApiVersion::V2018_06_28, seq![SegV::Lit("modules"@), SegV::Capture("name"@), SegV::Lit("logs"@)], PolicyV::Anonymous, HandlerId::ModuleLogs),
        route_v(Method::Get, ApiVersion::V2018_06_28, seq![SegV::Lit("identities"@)], owner_agent(), HandlerId::ListIdentities),
        route_v(Method::Post, ApiVersion::V2018_06_28, seq![SegV::Lit("identities"@)], owner_agent(), HandlerId::CreateIdentity),
        route_v(Method::Put, ApiVersion::V2018_06_28, seq![SegV::Lit("identities"@), SegV::Capture("name"@)], owner_agent(), HandlerId::UpdateIdentity),
        route_v(Method::Delete, ApiVersion::V2018_06_28, seq![SegV::Lit("identities"@), SegV::Capture("name"@)], owner_agent(), HandlerId::DeleteIdentity),
        route_v(Method::Get, ApiVersion::V2018_06_28, seq![SegV::Lit("systeminfo"@)], PolicyV::Anonymous, HandlerId::GetSystemInfo),
    ]
}

/// A route model from its parts.
pub open spec fn route_v(
    method: Method,
    min_version: ApiVersion,
    pattern: Seq<SegV>,
    policy: PolicyV,
    handler: HandlerId,
) -> RouteV {
    RouteV { method, min_version, pattern, policy, handler }
}

/// The dispatch decision for one request: route it, then gate it. A request
/// that no route fits is rejected as not found (also when the fitting route
/// is too new for the caller), one that only fits routes of other methods as
/// method not allowed, and one whose route's policy rejects the caller is
/// denied without the handler ever running.
pub open spec fn dispatch_spec(
    rs: Seq<RouteV>,
    m: Method,
    v: ApiVersion,
    path: Seq<char>,
    id: IdentityV,
) -> DecisionV {
    match match_outcome(rs, m, v, path) {
        OutcomeV::Matched { handler, policy, captures } => if spec_authorized(policy, id) {
            DecisionV::Invoke { handler, captures }
        } else {
            DecisionV::Reject { error: ErrorKind::Denied }
        },
        OutcomeV::MethodMismatch => DecisionV::Reject { error: ErrorKind::MethodNotAllowed },
        OutcomeV::VersionTooOld => DecisionV::Reject { error: ErrorKind::NotFound },
        OutcomeV::NoMatch => DecisionV::Reject { error: ErrorKind::NotFound },
    }
}

/// The decision for a raw request: the declared revision is read from the
/// query string (an unreadable one is rejected outright), the method token
/// from the request line; a request whose method is outside the service's
/// closed set can match no route, so it is answered by the path alone.
pub open spec fn handle_spec(
    rs: Seq<RouteV>,
    method_tok: Seq<char>,
    path: Seq<char>,
    query: Seq<char>,
    id: IdentityV,
) -> DecisionV {
    match spec_version_from_query(query) {
        None => DecisionV::Reject { error: ErrorKind::InvalidApiVersion },
        Some(v) => match Method::spec_parse(method_tok) {
            Some(m) => dispatch_spec(rs, m, v, path, id),
            None => if some_pattern_fits(rs, path) {
                DecisionV::Reject { error: ErrorKind::MethodNotAllowed }
            } else {
                DecisionV::Reject { error: ErrorKind::NotFound }
            },
        },
    }
}

/// The management-plane dispatcher: the fixed route table behind a single
/// request-handling entry point.
pub struct ManagementService {
    table: RouteTable,
}

impl View for ManagementService {
    type V = Seq<RouteV>;

    closed spec fn view(&self) -> Seq<RouteV> {
        self.table@
    }
}

impl ManagementService {
    /// Builds the management route table. Every route goes through the
    /// collision check of registration; that no collision can arise is
    /// proved, so construction always succeeds and yields exactly the
    /// documented table.
    pub fn new() -> (r: Result<ManagementService, ConstructionError>)
        ensures
            r is Ok,
            r matches Ok(s) ==> s@ == management_routes(),
    {
        let mut t = RouteTable::new();
        let ghost mr = management_routes();
        proof {
            assert(t@ =~= mr.take(0));
        }
        register_step(&mut t, make_route(Method::Get, ApiVersion::V2018_06_28, pat1(lit("modules")), Policy::Anonymous, HandlerId::ListModules), Ghost(mr), Ghost(0))?;
        register_step(&mut t, make_route(Method::Post, ApiVersion::V2018_06_28, pat1(lit("modules")), owner(), HandlerId::CreateModule), Ghost(mr), Ghost(1))?;
        register_step(&mut t, make_route(Method::Get, ApiVersion::V2018_06_28, pat2(lit("modules"), capture("name")), Policy::Anonymous, HandlerId::GetModule), Ghost(mr), Ghost(2))?;
        register_step(&mut t, make_route(Method::Put, ApiVersion::V2018_06_28, pat2(lit("modules"), capture("name")), owner(), HandlerId::UpdateModule), Ghost(mr), Ghost(3))?;
        register_step(&mut t, make_route(Method::Post, ApiVersion::V2019_01_30, pat3(lit("modules"), capture("name"), lit("prepareupdate")), owner(), HandlerId::PrepareUpdateModule), Ghost(mr), Ghost(4))?;
        register_step(&mut t, make_route(Method::Delete, ApiVersion::V2018_06_28, pat2(lit("modules"), capture("name")), owner(), HandlerId::DeleteModule), Ghost(mr), Ghost(5))?;
        register_step(&mut t, make_route(Method::Post, ApiVersion::V2018_06_28, pat3(lit("modules"), capture("name"), lit("start")), Policy::Anonymous, HandlerId::StartModule), Ghost(mr), Ghost(6))?;
        register_step(&mut t, make_route(Method::Post, ApiVersion::V2018_06_28, pat3(lit("modules"), capture("name"), lit("stop")), Policy::Anonymous, HandlerId::StopModule), Ghost(mr), Ghost(7))?;
        register_step(&mut t, make_route(Method::Post, ApiVersion::V2018_06_28, pat3(lit("modules"), capture("name"), lit("restart")), Policy::Anonymous, HandlerId::RestartModule), Ghost(mr), Ghost(8))?;
        register_step(&mut t, make_route(Method::Get, ApiVersion::V2018_06_28, pat3(lit("modules"), capture("name"), lit("logs")), Policy::Anonymous, HandlerId::ModuleLogs), Ghost(mr), Ghost(9))?;
        register_step(&mut t, make_route(Method::Get, ApiVersion::V2018_06_28, pat1(lit("identities")), owner(), HandlerId::ListIdentities), Ghost(mr), Ghost(10))?;
        register_step(&mut t, make_route(Method::Post, ApiVersion::V2018_06_28, pat1(lit("identities")), owner(), HandlerId::CreateIdentity), Ghost(mr), Ghost(11))?;
        register_step(&mut t, make_route(Method::Put, ApiVersion::V2018_06_28, pat2(lit("identities"), capture("name")), owner(), HandlerId::UpdateIdentity), Ghost(mr), Ghost(12))?;
        register_step(&mut t, make_route(Method::Delete, ApiVersion::V2018_06_28, pat2(lit("identities"), capture("name")), owner(), HandlerId::DeleteIdentity), Ghost(mr), Ghost(13))?;
        register_step(&mut t, make_route(Method::Get, ApiVersion::V2018_06_28, pat1(lit("systeminfo")), Policy::Anonymous, HandlerId::GetSystemInfo), Ghost(mr), Ghost(14))?;
        proof {
            assert(t@ =~= mr.take(15));
            assert(mr.take(15) =~= mr);
        }
        Ok(ManagementService { table: t })
    }

    /// Matches one request against the management route table.
    pub fn match_route(&self, m: Method, v: ApiVersion, path: &str) -> (r: Outcome)
        ensures
            r@ == match_outcome(self@, m, v, path@),
    {
        self.table.match_route(m, v, path)
    }

    /// Decides one request: routes it, then evaluates the route's policy
    /// against the caller's resolved identity. A handler is named in the
    /// decision only when its route matched and its policy admitted the
    /// caller; on every rejection no handler runs.
    pub fn dispatch(
        &self,
        m: Method,
        v: ApiVersion,
        path: &str,
        identity: &IdentityLookup,
    ) -> (d: Decision)
        ensures
            d@ == dispatch_spec(self@, m, v, path@, identity@),
    {
        match self.table.match_route(m, v, path) {
            Outcome::Matched { handler, policy, captures } => {
                if authorize(&policy, identity) {
                    Decision::Invoke { handler, captures }
                } else {
                    Decision::Reject { error: ErrorKind::Denied }
                }
            },
            Outcome::MethodMismatch => Decision::Reject { error: ErrorKind::MethodNotAllowed },
            Outcome::VersionTooOld => Decision::Reject { error: ErrorKind::NotFound },
            Outcome::NoMatch => Decision::Reject { error: ErrorKind::NotFound },
        }
    }

    /// Decides one raw request, reading the method token and the query
    /// string's declared revision first.
    pub fn handle_request(
        &self,
        method: &str,
        path: &str,
        query: &str,
        identity: &IdentityLookup,
    ) -> (d: Decision)
        ensures
            d@ == handle_spec(self@, method@, path@, query@, identity@),
    {
        match crate::version::version_from_query(query) {
            None => Decision::Reject { error: ErrorKind::InvalidApiVersion },
            Some(v) => match Method::parse(method) {
                Some(m) => self.dispatch(m, v, path, identity),
                None => {
                    if self.table.path_known(path) {
                        Decision::Reject { error: ErrorKind::MethodNotAllowed }
                    } else {
                        Decision::Reject { error: ErrorKind::NotFound }
                    }
                },
            },
        }
    }
}

/// The policy of the privileged routes: restricted to the agent.
fn owner() -> (p: Policy)
    ensures
        p@ == owner_agent(),
{
    Policy::RestrictedToOwner(agent().to_owned())
}

/// A one-segment pattern.
fn pat1(a: Segment) -> (p: Vec<Segment>)
    ensures
        pat_view(p@) == seq![a@],
{
    let ghost av = a@;
    let p = vec![a];
    proof {
        assert(pat_view(p@) =~= seq![av]);
    }
    p
}

/// A two-segment pattern.
fn pat2(a: Segment, b: Segment) -> (p: Vec<Segment>)
    ensures
        pat_view(p@) == seq![a@, b@],
{
    let ghost av = a@;
    let ghost bv = b@;
    let p = vec![a, b];
    proof {
        assert(pat_view(p@) =~= seq![av, bv]);
    }
    p
}

/// A three-segment pattern.
fn pat3(a: Segment, b: Segment, c: Segment) -> (p: Vec<Segment>)
    ensures
        pat_view(p@) == seq![a@, b@, c@],
{
    let ghost av = a@;
    let ghost bv = b@;
    let ghost cv = c@;
    let p = vec![a, b, c];
    proof {
        assert(pat_view(p@) =~= seq![av, bv, cv]);
    }
    p
}

/// A route from its parts.
fn make_route(
    method: Method,
    min_version: ApiVersion,
    pattern: Vec<Segment>,
    policy: Policy,
    handler: HandlerId,
) -> (r: Route)
    ensures
        r@ == route_v(method, min_version, pat_view(pattern@), policy@, handler),
{
    Route { method, min_version, pattern, policy, handler }
}

/// Registers the route at position `k` of the management table into a table
/// that holds exactly the routes before it, and proves that no collision can
/// arise.
fn register_step(
    t: &mut RouteTable,
    route: Route,
    Ghost(mr): Ghost<Seq<RouteV>>,
    Ghost(k): Ghost<int>,
) -> (r: Result<(), ConstructionError>)
    requires
        mr == management_routes(),
        0 <= k < mr.len(),
        old(t)@ == mr.take(k),
        route@ == mr[k],
    ensures
        r is Ok,
        final(t)@ == mr.take(k + 1),
{
    proof {
        lemma_management_no_collision(mr, k);
    }
    let r = t.register(route);
    proof {
        assert(t@ =~= mr.take(k + 1));
    }
    r
}

/// No route of the management table collides with an earlier one: every pair
/// with the same method differs in pattern length or in a literal segment.
proof fn lemma_management_no_collision(mr: Seq<RouteV>, k: int)
    requires
        mr == management_routes(),
        0 <= k < mr.len(),
    ensures
        !crate::table::collides_with(mr.take(k), mr[k]),
{
    reveal_strlit("modules");
    reveal_strlit("identities");
    reveal_strlit("systeminfo");
    reveal_strlit("name");
    reveal_strlit("prepareupdate");
    reveal_strlit("start");
    reveal_strlit("stop");
    reveal_strlit("restart");
    reveal_strlit("logs");
    assert forall|j: int| 0 <= j < k implies !(mr.take(k)[j].method == mr[k].method
        && crate::table::pat_collides(mr.take(k)[j].pattern, mr[k].pattern)) by {
        assert(mr.take(k)[j] == mr[j]);
        if mr[j].method == mr[k].method && mr[j].pattern.len() == mr[k].pattern.len() {
            lemma_patterns_differ(mr, j, k);
            let i0 = choose|i0: int|
                0 <= i0 < mr[k].pattern.len() && crate::route::seg_disjoint(
                    mr[j].pattern[i0],
                    mr[k].pattern[i0],
                );
            assert(!crate::table::seg_collides(mr[j].pattern[i0], mr[k].pattern[i0]));
        }
    }
}

/// Any two same-method, same-length patterns of the management table differ
/// at some position where both sides are literals with different text, so no
/// path can satisfy both.
#[verifier::rlimit(100)]
pub(crate) proof fn lemma_patterns_differ(mr: Seq<RouteV>, j: int, k: int)
    requires
        mr == management_routes(),
        0 <= j < k < mr.len(),
        mr[j].method == mr[k].method,
        mr[j].pattern.len() == mr[k].pattern.len(),
    ensures
        exists|i: int|
            0 <= i < mr[k].pattern.len() && crate::route::seg_disjoint(
                mr[j].pattern[i],
                mr[k].pattern[i],
            ),
{
    reveal_strlit("modules");
    reveal_strlit("identities");
    reveal_strlit("systeminfo");
    reveal_strlit("prepareupdate");
    reveal_strlit("start");
    reveal_strlit("stop");
    reveal_strlit("restart");
    reveal_strlit("logs");
    assert("modules"@.len() == 7);
    assert("identities"@.len() == 10);
    assert("systeminfo"@.len() == 10);
    assert("identities"@[0] == 'i' && "systeminfo"@[0] == 's');
    assert("prepareupdate"@.len() == 13);
    assert("start"@.len() == 5);
    assert("stop"@.len() == 4);
    assert("restart"@.len() == 7);
    assert("logs"@.len() == 4);
    assert(mr.len() == 15);
    assert(mr[0].method == Method::Get && mr[0].pattern =~= seq![SegV::Lit("modules"@)]);
    assert(mr[1].method == Method::Post && mr[1].pattern =~= seq![SegV::Lit("modules"@)]);
    assert(mr[2].method == Method::Get && mr[2].pattern =~= seq![SegV::Lit("modules"@), SegV::Capture("name"@)]);
    assert(mr[3].method == Method::Put && mr[3].pattern =~= seq![SegV::Lit("modules"@), SegV::Capture("name"@)]);
    assert(mr[4].method == Method::Post && mr[4].pattern =~= seq![SegV::Lit("modules"@), SegV::Capture("name"@), SegV::Lit("prepareupdate"@)]);
    assert(mr[5].method == Method::Delete && mr[5].pattern =~= seq![SegV::Lit("modules"@), SegV::Capture("name"@)]);
    assert(mr[6].method == Method::Post && mr[6].pattern =~= seq![SegV::Lit("modules"@), SegV::Capture("name"@), SegV::Lit("start"@)]);
    assert(mr[7].method == Method::Post && mr[7].pattern =~= seq![SegV::Lit("modules"@), SegV::Capture("name"@), SegV::Lit("stop"@)]);
    assert(mr[8].method == Method::Post && mr[8].pattern =~= seq![SegV::Lit("modules"@), SegV::Capture("name"@), SegV::Lit("restart"@)]);
    assert(mr[9].method == Method::Get && mr[9].pattern =~= seq![SegV::Lit("modules"@), SegV::Capture("name"@), SegV::Lit("logs"@)]);
    assert(mr[10].method == Method::Get && mr[10].pattern =~= seq![SegV::Lit("identities"@)]);
    assert(mr[11].method == Method::Post && mr[11].pattern =~= seq![SegV::Lit("identities"@)]);
    assert(mr[12].method == Method::Put && mr[12].pattern =~= seq![SegV::Lit("identities"@), SegV::Capture("name"@)]);
    assert(mr[13].method == Method::Delete && mr[13].pattern =~= seq![SegV::Lit("identities"@), SegV::Capture("name"@)]);
    assert(mr[14].method == Method::Get && mr[14].pattern =~= seq![SegV::Lit("systeminfo"@)]);
    assert("modules"@ != "identities"@ && "modules"@ != "systeminfo"@ && "identities"@ != "systeminfo"@);
    assert("prepareupdate"@ != "start"@ && "prepareupdate"@ != "stop"@ && "prepareupdate"@ != "restart"@);
    assert("start"@ != "stop"@ && "start"@ != "restart"@ && "stop"@ != "restart"@);
    if k == 10 || k == 11 || k == 12 || k == 13 || k == 14 {
        assert(crate::route::seg_disjoint(mr[j].pattern[0], mr[k].pattern[0]));
    } else {
        assert(j == 4 || j == 6 || j == 7);
        assert(crate::route::seg_disjoint(mr[j].pattern[2], mr[k].pattern[2]));
    }
}

} // verus!
