//! The route table: an ordered set of routes, filled once at startup and
//! immutable afterwards. Registration rejects a route that collides with an
//! already-registered one, so that matching can never be ambiguous between
//! identically-shaped patterns; matching walks the table in registration
//! order and short-circuits on the first route whose method and pattern fit,
//! then applies the version gate.

use vstd::prelude::*;

use crate::route::{
    capture_views, captures_of, pat_match, pat_matches, pat_view, path_ok, path_segs,
    route_matches, seg_matches, extract_captures, Method, Policy, PolicyV, HandlerId, Route,
    RouteV, SegV, Segment,
};
use crate::version::ApiVersion;

verus! {

/// Why the service could not be constructed.
#[derive(Clone, Copy, Debug, PartialEq, Eq, Structural)]
pub enum ConstructionError {
    /// A route was registered whose method and pattern collide with an
    /// earlier route's, which would make matching ambiguous.
    DuplicateRoute,
}

/// What the table answers for one request.
#[derive(Debug, PartialEq, Eq)]
pub enum Outcome {
    /// Exactly one route fits the method, path and version; its handler may
    /// run once the policy admits the caller.
    Matched { handler: HandlerId, policy: Policy, captures: Vec<(String, String)> },
    /// Some route's pattern fits the path, but none with this method.
    MethodMismatch,
    /// The first route whose method and pattern fit was introduced at a
    /// later revision than the request declares.
    VersionTooOld,
    /// No route's pattern fits the path.
    NoMatch,
}

/// Mathematical model of an `Outcome`.
pub ghost enum OutcomeV {
    Matched { handler: HandlerId, policy: PolicyV, captures: Seq<(Seq<char>, Seq<char>)> },
    MethodMismatch,
    VersionTooOld,
    NoMatch,
}

impl View for Outcome {
    type V = OutcomeV;

    open spec fn view(&self) -> OutcomeV {
        match self {
            Outcome::Matched { handler, policy, captures } => OutcomeV::Matched {
                handler: *handler,
                policy: policy@,
                captures: capture_views(captures@),
            },
            Outcome::MethodMismatch => OutcomeV::MethodMismatch,
            Outcome::VersionTooOld => OutcomeV::VersionTooOld,
            Outcome::NoMatch => OutcomeV::NoMatch,
        }
    }
}

/// Whether two pattern segments admit exactly the same texts.
pub open spec fn seg_collides(a: SegV, b: SegV) -> bool {
    match (a, b) {
        (SegV::Lit(x), SegV::Lit(y)) => x == y,
        (SegV::Capture(_), SegV::Capture(_)) => true,
        _ => false,
    }
}

/// Whether two patterns admit exactly the same paths: equal length, and
/// segment for segment a literal equal to the other's literal, or a capture
/// against a capture (capture names play no part in matching).
pub open spec fn pat_collides(a: Seq<SegV>, b: Seq<SegV>) -> bool {
    &&& a.len() == b.len()
    &&& forall|i: int| 0 <= i < a.len() ==> seg_collides(a[i], b[i])
}

/// Whether `r` collides with some route already in `rs`.
pub open spec fn collides_with(rs: Seq<RouteV>, r: RouteV) -> bool {
    exists|j: int|
        0 <= j < rs.len() && rs[j].method == r.method && pat_collides(rs[j].pattern, r.pattern)
}

/// The first route in `rs` whose method and pattern fit the request, if any.
pub open spec fn first_match(rs: Seq<RouteV>, m: Method, path: Seq<char>) -> Option<int>
    decreases rs.len(),
{
    if rs.len() == 0 {
        None
    } else if route_matches(rs[0], m, path) {
        Some(0)
    } else {
        match first_match(rs.drop_first(), m, path) {
            Some(k) => Some(k + 1),
            None => None,
        }
    }
}

/// Whether some route's pattern fits the path, whatever its method.
pub open spec fn some_pattern_fits(rs: Seq<RouteV>, path: Seq<char>) -> bool {
    &&& path_ok(path)
    &&& exists|j: int| 0 <= j < rs.len() && pat_matches(rs[j].pattern, path_segs(path))
}

/// The outcome of matching one request against a table: find the first route
/// whose method and pattern fit, then apply the version gate; with no such
/// route, tell a wrong method apart from an unknown path.
pub open spec fn match_outcome(rs: Seq<RouteV>, m: Method, v: ApiVersion, path: Seq<char>) -> OutcomeV {
    match first_match(rs, m, path) {
        Some(i) => if v.spec_ge(rs[i].min_version) {
            OutcomeV::Matched {
                handler: rs[i].handler,
                policy: rs[i].policy,
                captures: captures_of(rs[i].pattern, path_segs(path)),
            }
        } else {
            OutcomeV::VersionTooOld
        },
        None => if some_pattern_fits(rs, path) {
            OutcomeV::MethodMismatch
        } else {
            OutcomeV::NoMatch
        },
    }
}

/// What `first_match` finds is a match, is the earliest one, and is in
/// bounds; and it finds one whenever one exists.
pub proof fn lemma_first_match(rs: Seq<RouteV>, m: Method, path: Seq<char>)
    ensures
        match first_match(rs, m, path) {
            Some(i) => {
                &&& 0 <= i < rs.len()
                &&& route_matches(rs[i], m, path)
                &&& forall|j: int| 0 <= j < i ==> !route_matches(rs[j], m, path)
            },
            None => forall|j: int| 0 <= j < rs.len() ==> !route_matches(rs[j], m, path),
        },
    decreases rs.len(),
{
    if rs.len() == 0 {
    } else if route_matches(rs[0], m, path) {
    } else {
        lemma_first_match(rs.drop_first(), m, path);
        match first_match(rs.drop_first(), m, path) {
            Some(k) => {
                assert forall|j: int| 0 <= j < k + 1 implies !route_matches(rs[j], m, path) by {
                    if j > 0 {
                        assert(!route_matches(rs.drop_first()[j - 1], m, path));
                    }
                }
            },
            None => {
                assert forall|j: int| 0 <= j < rs.len() implies !route_matches(rs[j], m, path) by {
                    if j > 0 {
                        assert(!route_matches(rs.drop_first()[j - 1], m, path));
                    }
                }
            },
        }
    }
}

/// `first_match` is pinned by a witness: if the route at `i` fits and no
/// earlier one does, `i` is what it finds.
pub proof fn lemma_first_match_is(rs: Seq<RouteV>, m: Method, path: Seq<char>, i: int)
    requires
        0 <= i < rs.len(),
        route_matches(rs[i], m, path),
        forall|j: int| 0 <= j < i ==> !route_matches(rs[j], m, path),
    ensures
        first_match(rs, m, path) == Some(i),
    decreases rs.len(),
{
    if i == 0 {
    } else {
        assert forall|j: int| 0 <= j < i - 1 implies !route_matches(rs.drop_first()[j], m, path) by {
            assert(!route_matches(rs[j + 1], m, path));
        }
        assert(rs.drop_first()[i - 1] == rs[i]);
        lemma_first_match_is(rs.drop_first(), m, path, i - 1);
    }
}

/// The ordered route table.
pub struct RouteTable {
    routes: Vec<Route>,
}

impl View for RouteTable {
    type V = Seq<RouteV>;

    closed spec fn view(&self) -> Seq<RouteV> {
        self.routes@.map_values(|r: Route| r@)
    }
}

impl RouteTable {
    /// An empty table.
    pub fn new() -> (t: RouteTable)
        ensures
            t@ == Seq::<RouteV>::empty(),
    {
        let t = RouteTable { routes: Vec::new() };
        proof {
            assert(t@ =~= Seq::<RouteV>::empty());
        }
        t
    }

    /// Whether `route` collides with a route already registered.
    fn collides(&self, route: &Route) -> (r: bool)
        ensures
            r == collides_with(self@, route@),
    {
        let n = self.routes.len();
        let mut i: usize = 0;
        while i < n
            invariant
                0 <= i <= n,
                n == self.routes@.len(),
                forall|j: int|
                    0 <= j < i ==> !(self@[j].method == route@.method && pat_collides(
                        self@[j].pattern,
                        route@.pattern,
                    )),
            decreases n - i,
        {
            let cand = &self.routes[i];
            if cand.method == route.method && pat_collide(&cand.pattern, &route.pattern) {
                proof {
                    assert(self@[i as int] == self.routes@[i as int]@);
                }
                return true;
            }
            proof {
                assert(self@[i as int] == self.routes@[i as int]@);
            }
            i += 1;
        }
        false
    }

    /// Adds `route` at the end of the table, unless its method and pattern
    /// collide with an earlier route's, which is a construction error and
    /// leaves the table unchanged.
    pub fn register(&mut self, route: Route) -> (r: Result<(), ConstructionError>)
        ensures
            match r {
                Ok(()) => {
                    &&& !collides_with(old(self)@, route@)
                    &&& final(self)@ == old(self)@.push(route@)
                },
                Err(e) => {
                    &&& collides_with(old(self)@, route@)
                    &&& final(self)@ == old(self)@
                    &&& e == ConstructionError::DuplicateRoute
                },
            },
    {
        if self.collides(&route) {
            Err(ConstructionError::DuplicateRoute)
        } else {
            let ghost before = self@;
            self.routes.push(route);
            proof {
                assert(self@ =~= before.push(self.routes@.last()@));
            }
            Ok(())
        }
    }

    /// Whether some route's pattern fits the already-split path.
    fn any_pattern_fits(&self, segs: &Vec<String>) -> (r: bool)
        ensures
            r == exists|j: int|
                0 <= j < self@.len() && pat_matches(self@[j].pattern, crate::text::views_of(segs@)),
    {
        let n = self.routes.len();
        let mut i: usize = 0;
        while i < n
            invariant
                0 <= i <= n,
                n == self.routes@.len(),
                forall|j: int|
                    0 <= j < i ==> !pat_matches(self@[j].pattern, crate::text::views_of(segs@)),
            decreases n - i,
        {
            if pat_match(&self.routes[i].pattern, segs) {
                proof {
                    assert(self@[i as int] == self.routes@[i as int]@);
                }
                return true;
            }
            proof {
                assert(self@[i as int] == self.routes@[i as int]@);
            }
            i += 1;
        }
        false
    }

    /// Whether some route's pattern fits `path`, whatever its method. A
    /// request with a method outside the table's closed set is answered with
    /// this alone: method not allowed on a known path, not found otherwise.
    pub fn path_known(&self, path: &str) -> (r: bool)
        ensures
            r == some_pattern_fits(self@, path@),
    {
        if path.unicode_len() == 0 || path.get_char(0) != '/' {
            return false;
        }
        let segs = crate::text::split_from(path, 1, '/');
        self.any_pattern_fits(&segs)
    }

    /// Matches one request against the table: the first route whose method
    /// and pattern fit wins, then the version gate applies; with no fitting
    /// route, a wrong method on a known path is told apart from an unknown
    /// path.
    pub fn match_route(&self, m: Method, v: ApiVersion, path: &str) -> (r: Outcome)
        ensures
            r@ == match_outcome(self@, m, v, path@),
    {
        proof {
            lemma_first_match(self@, m, path@);
        }
        if path.unicode_len() == 0 || path.get_char(0) != '/' {
            return Outcome::NoMatch;
        }
        let segs = crate::text::split_from(path, 1, '/');
        let n = self.routes.len();
        let mut i: usize = 0;
        let mut any_fit = false;
        while i < n
            invariant
                0 <= i <= n,
                n == self.routes@.len(),
                path_ok(path@),
                crate::text::views_of(segs@) == path_segs(path@),
                forall|j: int| 0 <= j < i ==> !route_matches(self@[j], m, path@),
                any_fit == exists|j: int|
                    0 <= j < i && pat_matches(self@[j].pattern, path_segs(path@)),
            decreases n - i,
        {
            let cand = &self.routes[i];
            proof {
                assert(self@[i as int] == self.routes@[i as int]@);
            }
            if pat_match(&cand.pattern, &segs) {
                if cand.method == m {
                    proof {
                        lemma_first_match_is(self@, m, path@, i as int);
                    }
                    if v.ge(cand.min_version) {
                        let captures = extract_captures(&cand.pattern, &segs, 0);
                        proof {
                            assert(pat_view(cand.pattern@).skip(0) =~= self@[i as int].pattern);
                            assert(crate::text::views_of(segs@).skip(0) =~= path_segs(path@));
                        }
                        return Outcome::Matched {
                            handler: cand.handler,
                            policy: cand.policy.duplicate(),
                            captures,
                        };
                    } else {
                        return Outcome::VersionTooOld;
                    }
                } else {
                    any_fit = true;
                }
            }
            i += 1;
        }
        if any_fit {
            Outcome::MethodMismatch
        } else {
            Outcome::NoMatch
        }
    }
}

/// Whether two patterns collide in the sense of `pat_collides`.
fn pat_collide(a: &Vec<Segment>, b: &Vec<Segment>) -> (r: bool)
    ensures
        r == pat_collides(pat_view(a@), pat_view(b@)),
{
    if a.len() != b.len() {
        return false;
    }
    let n = a.len();
    let mut i: usize = 0;
    while i < n
        invariant
            0 <= i <= n,
            n == a@.len(),
            n == b@.len(),
            forall|j: int| 0 <= j < i ==> seg_collides(pat_view(a@)[j], pat_view(b@)[j]),
        decreases n - i,
    {
        let collide = match (&a[i], &b[i]) {
            (Segment::Lit(x), Segment::Lit(y)) => crate::text::str_eq(x.as_str(), y.as_str()),
            (Segment::Capture(_), Segment::Capture(_)) => true,
            _ => false,
        };
        proof {
            assert(pat_view(a@)[i as int] == a@[i as int]@);
            assert(pat_view(b@)[i as int] == b@[i as int]@);
        }
        if !collide {
            return false;
        }
        i += 1;
    }
    true
}

} // verus!
