//! Routes and their building blocks: HTTP methods, path patterns with named
//! captures, authorization policies, and handler identifiers.
//!
//! A pattern is a sequence of segments, each either a literal that the
//! corresponding path segment must equal, or a named capture that matches any
//! non-empty path segment and records its text.

use vstd::prelude::*;

verus! {

/// An HTTP request method, restricted to the closed set the service knows.
#[derive(Clone, Copy, Debug, PartialEq, Eq, Structural)]
pub enum Method {
    Get,
    Post,
    Put,
    Delete,
    Patch,
}

impl Method {
    /// The method denoted by the request token `s`, if any.
    pub open spec fn spec_parse(s: Seq<char>) -> Option<Method> {
        if s == "GET"@ {
            Some(Method::Get)
        } else if s == "POST"@ {
            Some(Method::Post)
        } else if s == "PUT"@ {
            Some(Method::Put)
        } else if s == "DELETE"@ {
            Some(Method::Delete)
        } else if s == "PATCH"@ {
            Some(Method::Patch)
        } else {
            None
        }
    }

    /// Reads a method token as it appears on the request line.
    pub fn parse(s: &str) -> (r: Option<Method>)
        ensures
            r == Method::spec_parse(s@),
    {
        if crate::text::str_eq(s, "GET") {
            Some(Method::Get)
        } else if crate::text::str_eq(s, "POST") {
            Some(Method::Post)
        } else if crate::text::str_eq(s, "PUT") {
            Some(Method::Put)
        } else if crate::text::str_eq(s, "DELETE") {
            Some(Method::Delete)
        } else if crate::text::str_eq(s, "PATCH") {
            Some(Method::Patch)
        } else {
            None
        }
    }
}

/// The authorization requirement attached to a route.
#[derive(Debug, Clone, PartialEq, Eq)]
pub enum Policy {
    /// No check: every caller may invoke the route.
    Anonymous,
    /// Only the named owning component may invoke the route.
    RestrictedToOwner(String),
}

/// Mathematical model of a `Policy`.
pub ghost enum PolicyV {
    Anonymous,
    RestrictedToOwner(Seq<char>),
}

impl View for Policy {
    type V = PolicyV;

    open spec fn view(&self) -> PolicyV {
        match self {
            Policy::Anonymous => PolicyV::Anonymous,
            Policy::RestrictedToOwner(owner) => PolicyV::RestrictedToOwner(owner@),
        }
    }
}

impl Policy {
    /// A policy with the same meaning as `self`.
    pub fn duplicate(&self) -> (r: Policy)
        ensures
            r@ == self@,
    {
        match self {
            Policy::Anonymous => Policy::Anonymous,
            Policy::RestrictedToOwner(owner) => Policy::RestrictedToOwner(owner.clone()),
        }
    }
}

/// Names the handler bound to a route. Handler bodies are external
/// collaborators; the dispatcher only decides which of them may run.
#[derive(Clone, Copy, Debug, PartialEq, Eq, Structural)]
pub enum HandlerId {
    ListModules,
    CreateModule,
    GetModule,
    UpdateModule,
    PrepareUpdateModule,
    DeleteModule,
    StartModule,
    StopModule,
    RestartModule,
    ModuleLogs,
    ListIdentities,
    CreateIdentity,
    UpdateIdentity,
    DeleteIdentity,
    GetSystemInfo,
}

/// One segment of a path pattern.
#[derive(Debug, Clone, PartialEq, Eq)]
pub enum Segment {
    /// Matches exactly this text.
    Lit(String),
    /// Matches any non-empty segment and records it under this name.
    Capture(String),
}

/// Mathematical model of a `Segment`.
pub ghost enum SegV {
    Lit(Seq<char>),
    Capture(Seq<char>),
}

impl View for Segment {
    type V = SegV;

    open spec fn view(&self) -> SegV {
        match self {
            Segment::Lit(l) => SegV::Lit(l@),
            Segment::Capture(n) => SegV::Capture(n@),
        }
    }
}

/// A literal pattern segment.
pub fn lit(s: &str) -> (g: Segment)
    ensures
        g@ == SegV::Lit(s@),
{
    Segment::Lit(s.to_owned())
}

/// A named capture pattern segment.
pub fn capture(s: &str) -> (g: Segment)
    ensures
        g@ == SegV::Capture(s@),
{
    Segment::Capture(s.to_owned())
}

/// The model of each segment of a pattern.
pub open spec fn pat_view(p: Seq<Segment>) -> Seq<SegV> {
    p.map_values(|g: Segment| g@)
}

/// An immutable route: a method and pattern to match, the revision at which
/// the route was introduced, the policy that gates it, and its handler.
pub struct Route {
    pub method: Method,
    pub min_version: crate::version::ApiVersion,
    pub pattern: Vec<Segment>,
    pub policy: Policy,
    pub handler: HandlerId,
}

/// Mathematical model of a `Route`.
pub ghost struct RouteV {
    pub method: Method,
    pub min_version: crate::version::ApiVersion,
    pub pattern: Seq<SegV>,
    pub policy: PolicyV,
    pub handler: HandlerId,
}

impl View for Route {
    type V = RouteV;

    open spec fn view(&self) -> RouteV {
        RouteV {
            method: self.method,
            min_version: self.min_version,
            pattern: pat_view(self.pattern@),
            policy: self.policy@,
            handler: self.handler,
        }
    }
}

/// Whether one path segment satisfies one pattern segment.
pub open spec fn seg_matches(g: SegV, t: Seq<char>) -> bool {
    match g {
        SegV::Lit(l) => t == l,
        SegV::Capture(_) => t.len() > 0,
    }
}

/// Whether a split path satisfies a whole pattern.
pub open spec fn pat_matches(pat: Seq<SegV>, segs: Seq<Seq<char>>) -> bool {
    &&& pat.len() == segs.len()
    &&& forall|i: int| 0 <= i < pat.len() ==> seg_matches(pat[i], segs[i])
}

/// A well-formed request path: non-empty and rooted.
pub open spec fn path_ok(path: Seq<char>) -> bool {
    path.len() > 0 && path[0] == '/'
}

/// The segments of a request path: everything after the leading slash, cut
/// at every further slash.
pub open spec fn path_segs(path: Seq<char>) -> Seq<Seq<char>> {
    crate::text::split_on(path.skip(1), '/')
}

/// Whether a request with this method and path reaches this route, apart
/// from the version gate.
pub open spec fn route_matches(r: RouteV, m: Method, path: Seq<char>) -> bool {
    &&& path_ok(path)
    &&& r.method == m
    &&& pat_matches(r.pattern, path_segs(path))
}

/// The named captures a pattern extracts from a split path, in pattern order.
pub open spec fn captures_of(pat: Seq<SegV>, segs: Seq<Seq<char>>) -> Seq<(Seq<char>, Seq<char>)>
    decreases pat.len(),
{
    if pat.len() == 0 {
        seq![]
    } else {
        match pat[0] {
            SegV::Lit(_) => captures_of(pat.drop_first(), segs.drop_first()),
            SegV::Capture(n) => seq![(n, segs[0])] + captures_of(pat.drop_first(), segs.drop_first()),
        }
    }
}

/// The views of a list of extracted captures.
pub open spec fn capture_views(r: Seq<(String, String)>) -> Seq<(Seq<char>, Seq<char>)> {
    r.map_values(|p: (String, String)| (p.0@, p.1@))
}

/// No single segment text can satisfy both pattern segments: two literals
/// with different text.
pub open spec fn seg_disjoint(a: SegV, b: SegV) -> bool {
    match (a, b) {
        (SegV::Lit(x), SegV::Lit(y)) => x != y,
        _ => false,
    }
}

/// Whether one path segment satisfies one pattern segment.
pub fn seg_match(g: &Segment, t: &String) -> (r: bool)
    ensures
        r == seg_matches(g@, t@),
{
    match g {
        Segment::Lit(l) => crate::text::str_eq(l.as_str(), t.as_str()),
        Segment::Capture(_) => t.as_str().unicode_len() > 0,
    }
}

/// Whether a split path satisfies a whole pattern.
pub fn pat_match(pat: &Vec<Segment>, segs: &Vec<String>) -> (r: bool)
    ensures
        r == pat_matches(pat_view(pat@), crate::text::views_of(segs@)),
{
    if pat.len() != segs.len() {
        return false;
    }
    let n = pat.len();
    let mut i: usize = 0;
    while i < n
        invariant
            0 <= i <= n,
            n == pat@.len(),
            n == segs@.len(),
            forall|j: int| 0 <= j < i ==> seg_matches(pat_view(pat@)[j], segs@[j]@),
        decreases n - i,
    {
        if !seg_match(&pat[i], &segs[i]) {
            proof {
                assert(pat_view(pat@)[i as int] == pat@[i as int]@);
                assert(crate::text::views_of(segs@)[i as int] == segs@[i as int]@);
            }
            return false;
        }
        i += 1;
    }
    true
}

/// Extracts the named captures of a pattern from a split path that has the
/// same number of segments.
pub fn extract_captures(pat: &Vec<Segment>, segs: &Vec<String>, from: usize) -> (r: Vec<
    (String, String),
>)
    requires
        pat@.len() == segs@.len(),
        from <= pat@.len(),
    ensures
        capture_views(r@) == captures_of(pat_view(pat@).skip(from as int), crate::text::views_of(segs@).skip(from as int)),
    decreases pat@.len() - from,
{
    let ghost pv = pat_view(pat@).skip(from as int);
    let ghost sv = crate::text::views_of(segs@).skip(from as int);
    if from == pat.len() {
        let r: Vec<(String, String)> = Vec::new();
        proof {
            assert(capture_views(r@) =~= captures_of(pv, sv));
        }
        r
    } else {
        let mut rest = extract_captures(pat, segs, from + 1);
        proof {
            assert(pat_view(pat@).skip(from + 1) =~= pv.drop_first());
            assert(crate::text::views_of(segs@).skip(from + 1) =~= sv.drop_first());
        }
        match &pat[from] {
            Segment::Lit(_) => {
                proof {
                    assert(capture_views(rest@) =~= captures_of(pv, sv));
                }
                rest
            },
            Segment::Capture(n) => {
                rest.insert(0, (n.clone(), segs[from].clone()));
                proof {
                    assert(capture_views(rest@) =~= captures_of(pv, sv));
                }
                rest
            },
        }
    }
}

} // verus!
