//! Wire-protocol revisions. Every route carries the revision at which it was
//! introduced, and every request declares the revision the caller expects; a
//! route is visible to a request iff the request's revision is at least the
//! route's.

use vstd::prelude::*;

verus! {

/// A wire-protocol revision, ordered chronologically.
#[derive(Clone, Copy, Debug, PartialEq, Eq, Structural)]
pub enum ApiVersion {
    V2018_06_28,
    V2019_01_30,
}

impl ApiVersion {
    /// Position of this revision in chronological order.
    pub open spec fn rank(self) -> int {
        match self {
            ApiVersion::V2018_06_28 => 0,
            ApiVersion::V2019_01_30 => 1,
        }
    }

    pub open spec fn spec_ge(self, other: ApiVersion) -> bool {
        self.rank() >= other.rank()
    }

    /// `self` is the same revision as `other` or a later one.
    pub fn ge(self, other: ApiVersion) -> (r: bool)
        ensures
            r == self.spec_ge(other),
    {
        match (self, other) {
            (ApiVersion::V2019_01_30, _) => true,
            (_, ApiVersion::V2018_06_28) => true,
            _ => false,
        }
    }

    /// The revision denoted by the request token `s`, if any.
    pub open spec fn spec_parse(s: Seq<char>) -> Option<ApiVersion> {
        if s == "2018-06-28"@ {
            Some(ApiVersion::V2018_06_28)
        } else if s == "2019-01-30"@ {
            Some(ApiVersion::V2019_01_30)
        } else {
            None
        }
    }

    /// Reads a revision token as it appears on the wire.
    pub fn parse(s: &str) -> (r: Option<ApiVersion>)
        ensures
            r == ApiVersion::spec_parse(s@),
    {
        if crate::text::str_eq(s, "2018-06-28") {
            Some(ApiVersion::V2018_06_28)
        } else if crate::text::str_eq(s, "2019-01-30") {
            Some(ApiVersion::V2019_01_30)
        } else {
            None
        }
    }
}

/// The text before the first '=' of one query parameter.
pub open spec fn param_key(g: Seq<char>) -> Seq<char> {
    g.take(crate::text::prefix_len(g, '='))
}

/// The text after the first '=' of one query parameter, empty if there is
/// none.
pub open spec fn param_value(g: Seq<char>) -> Seq<char> {
    if crate::text::prefix_len(g, '=') == g.len() {
        Seq::empty()
    } else {
        g.skip(crate::text::prefix_len(g, '=') + 1)
    }
}

/// The revision declared by the first `api-version` parameter, if any.
pub open spec fn find_version(params: Seq<Seq<char>>) -> Option<ApiVersion>
    decreases params.len(),
{
    if params.len() == 0 {
        None
    } else if param_key(params[0]) == "api-version"@ {
        ApiVersion::spec_parse(param_value(params[0]))
    } else {
        find_version(params.drop_first())
    }
}

/// The revision a raw query string declares through its first `api-version`
/// parameter.
pub open spec fn spec_version_from_query(q: Seq<char>) -> Option<ApiVersion> {
    find_version(crate::text::split_on(q, '&'))
}

/// Reads the declared revision out of a raw query string: parameters are
/// separated by '&', a key from its value by the first '=', and tokens are
/// taken verbatim.
pub fn version_from_query(q: &str) -> (r: Option<ApiVersion>)
    ensures
        r == spec_version_from_query(q@),
{
    let params = crate::text::split(q, '&');
    let ghost pviews = crate::text::views_of(params@);
    proof {
        assert(pviews.skip(0) =~= pviews);
    }
    let n = params.len();
    let mut i: usize = 0;
    while i < n
        invariant
            0 <= i <= n,
            n == params@.len(),
            pviews == crate::text::views_of(params@),
            pviews == crate::text::split_on(q@, '&'),
            find_version(pviews) == find_version(pviews.skip(i as int)),
        decreases n - i,
    {
        let g = params[i].as_str();
        let ghost gv = pviews[i as int];
        proof {
            assert(gv == g@);
            crate::text::lemma_prefix_len(g@, '=');
        }
        let glen = g.unicode_len();
        let j = crate::text::find_from(g, 0, '=');
        let key = g.substring_char(0, j);
        proof {
            assert(g@.skip(0) =~= g@);
            assert(key@ =~= param_key(gv));
            assert(pviews.skip(i as int)[0] == gv);
        }
        if crate::text::str_eq(key, "api-version") {
            let value = if j == glen {
                g.substring_char(glen, glen)
            } else {
                g.substring_char(j + 1, glen)
            };
            proof {
                assert(value@ =~= param_value(gv));
            }
            return ApiVersion::parse(value);
        }
        proof {
            assert(pviews.skip(i as int).drop_first() =~= pviews.skip(i as int + 1));
        }
        i += 1;
    }
    proof {
        assert(pviews.skip(n as int) =~= Seq::<Seq<char>>::empty());
    }
    None
}

} // verus!
