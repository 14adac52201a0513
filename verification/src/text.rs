//! Small verified helpers over string slices: equality and splitting on a
//! separator character. Paths and query strings are taken apart with these.

use vstd::prelude::*;

verus! {

/// Character-for-character equality of two string slices.
pub fn str_eq(a: &str, b: &str) -> (r: bool)
    ensures
        r == (a@ == b@),
{
    let sa = a.to_owned();
    let sb = b.to_owned();
    sa == sb
}

/// Length of the longest prefix of `s` that does not contain `sep`.
pub open spec fn prefix_len(s: Seq<char>, sep: char) -> int
    decreases s.len(),
{
    if s.len() == 0 {
        0
    } else if s[0] == sep {
        0
    } else {
        1 + prefix_len(s.drop_first(), sep)
    }
}

pub proof fn lemma_prefix_len(s: Seq<char>, sep: char)
    ensures
        0 <= prefix_len(s, sep) <= s.len(),
        forall|i: int| 0 <= i < prefix_len(s, sep) ==> s[i] != sep,
        prefix_len(s, sep) < s.len() ==> s[prefix_len(s, sep)] == sep,
    decreases s.len(),
{
    if s.len() == 0 {
    } else if s[0] == sep {
    } else {
        lemma_prefix_len(s.drop_first(), sep);
        assert forall|i: int| 0 <= i < prefix_len(s, sep) implies s[i] != sep by {
            if i > 0 {
                assert(s.drop_first()[i - 1] != sep);
            }
        }
    }
}

/// `prefix_len` is determined by any witness position of the separator.
pub proof fn lemma_prefix_len_is(s: Seq<char>, sep: char, k: int)
    requires
        0 <= k <= s.len(),
        forall|i: int| 0 <= i < k ==> s[i] != sep,
        k < s.len() ==> s[k] == sep,
    ensures
        prefix_len(s, sep) == k,
    decreases s.len(),
{
    if s.len() == 0 {
    } else if k == 0 {
        lemma_prefix_len(s, sep);
    } else {
        assert forall|i: int| 0 <= i < k - 1 implies s.drop_first()[i] != sep by {
            assert(s[i + 1] != sep);
        }
        assert(k - 1 < s.drop_first().len() ==> s.drop_first()[k - 1] == sep);
        lemma_prefix_len_is(s.drop_first(), sep, k - 1);
    }
}

/// The groups obtained by cutting `s` at every occurrence of `sep`.
/// Splitting the empty sequence yields one empty group, so the result always
/// has one group more than `s` has separators.
pub open spec fn split_on(s: Seq<char>, sep: char) -> Seq<Seq<char>>
    decreases s.len(),
    via split_on_decreases
{
    let k = prefix_len(s, sep);
    if k == s.len() {
        seq![s]
    } else {
        seq![s.take(k)] + split_on(s.skip(k + 1), sep)
    }
}

#[via_fn]
proof fn split_on_decreases(s: Seq<char>, sep: char) {
    lemma_prefix_len(s, sep);
}

pub proof fn lemma_split_on_len(s: Seq<char>, sep: char)
    ensures
        split_on(s, sep).len() >= 1,
    decreases s.len(),
{
    lemma_prefix_len(s, sep);
    let k = prefix_len(s, sep);
    if k != s.len() {
        lemma_split_on_len(s.skip(k + 1), sep);
    }
}

/// Index of the first occurrence of `sep` in `s` at or after `from`,
/// or the length of `s` if there is none.
pub fn find_from(s: &str, from: usize, sep: char) -> (r: usize)
    requires
        from <= s@.len(),
    ensures
        from <= r <= s@.len(),
        r - from == prefix_len(s@.skip(from as int), sep),
{
    let n = s.unicode_len();
    let mut j = from;
    while j < n
        invariant
            from <= j <= n,
            n == s@.len(),
            forall|i: int| from <= i < j ==> s@[i] != sep,
        decreases n - j,
    {
        if s.get_char(j) == sep {
            proof {
                let t = s@.skip(from as int);
                assert forall|i: int| 0 <= i < j - from implies t[i] != sep by {
                    assert(s@[i + from] != sep);
                }
                assert(t[j - from] == sep);
                lemma_prefix_len_is(t, sep, j - from);
            }
            return j;
        }
        j += 1;
    }
    proof {
        let t = s@.skip(from as int);
        assert forall|i: int| 0 <= i < n - from implies t[i] != sep by {
            assert(s@[i + from] != sep);
        }
        lemma_prefix_len_is(t, sep, n - from);
    }
    n
}

/// The view of each group in `r`.
pub open spec fn views_of(r: Seq<String>) -> Seq<Seq<char>> {
    r.map_values(|g: String| g@)
}

/// Cuts the suffix of `s` that starts at `from` at every occurrence of `sep`.
pub fn split_from(s: &str, from: usize, sep: char) -> (r: Vec<String>)
    requires
        from <= s@.len(),
    ensures
        views_of(r@) == split_on(s@.skip(from as int), sep),
    decreases s@.len() - from,
{
    let ghost t = s@.skip(from as int);
    let j = find_from(s, from, sep);
    let seg = s.substring_char(from, j).to_owned();
    let n = s.unicode_len();
    proof {
        assert(seg@ =~= t.take(j - from));
    }
    if j == n {
        let r = vec![seg];
        proof {
            assert(t.take(j - from) =~= t);
            assert(views_of(r@) =~= split_on(t, sep));
        }
        r
    } else {
        let mut rest = split_from(s, j + 1, sep);
        proof {
            assert(t.skip(j - from + 1) =~= s@.skip(j + 1));
        }
        rest.insert(0, seg);
        proof {
            assert(views_of(rest@) =~= seq![seg@] + split_on(s@.skip(j + 1), sep));
            assert(views_of(rest@) =~= split_on(t, sep));
        }
        rest
    }
}

/// Cuts `s` at every occurrence of `sep`.
pub fn split(s: &str, sep: char) -> (r: Vec<String>)
    ensures
        views_of(r@) == split_on(s@, sep),
        r@.len() >= 1,
{
    let r = split_from(s, 0, sep);
    proof {
        assert(s@.skip(0) =~= s@);
        lemma_split_on_len(s@, sep);
        assert(views_of(r@) =~= split_on(s@, sep));
        assert(r@.len() == views_of(r@).len());
    }
    r
}

} // verus!
