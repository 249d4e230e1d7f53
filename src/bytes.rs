use vstd::prelude::*;

verus! {

/// Appends every byte of `s` to `v`.
pub(crate) fn push_all(v: &mut Vec<u8>, s: &[u8])
    requires
        old(v)@.len() + s@.len() <= usize::MAX,
    ensures
        final(v)@ == old(v)@ + s@,
{
    let ghost start = v@;
    let mut i: usize = 0;
    while i < s.len()
        invariant
            i <= s@.len(),
            v@ == start + s@.subrange(0, i as int),
        decreases s@.len() - i,
    {
        v.push(s[i]);
        i = i + 1;
        assert(s@.subrange(0, i as int) == s@.subrange(0, i - 1) + seq![s@[i - 1]]);
    }
    assert(s@.subrange(0, s@.len() as int) == s@);
}

/// Whether `pat` occurs in `s` starting at position `at`.
pub open spec fn occurs_at(s: Seq<u8>, pat: Seq<u8>, at: int) -> bool {
    0 <= at && at + pat.len() <= s.len() && s.subrange(at, at + pat.len()) == pat
}

/// Whether `pat` occurs anywhere in `s`.
pub open spec fn contains(s: Seq<u8>, pat: Seq<u8>) -> bool {
    exists|at: int| occurs_at(s, pat, at)
}

/// Tells whether `pat` occurs in `s` at position `at`.
pub(crate) fn matches_at(s: &[u8], pat: &[u8], at: usize) -> (r: bool)
    ensures
        r == occurs_at(s@, pat@, at as int),
{
    if at > s.len() || pat.len() > s.len() - at {
        return false;
    }
    let n = s.len();
    let mut k: usize = 0;
    while k < pat.len()
        invariant
            n == s@.len(),
            k <= pat@.len(),
            at + pat@.len() <= s@.len(),
            forall|j: int| 0 <= j < k ==> s@[at + j] == pat@[j],
        decreases pat@.len() - k,
    {
        if s[at + k] != pat[k] {
            assert(s@.subrange(at as int, at + pat@.len())[k as int] != pat@[k as int]);
            return false;
        }
        k = k + 1;
    }
    assert(s@.subrange(at as int, at + pat@.len()) =~= pat@);
    true
}

/// Tells whether `pat` occurs anywhere in `s`.
pub(crate) fn find(s: &[u8], pat: &[u8]) -> (r: bool)
    ensures
        r == contains(s@, pat@),
{
    let mut at: usize = 0;
    while at < s.len()
        invariant
            at <= s@.len(),
            forall|j: int| 0 <= j < at ==> !occurs_at(s@, pat@, j),
        decreases s@.len() - at,
    {
        if matches_at(s, pat, at) {
            return true;
        }
        at = at + 1;
    }
    let r = matches_at(s, pat, at);
    if !r {
        assert forall|j: int| !occurs_at(s@, pat@, j) by {
            if j > s@.len() {
                assert(!occurs_at(s@, pat@, j));
            }
        }
    }
    r
}

/// Whether `at` is the first position at which `pat` occurs in `s`.
pub open spec fn first_at(s: Seq<u8>, pat: Seq<u8>, at: int) -> bool {
    occurs_at(s, pat, at) && forall|j: int| 0 <= j < at ==> !occurs_at(s, pat, j)
}

/// The first position at which `pat` occurs in `s`, if any.
pub(crate) fn find_first(s: &[u8], pat: &[u8]) -> (r: Option<usize>)
    ensures
        r matches Some(at) ==> first_at(s@, pat@, at as int),
        r is None ==> !contains(s@, pat@),
{
    let mut at: usize = 0;
    while at <= s.len()
        invariant
            at <= s@.len() + 1,
            forall|j: int| 0 <= j < at ==> !occurs_at(s@, pat@, j),
        decreases s@.len() + 1 - at,
    {
        if matches_at(s, pat, at) {
            return Some(at);
        }
        if at == s.len() {
            assert forall|j: int| !occurs_at(s@, pat@, j) by {
                if j > s@.len() {
                    assert(!occurs_at(s@, pat@, j));
                }
            }
            return None;
        }
        at = at + 1;
    }
    None
}

} // verus!
