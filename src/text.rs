//! Character-level helpers shared by the modules that read names and paths.

use vstd::prelude::*;

verus! {

/// The characters of `s`, in order.
pub(crate) fn chars_of(s: &str) -> (r: Vec<char>)
    ensures
        r@ == s@,
{
    broadcast use vstd::string::axiom_spec_iter;
    let mut out: Vec<char> = Vec::new();
    for c in it: s.chars()
        invariant
            out@ == it.history(),
            it.seq() == s@,
    {
        out.push(c);
    }
    assert(out@ =~= s@);
    out
}

/// What `str::to_lowercase` returns for a given sequence of characters.
pub uninterp spec fn lower_of(s: Seq<char>) -> Seq<char>;

/// Relies on `str::to_lowercase`: its result depends on the characters alone.
#[verifier::external_body]
pub(crate) fn lowercase(s: &str) -> (r: String)
    ensures
        r@ == lower_of(s@),
{
    s.to_lowercase()
}

/// `s` holds `pat` as a contiguous run of characters.
pub open spec fn has_infix(s: Seq<char>, pat: Seq<char>) -> bool {
    exists|i: int| 0 <= i && i + pat.len() <= s.len() && #[trigger] s.subrange(i, i + pat.len()) == pat
}

/// `s` ends with `pat`.
pub open spec fn has_suffix(s: Seq<char>, pat: Seq<char>) -> bool {
    pat.len() <= s.len() && s.subrange(s.len() - pat.len(), s.len() as int) == pat
}

/// Whether `pat` occurs in `s` at position `at`.
fn matches_at(s: &Vec<char>, pat: &Vec<char>, at: usize) -> (r: bool)
    requires
        at + pat@.len() <= s@.len(),
    ensures
        r == (s@.subrange(at as int, at + pat@.len()) == pat@),
{
    let sl: usize = s.len();
    let mut j: usize = 0;
    while j < pat.len()
        invariant
            sl == s@.len(),
            j <= pat@.len(),
            at + pat@.len() <= s@.len(),
            s@.subrange(at as int, at + j) == pat@.subrange(0, j as int),
        decreases pat@.len() - j,
    {
        if s[at + j] != pat[j] {
            assert(s@.subrange(at as int, at + pat@.len())[j as int] != pat@[j as int]);
            return false;
        }
        assert(s@.subrange(at as int, at + j + 1) =~= s@.subrange(at as int, at + j).push(s@[at + j]));
        assert(pat@.subrange(0, j + 1) =~= pat@.subrange(0, j as int).push(pat@[j as int]));
        j = j + 1;
    }
    assert(pat@.subrange(0, pat@.len() as int) =~= pat@);
    true
}

/// Whether `pat` occurs anywhere in `s`.
pub fn contains_chars(s: &Vec<char>, pat: &Vec<char>) -> (r: bool)
    ensures
        r == has_infix(s@, pat@),
{
    if pat.len() > s.len() {
        return false;
    }
    let last: usize = s.len() - pat.len();
    let mut i: usize = 0;
    while i <= last
        invariant
            last + pat@.len() == s@.len(),
            forall|k: int| 0 <= k < i ==> #[trigger] s@.subrange(k, k + pat@.len()) != pat@,
        decreases last + 1 - i,
    {
        if matches_at(s, pat, i) {
            return true;
        }
        if i == last {
            return false;
        }
        i = i + 1;
    }
    false
}

/// Whether `s` ends with `pat`.
pub fn ends_with_chars(s: &Vec<char>, pat: &Vec<char>) -> (r: bool)
    ensures
        r == has_suffix(s@, pat@),
{
    if pat.len() > s.len() {
        return false;
    }
    matches_at(s, pat, s.len() - pat.len())
}

/// Whether the two sequences hold the same characters.
pub fn same_chars(a: &Vec<char>, b: &Vec<char>) -> (r: bool)
    ensures
        r == (a@ == b@),
{
    if a.len() != b.len() {
        return false;
    }
    let r = matches_at(a, b, 0);
    assert(a@.subrange(0, b@.len() as int) =~= a@);
    r
}

} // verus!
