//! Comparison of dotted version tags such as `v1.2.3`.

use vstd::prelude::*;
use crate::text::chars_of;

verus! {

/// `s` without one leading `v`, if it has one.
pub open spec fn unprefixed(s: Seq<char>) -> Seq<char> {
    if s.len() > 0 && s[0] == 'v' {
        s.drop_first()
    } else {
        s
    }
}

/// The pieces of `s` between dots; an empty text is one empty piece.
pub open spec fn fields(s: Seq<char>) -> Seq<Seq<char>>
    decreases s.len(),
{
    if s.len() == 0 {
        seq![Seq::<char>::empty()]
    } else {
        let f = fields(s.drop_last());
        if s.last() == '.' {
            f.push(Seq::<char>::empty())
        } else {
            f.update(f.len() - 1, f.last().push(s.last()))
        }
    }
}

pub open spec fn is_digit(c: char) -> bool {
    '0' <= c && c <= '9'
}

pub open spec fn all_digits(d: Seq<char>) -> bool {
    forall|i: int| 0 <= i < d.len() ==> is_digit(#[trigger] d[i])
}

/// The decimal value of a run of digits, of any length.
pub open spec fn digits_value(d: Seq<char>) -> int
    decreases d.len(),
{
    if d.len() == 0 {
        0
    } else {
        digits_value(d.drop_last()) * 10 + (d.last() as int - '0' as int)
    }
}

/// A piece's numeric value: a non-empty run of digits reads as its decimal
/// value, any other piece as 0.
pub open spec fn field_value(f: Seq<char>) -> int {
    if f.len() > 0 && all_digits(f) {
        digits_value(f)
    } else {
        0
    }
}

/// The numeric components of a version tag.
pub open spec fn components(s: Seq<char>) -> Seq<int> {
    fields(unprefixed(s)).map_values(|f: Seq<char>| field_value(f))
}

/// Component `i` of `p`, with missing trailing components read as 0.
pub open spec fn padded(p: Seq<int>, i: int) -> int {
    if 0 <= i < p.len() {
        p[i]
    } else {
        0
    }
}

pub open spec fn max_len(a: Seq<int>, b: Seq<int>) -> int {
    if a.len() >= b.len() {
        a.len() as int
    } else {
        b.len() as int
    }
}

/// Scanning from position `i`, the first differing component of `r` is larger.
pub open spec fn greater_from(r: Seq<int>, l: Seq<int>, i: int) -> bool
    decreases max_len(r, l) - i,
{
    if i < 0 || i >= max_len(r, l) {
        false
    } else if padded(r, i) > padded(l, i) {
        true
    } else if padded(r, i) < padded(l, i) {
        false
    } else {
        greater_from(r, l, i + 1)
    }
}

/// Whether the tag `remote` names a later release than `local`.
pub open spec fn remote_newer(local: Seq<char>, remote: Seq<char>) -> bool {
    greater_from(components(remote), components(local), 0)
}

pub open spec fn pow10(n: nat) -> int
    decreases n,
{
    if n == 0 {
        1
    } else {
        10 * pow10((n - 1) as nat)
    }
}

proof fn lemma_digits_prefix(d: Seq<char>)
    requires
        all_digits(d),
        d.len() > 0,
    ensures
        all_digits(d.drop_last()),
        0 <= d.last() as int - '0' as int <= 9,
{
    assert forall|k: int| 0 <= k < d.drop_last().len() implies is_digit(#[trigger] d.drop_last()[k]) by {
        assert(d.drop_last()[k] == d[k]);
    }
    assert(is_digit(d[d.len() - 1]));
}

/// A run of digits lies in `[0, 10^len)`.
proof fn lemma_digits_bound(d: Seq<char>)
    requires
        all_digits(d),
    ensures
        0 <= digits_value(d) < pow10(d.len()),
    decreases d.len(),
{
    if d.len() > 0 {
        lemma_digits_prefix(d);
        lemma_digits_bound(d.drop_last());
        let v = digits_value(d.drop_last());
        let p = pow10(d.drop_last().len());
        let c = d.last() as int - '0' as int;
        assert(v * 10 + c < 10 * p) by (nonlinear_arith)
            requires
                v < p,
                0 <= c <= 9,
        ;
    }
}

proof fn lemma_digits_concat(x: Seq<char>, y: Seq<char>)
    ensures
        digits_value(x + y) == digits_value(x) * pow10(y.len()) + digits_value(y),
    decreases y.len(),
{
    if y.len() == 0 {
        assert(x + y =~= x);
    } else {
        lemma_digits_concat(x, y.drop_last());
        assert((x + y).drop_last() =~= x + y.drop_last());
        assert((x + y).last() == y.last());
        let vx = digits_value(x);
        let p = pow10(y.drop_last().len());
        let vy = digits_value(y.drop_last());
        let c = y.last() as int - '0' as int;
        assert((vx * p + vy) * 10 + c == vx * (10 * p) + (vy * 10 + c)) by (nonlinear_arith);
    }
}

proof fn lemma_zeros_value(z: Seq<char>)
    requires
        forall|i: int| 0 <= i < z.len() ==> #[trigger] z[i] == '0',
    ensures
        digits_value(z) == 0,
    decreases z.len(),
{
    if z.len() > 0 {
        assert forall|i: int| 0 <= i < z.drop_last().len() implies #[trigger] z.drop_last()[i] == '0' by {
            assert(z.drop_last()[i] == z[i]);
        }
        lemma_zeros_value(z.drop_last());
        assert(z[z.len() - 1] == '0');
    }
}

/// Of two digit runs of equal length that agree before position `k`, the
/// one with the smaller digit at `k` has the smaller value.
proof fn lemma_first_difference(a: Seq<char>, b: Seq<char>, k: int)
    requires
        a.len() == b.len(),
        all_digits(a),
        all_digits(b),
        0 <= k < a.len(),
        a.take(k) == b.take(k),
        a[k] < b[k],
    ensures
        digits_value(a) < digits_value(b),
{
    let n = a.len();
    let rest = (n - k - 1) as nat;
    assert(a =~= a.take(k + 1) + a.skip(k + 1));
    assert(b =~= b.take(k + 1) + b.skip(k + 1));
    lemma_digits_concat(a.take(k + 1), a.skip(k + 1));
    lemma_digits_concat(b.take(k + 1), b.skip(k + 1));
    assert(all_digits(a.skip(k + 1))) by {
        assert forall|i: int| 0 <= i < a.skip(k + 1).len() implies is_digit(#[trigger] a.skip(k + 1)[i]) by {
            assert(a.skip(k + 1)[i] == a[k + 1 + i]);
        }
    }
    assert(all_digits(b.skip(k + 1))) by {
        assert forall|i: int| 0 <= i < b.skip(k + 1).len() implies is_digit(#[trigger] b.skip(k + 1)[i]) by {
            assert(b.skip(k + 1)[i] == b[k + 1 + i]);
        }
    }
    lemma_digits_bound(a.skip(k + 1));
    lemma_digits_bound(b.skip(k + 1));
    assert(a.take(k + 1).drop_last() =~= a.take(k));
    assert(b.take(k + 1).drop_last() =~= b.take(k));
    assert(is_digit(a[k]) && is_digit(b[k]));
    let va = digits_value(a.take(k + 1));
    let vb = digits_value(b.take(k + 1));
    assert(va < vb);
    let p = pow10(rest);
    let ra = digits_value(a.skip(k + 1));
    let rb = digits_value(b.skip(k + 1));
    assert(a.skip(k + 1).len() == rest);
    assert(va * p + ra < vb * p + rb) by (nonlinear_arith)
        requires
            va + 1 <= vb,
            0 <= ra < p,
            0 <= rb,
    ;
}

/// The run `d` preceded by `z` zeros.
pub open spec fn zero_padded(d: Seq<char>, z: nat) -> Seq<char> {
    Seq::new(z, |i: int| '0') + d
}

proof fn lemma_zero_padded(d: Seq<char>, z: nat)
    requires
        all_digits(d),
    ensures
        all_digits(zero_padded(d, z)),
        digits_value(zero_padded(d, z)) == digits_value(d),
        zero_padded(d, z).len() == z + d.len(),
{
    let zs = Seq::new(z, |i: int| '0');
    lemma_zeros_value(zs);
    lemma_digits_concat(zs, d);
    let p = zero_padded(d, z);
    assert forall|i: int| 0 <= i < p.len() implies is_digit(#[trigger] p[i]) by {
        if i >= z {
            assert(p[i] == d[i - z]);
        }
    }
}

/// Compares two digit runs by value: negative, zero or positive as `a` is
/// below, equal to or above `b`. Runs of any length compare correctly.
fn compare_digits(a: &Vec<char>, b: &Vec<char>) -> (r: i8)
    requires
        all_digits(a@),
        all_digits(b@),
    ensures
        r < 0 <==> digits_value(a@) < digits_value(b@),
        r == 0 <==> digits_value(a@) == digits_value(b@),
{
    let n: usize = if a.len() >= b.len() { a.len() } else { b.len() };
    let za: usize = n - a.len();
    let zb: usize = n - b.len();
    let ghost pa = zero_padded(a@, za as nat);
    let ghost pb = zero_padded(b@, zb as nat);
    proof {
        lemma_zero_padded(a@, za as nat);
        lemma_zero_padded(b@, zb as nat);
    }
    let mut i: usize = 0;
    while i < n
        invariant
            i <= n,
            n == pa.len(),
            n == pb.len(),
            za == n - a@.len(),
            zb == n - b@.len(),
            pa == zero_padded(a@, za as nat),
            pb == zero_padded(b@, zb as nat),
            all_digits(pa),
            all_digits(pb),
            digits_value(pa) == digits_value(a@),
            digits_value(pb) == digits_value(b@),
            pa.take(i as int) == pb.take(i as int),
        decreases n - i,
    {
        let ca: char = if i < za { '0' } else { a[i - za] };
        let cb: char = if i < zb { '0' } else { b[i - zb] };
        assert(ca == pa[i as int]);
        assert(cb == pb[i as int]);
        if ca < cb {
            proof {
                lemma_first_difference(pa, pb, i as int);
            }
            return -1;
        }
        if ca > cb {
            proof {
                lemma_first_difference(pb, pa, i as int);
            }
            return 1;
        }
        assert(pa.take(i + 1) =~= pa.take(i as int).push(ca));
        assert(pb.take(i + 1) =~= pb.take(i as int).push(cb));
        i = i + 1;
    }
    assert(pa =~= pa.take(n as int));
    assert(pb =~= pb.take(n as int));
    0
}

/// `f` itself when it is a non-empty run of digits, else the empty run;
/// either way a run whose value is `field_value(f)`.
fn readable(f: Vec<char>) -> (r: Vec<char>)
    ensures
        all_digits(r@),
        digits_value(r@) == field_value(f@),
{
    let mut i: usize = 0;
    while i < f.len()
        invariant
            i <= f@.len(),
            forall|k: int| 0 <= k < i ==> is_digit(#[trigger] f@[k]),
        decreases f@.len() - i,
    {
        if !('0' <= f[i] && f[i] <= '9') {
            assert(!is_digit(f@[i as int]));
            return Vec::new();
        }
        i = i + 1;
    }
    if f.len() == 0 {
        return Vec::new();
    }
    f
}

/// Index of the first character after the optional leading `v`.
fn prefix_end(s: &Vec<char>) -> (r: usize)
    ensures
        r <= s@.len(),
        unprefixed(s@) == s@.subrange(r as int, s@.len() as int),
{
    if s.len() > 0 && s[0] == 'v' {
        assert(s@.drop_first() =~= s@.subrange(1, s@.len() as int));
        1
    } else {
        assert(s@ =~= s@.subrange(0, s@.len() as int));
        0
    }
}

/// The components of `s[start..]`, each as a run of digits of the same value.
fn read_components(s: &Vec<char>, start: usize) -> (r: Vec<Vec<char>>)
    requires
        start <= s@.len(),
    ensures
        r@.len() == fields(s@.subrange(start as int, s@.len() as int)).len(),
        forall|k: int|
            0 <= k < r@.len() ==> all_digits(#[trigger] r@[k]@) && digits_value(r@[k]@) == field_value(
                fields(s@.subrange(start as int, s@.len() as int))[k],
            ),
{
    let n = s.len();
    let mut done: Vec<Vec<char>> = Vec::new();
    let mut cur: Vec<char> = Vec::new();
    let mut i: usize = start;
    assert(s@.subrange(start as int, start as int) =~= Seq::<char>::empty());
    while i < n
        invariant
            start <= i <= n,
            n == s@.len(),
            fields(s@.subrange(start as int, i as int)).len() == done@.len() + 1,
            fields(s@.subrange(start as int, i as int)).last() == cur@,
            forall|k: int|
                0 <= k < done@.len() ==> all_digits(#[trigger] done@[k]@) && digits_value(done@[k]@)
                    == field_value(fields(s@.subrange(start as int, i as int))[k]),
        decreases n - i,
    {
        let ghost before = fields(s@.subrange(start as int, i as int));
        let ghost t = s@.subrange(start as int, i + 1);
        assert(t.drop_last() =~= s@.subrange(start as int, i as int));
        assert(t.last() == s@[i as int]);
        if s[i] == '.' {
            let piece = readable(cur);
            done.push(piece);
            cur = Vec::new();
            assert(fields(t) == before.push(Seq::<char>::empty()));
        } else {
            cur.push(s[i]);
        }
        i = i + 1;
    }
    let piece = readable(cur);
    done.push(piece);
    done
}

/// Whether `remote` names a later release than `local`. Both lose one leading
/// `v`, split at dots, and compare piece by piece from the left as
/// non-negative integers of any size, a missing or unreadable piece counting
/// as 0; equal tags are not newer.
pub fn is_remote_newer(local: &str, remote: &str) -> (r: bool)
    ensures
        r == remote_newer(local@, remote@),
{
    let lc = chars_of(local);
    let rc = chars_of(remote);
    let ls = prefix_end(&lc);
    let rs = prefix_end(&rc);
    let lp = read_components(&lc, ls);
    let rp = read_components(&rc, rs);
    let ghost l = components(local@);
    let ghost r = components(remote@);
    let empty: Vec<char> = Vec::new();
    let len: usize = if lp.len() >= rp.len() { lp.len() } else { rp.len() };
    let mut i: usize = 0;
    while i < len
        invariant
            i <= len,
            len == max_len(r, l),
            l == components(local@),
            r == components(remote@),
            l.len() == lp@.len(),
            r.len() == rp@.len(),
            empty@.len() == 0,
            forall|k: int| 0 <= k < lp@.len() ==> all_digits(#[trigger] lp@[k]@) && digits_value(lp@[k]@) == l[k],
            forall|k: int| 0 <= k < rp@.len() ==> all_digits(#[trigger] rp@[k]@) && digits_value(rp@[k]@) == r[k],
            greater_from(r, l, 0) == greater_from(r, l, i as int),
        decreases len - i,
    {
        let lv: &Vec<char> = if i < lp.len() { &lp[i] } else { &empty };
        let rv: &Vec<char> = if i < rp.len() { &rp[i] } else { &empty };
        assert(digits_value(lv@) == padded(l, i as int));
        assert(digits_value(rv@) == padded(r, i as int));
        let c = compare_digits(rv, lv);
        if c > 0 {
            assert(greater_from(r, l, i as int));
            return true;
        }
        if c < 0 {
            assert(!greater_from(r, l, i as int));
            return false;
        }
        i = i + 1;
    }
    false
}

/// `s` is a tag of dot-separated non-negative decimal numbers, of any size,
/// with at most one leading `v`.
pub open spec fn plain_version(s: Seq<char>) -> bool {
    forall|k: int|
        0 <= k < fields(unprefixed(s)).len() ==> {
            let f = #[trigger] fields(unprefixed(s))[k];
            f.len() > 0 && all_digits(f)
        }
}

/// The numbers of a tag that satisfies `plain_version`.
pub open spec fn plain_numbers(s: Seq<char>) -> Seq<int> {
    fields(unprefixed(s)).map_values(|f: Seq<char>| digits_value(f))
}

/// `r` comes after `l` in lexicographic order once the shorter is padded with zeros.
pub open spec fn padded_greater(r: Seq<int>, l: Seq<int>) -> bool {
    exists|k: int|
        0 <= k < max_len(r, l) && #[trigger] padded(r, k) > padded(l, k) && forall|j: int|
            0 <= j < k ==> #[trigger] padded(r, j) == padded(l, j)
}

proof fn lemma_greater_from(r: Seq<int>, l: Seq<int>, i: int)
    requires
        0 <= i,
    ensures
        greater_from(r, l, i) == exists|k: int|
            i <= k < max_len(r, l) && #[trigger] padded(r, k) > padded(l, k) && forall|j: int|
                i <= j < k ==> #[trigger] padded(r, j) == padded(l, j),
    decreases max_len(r, l) - i,
{
    if i < max_len(r, l) {
        lemma_greater_from(r, l, i + 1);
        if padded(r, i) > padded(l, i) {
            assert(forall|j: int| i <= j < i ==> #[trigger] padded(r, j) == padded(l, j));
        } else if padded(r, i) < padded(l, i) {
            if exists|k: int|
                i <= k < max_len(r, l) && #[trigger] padded(r, k) > padded(l, k) && forall|j: int|
                    i <= j < k ==> #[trigger] padded(r, j) == padded(l, j) {
                let k = choose|k: int|
                    i <= k < max_len(r, l) && #[trigger] padded(r, k) > padded(l, k) && forall|j: int|
                        i <= j < k ==> #[trigger] padded(r, j) == padded(l, j);
                if k > i {
                    assert(padded(r, i) == padded(l, i));
                }
            }
        } else {
            if exists|k: int|
                i <= k < max_len(r, l) && #[trigger] padded(r, k) > padded(l, k) && forall|j: int|
                    i <= j < k ==> #[trigger] padded(r, j) == padded(l, j) {
                let k = choose|k: int|
                    i <= k < max_len(r, l) && #[trigger] padded(r, k) > padded(l, k) && forall|j: int|
                        i <= j < k ==> #[trigger] padded(r, j) == padded(l, j);
                assert(k > i);
                assert(forall|j: int| i + 1 <= j < k ==> #[trigger] padded(r, j) == padded(l, j));
            }
            if greater_from(r, l, i + 1) {
                let k = choose|k: int|
                    i + 1 <= k < max_len(r, l) && #[trigger] padded(r, k) > padded(l, k) && forall|j: int|
                        i + 1 <= j < k ==> #[trigger] padded(r, j) == padded(l, j);
                assert(forall|j: int| i <= j < k ==> #[trigger] padded(r, j) == padded(l, j));
            }
        }
    }
}

proof fn lemma_plain_components(s: Seq<char>)
    requires
        plain_version(s),
    ensures
        components(s) == plain_numbers(s),
{
    let t = unprefixed(s);
    assert forall|k: int| 0 <= k < fields(t).len() implies #[trigger] field_value(fields(t)[k]) == digits_value(
        fields(t)[k],
    ) by {
        let f = fields(t)[k];
        assert(f.len() > 0 && all_digits(f));
    }
    assert(components(s) =~= plain_numbers(s));
}

/// For tags made of dot-separated non-negative decimal numbers of any size,
/// with an optional leading `v`, the remote tag is newer exactly when its
/// numbers come later in lexicographic order after padding the shorter with
/// zeros; numbers equal after padding are never newer.
pub proof fn remote_newer_is_padded_order(local: Seq<char>, remote: Seq<char>)
    requires
        plain_version(local),
        plain_version(remote),
    ensures
        remote_newer(local, remote) == padded_greater(plain_numbers(remote), plain_numbers(local)),
        (forall|i: int| #[trigger] padded(plain_numbers(remote), i) == padded(plain_numbers(local), i))
            ==> !remote_newer(local, remote),
{
    lemma_plain_components(local);
    lemma_plain_components(remote);
    lemma_greater_from(plain_numbers(remote), plain_numbers(local), 0);
}

} // verus!
