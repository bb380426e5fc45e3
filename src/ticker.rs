use vstd::prelude::*;
use vstd::string::*;

verus! {

/// `p` occurs in `s` starting at index `i`.
pub open spec fn occurs_at(s: Seq<char>, p: Seq<char>, i: int) -> bool {
    0 <= i && i + p.len() <= s.len() && s.subrange(i, i + p.len()) == p
}

/// `p` occurs somewhere in `s`.
pub open spec fn contains(s: Seq<char>, p: Seq<char>) -> bool {
    exists|i: int| occurs_at(s, p, i)
}

/// `s` with every occurrence of the non-empty pattern `p` removed, scanning
/// from the left and never letting two removed occurrences overlap.
pub open spec fn strip_all(s: Seq<char>, p: Seq<char>) -> Seq<char>
    decreases s.len(),
{
    if p.len() == 0 || s.len() < p.len() {
        s
    } else if s.subrange(0, p.len() as int) == p {
        strip_all(s.subrange(p.len() as int, s.len() as int), p)
    } else {
        seq![s[0]] + strip_all(s.subrange(1, s.len() as int), p)
    }
}

pub open spec fn usd() -> Seq<char> {
    seq!['U', 'S', 'D']
}

pub open spec fn usdc() -> Seq<char> {
    seq!['U', 'S', 'D', 'C']
}

pub open spec fn usdt() -> Seq<char> {
    seq!['U', 'S', 'D', 'T']
}

pub open spec fn perp_suffix() -> Seq<char> {
    seq!['.', 'P']
}

pub open spec fn dash() -> Seq<char> {
    seq!['-']
}

pub open spec fn slash() -> Seq<char> {
    seq!['/']
}

/// A raw ticker is acceptable when it names a USD denomination (`USDC` and
/// `USDT` both contain `USD`).
pub open spec fn has_usd_marker(raw: Seq<char>) -> bool {
    contains(raw, usd())
}

/// The venue-neutral base symbol: the perpetual marker, the quote currencies
/// and the punctuation removed, in that order.
pub open spec fn base_symbol(raw: Seq<char>) -> Seq<char> {
    strip_all(
        strip_all(
            strip_all(
                strip_all(strip_all(strip_all(raw, perp_suffix()), usdc()), usdt()),
                usd(),
            ),
            dash(),
        ),
        slash(),
    )
}

/// Whether `p` occurs in `s` at index `i`.
fn occurs_at_exec(s: &str, p: &str, i: usize) -> (r: bool)
    requires
        i <= s@.len(),
    ensures
        r == occurs_at(s@, p@, i as int),
{
    let n = s.unicode_len();
    let m = p.unicode_len();
    if m > n - i {
        return false;
    }
    let mut j: usize = 0;
    while j < m
        invariant
            n == s@.len(),
            m == p@.len(),
            i + m <= n,
            j <= m,
            forall|k: int| 0 <= k < j ==> s@[i + k] == p@[k],
        decreases m - j,
    {
        if s.get_char(i + j) != p.get_char(j) {
            assert(s@.subrange(i as int, i + m)[j as int] != p@[j as int]);
            return false;
        }
        j = j + 1;
    }
    assert(s@.subrange(i as int, i + m) =~= p@);
    true
}

/// Whether the two texts are equal.
pub fn same_text(a: &str, b: &str) -> (r: bool)
    ensures
        r == (a@ == b@),
{
    let n = a.unicode_len();
    if n != b.unicode_len() {
        return false;
    }
    let r = occurs_at_exec(a, b, 0);
    assert(r ==> a@.subrange(0, n as int) =~= a@);
    assert(a@.subrange(0, n as int) =~= a@);
    r
}

/// Whether `p` occurs anywhere in `s`.
pub fn contains_exec(s: &str, p: &str) -> (r: bool)
    ensures
        r == contains(s@, p@),
{
    let n = s.unicode_len();
    let mut i: usize = 0;
    while i < n
        invariant
            n == s@.len(),
            i <= n,
            forall|k: int| 0 <= k < i ==> !occurs_at(s@, p@, k),
        decreases n - i,
    {
        if occurs_at_exec(s, p, i) {
            return true;
        }
        i = i + 1;
    }
    if occurs_at_exec(s, p, n) {
        return true;
    }
    assert forall|k: int| !occurs_at(s@, p@, k) by {
        if 0 <= k < n {
            assert(!occurs_at(s@, p@, k));
        } else if k != n {
            assert(!(0 <= k && k + p@.len() <= s@.len()));
        }
    }
    false
}

/// Removes every occurrence of `p` from `s`, left to right.
pub fn strip_exec(s: &str, p: &str) -> (r: String)
    requires
        p@.len() > 0,
    ensures
        r@ == strip_all(s@, p@),
{
    let n = s.unicode_len();
    let m = p.unicode_len();
    let mut out = String::new();
    let mut i: usize = 0;
    assert(s@.subrange(0, n as int) =~= s@);
    assert(out@ + s@ =~= s@);
    while i < n
        invariant
            n == s@.len(),
            m == p@.len(),
            m > 0,
            i <= n,
            strip_all(s@, p@) == out@ + strip_all(s@.subrange(i as int, n as int), p@),
        decreases n - i,
    {
        let ghost rest = s@.subrange(i as int, n as int);
        if occurs_at_exec(s, p, i) {
            assert(rest.subrange(0, m as int) =~= s@.subrange(i as int, i + m));
            assert(rest.subrange(m as int, rest.len() as int) =~= s@.subrange(i + m, n as int));
            i = i + m;
        } else {
            let piece = s.substring_char(i, i + 1);
            proof {
                if rest.len() >= m {
                    assert(rest.subrange(0, m as int) =~= s@.subrange(i as int, i + m));
                }
                assert(rest.subrange(1, rest.len() as int) =~= s@.subrange(i + 1, n as int));
                assert(piece@ =~= seq![rest[0]]);
                assert(strip_all(rest, p@) == seq![rest[0]] + strip_all(
                    s@.subrange(i + 1, n as int),
                    p@,
                ));
            }
            out.append(piece);
            assert(strip_all(s@, p@) =~= out@ + strip_all(s@.subrange(i + 1, n as int), p@));
            i = i + 1;
        }
    }
    assert(s@.subrange(n as int, n as int) =~= Seq::<char>::empty());
    assert(out@ + Seq::<char>::empty() =~= out@);
    out
}

/// Stripping a pattern that does not occur changes nothing.
pub proof fn lemma_strip_absent(s: Seq<char>, p: Seq<char>)
    requires
        !contains(s, p),
    ensures
        strip_all(s, p) == s,
    decreases s.len(),
{
    if p.len() == 0 || s.len() < p.len() {
    } else {
        assert(!occurs_at(s, p, 0));
        let t = s.subrange(1, s.len() as int);
        assert forall|i: int| !occurs_at(t, p, i) by {
            if occurs_at(t, p, i) {
                assert(s.subrange(i + 1, i + 1 + p.len()) =~= t.subrange(i, i + p.len()));
                assert(occurs_at(s, p, i + 1));
            }
        }
        lemma_strip_absent(t, p);
        assert(s =~= seq![s[0]] + t);
    }
}

} // verus!
