//! Byte-sequence utilities: whitespace trimming, sub-slice search, equality
//! and lexicographic ordering, each with an exact contract over `Seq<u8>`.

use vstd::prelude::*;

verus! {

/// ASCII whitespace as the tool's text handling understands it: space and the
/// control characters tab through carriage return.
pub open spec fn is_space(b: u8) -> bool {
    b == 32 || (9 <= b && b <= 13)
}

/// `s` with its leading whitespace removed.
pub open spec fn trim_front_spec(s: Seq<u8>) -> Seq<u8>
    decreases s.len(),
{
    if s.len() > 0 && is_space(s[0]) {
        trim_front_spec(s.drop_first())
    } else {
        s
    }
}

/// `s` with its trailing whitespace removed.
pub open spec fn trim_back_spec(s: Seq<u8>) -> Seq<u8>
    decreases s.len(),
{
    if s.len() > 0 && is_space(s.last()) {
        trim_back_spec(s.drop_last())
    } else {
        s
    }
}

/// `s` with whitespace removed from both ends.
pub open spec fn trim_spec(s: Seq<u8>) -> Seq<u8> {
    trim_back_spec(trim_front_spec(s))
}

/// `n` occurs in `h` starting at position `i`.
pub open spec fn matches_at_spec(h: Seq<u8>, i: int, n: Seq<u8>) -> bool {
    0 <= i && i + n.len() <= h.len() && h.subrange(i, i + n.len()) == n
}

/// `n` occurs somewhere in `h`.
pub open spec fn contains_spec(h: Seq<u8>, n: Seq<u8>) -> bool {
    exists|i: int| matches_at_spec(h, i, n)
}

/// `p` is a prefix of `s`.
pub open spec fn has_prefix(s: Seq<u8>, p: Seq<u8>) -> bool {
    matches_at_spec(s, 0, p)
}

/// `p` is a suffix of `s`.
pub open spec fn has_suffix(s: Seq<u8>, p: Seq<u8>) -> bool {
    matches_at_spec(s, s.len() - p.len(), p)
}

/// Strict byte-wise lexicographic order, the order in which branches are
/// visited.
pub open spec fn lex_lt_spec(a: Seq<u8>, b: Seq<u8>) -> bool
    decreases a.len(),
{
    if b.len() == 0 {
        false
    } else if a.len() == 0 {
        true
    } else if a[0] < b[0] {
        true
    } else if a[0] > b[0] {
        false
    } else {
        lex_lt_spec(a.drop_first(), b.drop_first())
    }
}

proof fn lemma_trim_front_is_subrange(s: Seq<u8>, k: int)
    requires
        0 <= k <= s.len(),
        forall|i: int| 0 <= i < k ==> is_space(s[i]),
        k == s.len() || !is_space(s[k]),
    ensures
        trim_front_spec(s) == s.subrange(k, s.len() as int),
    decreases k,
{
    if k == 0 {
        assert(s.subrange(0, s.len() as int) =~= s);
    } else {
        let t = s.drop_first();
        assert(t =~= s.subrange(1, s.len() as int));
        lemma_trim_front_is_subrange(t, k - 1);
        assert(t.subrange(k - 1, t.len() as int) =~= s.subrange(k, s.len() as int));
    }
}

proof fn lemma_trim_back_is_subrange(s: Seq<u8>, k: int)
    requires
        0 <= k <= s.len(),
        forall|i: int| k <= i < s.len() ==> is_space(s[i]),
        k == 0 || !is_space(s[k - 1]),
    ensures
        trim_back_spec(s) == s.subrange(0, k),
    decreases s.len() - k,
{
    if k == s.len() {
        if s.len() == 0 {
            assert(s.subrange(0, 0) =~= s);
        } else {
            assert(!is_space(s.last()));
            assert(s.subrange(0, s.len() as int) =~= s);
        }
    } else {
        let t = s.drop_last();
        assert(is_space(s.last()));
        assert(t =~= s.subrange(0, s.len() - 1));
        lemma_trim_back_is_subrange(t, k);
        assert(t.subrange(0, k) =~= s.subrange(0, k));
    }
}

/// True exactly when `b` counts as whitespace.
pub fn is_space_byte(b: u8) -> (r: bool)
    ensures
        r == is_space(b),
{
    b == 32 || (9 <= b && b <= 13)
}

/// A copy of `s[lo..hi]`.
pub fn subrange_copy(s: &Vec<u8>, lo: usize, hi: usize) -> (r: Vec<u8>)
    requires
        lo <= hi <= s@.len(),
    ensures
        r@ == s@.subrange(lo as int, hi as int),
{
    let mut r: Vec<u8> = Vec::new();
    let mut i: usize = lo;
    while i < hi
        invariant
            lo <= i <= hi <= s@.len(),
            r@ == s@.subrange(lo as int, i as int),
        decreases hi - i,
    {
        r.push(s[i]);
        proof {
            assert(s@.subrange(lo as int, i as int).push(s@[i as int]) =~= s@.subrange(
                lo as int,
                i + 1,
            ));
        }
        i = i + 1;
    }
    r
}

/// `s` with whitespace removed from both ends, as `str::trim` would leave an
/// ASCII line.
pub fn trim(s: &Vec<u8>) -> (r: Vec<u8>)
    ensures
        r@ == trim_spec(s@),
{
    let mut lo: usize = 0;
    while lo < s.len() && is_space_byte(s[lo])
        invariant
            lo <= s@.len(),
            forall|i: int| 0 <= i < lo ==> is_space(s@[i]),
        decreases s@.len() - lo,
    {
        lo = lo + 1;
    }
    proof {
        lemma_trim_front_is_subrange(s@, lo as int);
    }
    if lo == s.len() {
        proof {
            assert(trim_front_spec(s@) =~= Seq::<u8>::empty());
            assert(trim_back_spec(Seq::<u8>::empty()) =~= Seq::<u8>::empty());
        }
        let r: Vec<u8> = Vec::new();
        proof {
            assert(r@ =~= trim_spec(s@));
        }
        return r;
    }
    let mut hi: usize = s.len();
    while hi > lo && is_space_byte(s[hi - 1])
        invariant
            lo <= hi <= s@.len(),
            forall|i: int| hi <= i < s@.len() ==> is_space(s@[i]),
        decreases hi,
    {
        hi = hi - 1;
    }
    proof {
        let f = trim_front_spec(s@);
        assert(f == s@.subrange(lo as int, s@.len() as int));
        assert(hi > lo);
        assert(!is_space(s@[hi - 1]));
        assert(forall|i: int|
            hi - lo <= i < f.len() ==> is_space(#[trigger] f[i]) && f[i] == s@[i + lo]);
        lemma_trim_back_is_subrange(f, hi - lo);
        assert(f.subrange(0, hi - lo) =~= s@.subrange(lo as int, hi as int));
    }
    subrange_copy(s, lo, hi)
}

/// True exactly when `n` occurs in `h` at position `i`.
pub fn matches_at(h: &Vec<u8>, i: usize, n: &Vec<u8>) -> (r: bool)
    ensures
        r == matches_at_spec(h@, i as int, n@),
{
    if i > h.len() || n.len() > h.len() - i {
        return false;
    }
    let ghost hl: usize = h.len();
    let mut j: usize = 0;
    while j < n.len()
        invariant
            h@.len() == hl as nat,
            i + n@.len() <= h@.len(),
            j <= n@.len(),
            forall|k: int| 0 <= k < j ==> h@[i + k] == n@[k],
        decreases n@.len() - j,
    {
        assert(i + j < h@.len());
        if h[i + j] != n[j] {
            proof {
                assert(h@.subrange(i as int, i + n@.len())[j as int] == h@[i + j]);
            }
            return false;
        }
        j = j + 1;
    }
    proof {
        assert(h@.subrange(i as int, i + n@.len()) =~= n@);
    }
    true
}

/// True exactly when `n` occurs somewhere in `h`.
pub fn contains_bytes(h: &Vec<u8>, n: &Vec<u8>) -> (r: bool)
    ensures
        r == contains_spec(h@, n@),
{
    if n.len() > h.len() {
        return false;
    }
    if n.len() == 0 {
        proof {
            assert(matches_at_spec(h@, 0, n@)) by {
                assert(h@.subrange(0, 0) =~= n@);
            }
        }
        return true;
    }
    let mut i: usize = 0;
    while i <= h.len() - n.len()
        invariant
            1 <= n@.len() <= h@.len(),
            i <= h@.len() - n@.len() + 1,
            forall|j: int| 0 <= j < i ==> !matches_at_spec(h@, j, n@),
        decreases h@.len() - i,
    {
        if matches_at(h, i, n) {
            return true;
        }
        i = i + 1;
    }
    false
}

/// True exactly when the two byte strings are equal.
pub fn bytes_eq(a: &Vec<u8>, b: &Vec<u8>) -> (r: bool)
    ensures
        r == (a@ == b@),
{
    if a.len() != b.len() {
        return false;
    }
    let r = matches_at(a, 0, b);
    proof {
        if r {
            assert(a@.subrange(0, a@.len() as int) =~= a@);
        } else {
            if a@ == b@ {
                assert(a@.subrange(0, b@.len() as int) =~= b@);
            }
        }
    }
    r
}

/// True exactly when `p` is a prefix of `s`.
pub fn starts_with(s: &Vec<u8>, p: &Vec<u8>) -> (r: bool)
    ensures
        r == has_prefix(s@, p@),
{
    matches_at(s, 0, p)
}

/// True exactly when `p` is a suffix of `s`.
pub fn ends_with(s: &Vec<u8>, p: &Vec<u8>) -> (r: bool)
    ensures
        r == has_suffix(s@, p@),
{
    if p.len() > s.len() {
        return false;
    }
    matches_at(s, s.len() - p.len(), p)
}

/// `a` followed by `b`.
pub fn concat_bytes(a: &Vec<u8>, b: &Vec<u8>) -> (r: Vec<u8>)
    ensures
        r@ == a@ + b@,
{
    let mut r: Vec<u8> = Vec::new();
    let mut i: usize = 0;
    while i < a.len()
        invariant
            i <= a@.len(),
            r@ == a@.subrange(0, i as int),
        decreases a@.len() - i,
    {
        r.push(a[i]);
        proof {
            assert(a@.subrange(0, i as int).push(a@[i as int]) =~= a@.subrange(0, i + 1));
        }
        i = i + 1;
    }
    proof {
        assert(a@.subrange(0, a@.len() as int) =~= a@);
    }
    let mut j: usize = 0;
    while j < b.len()
        invariant
            j <= b@.len(),
            r@ == a@ + b@.subrange(0, j as int),
        decreases b@.len() - j,
    {
        r.push(b[j]);
        proof {
            assert((a@ + b@.subrange(0, j as int)).push(b@[j as int]) =~= a@ + b@.subrange(
                0,
                j + 1,
            ));
        }
        j = j + 1;
    }
    proof {
        assert(a@ + b@.subrange(0, b@.len() as int) =~= a@ + b@);
    }
    r
}

/// True exactly when `a` comes strictly before `b` in lexicographic order.
pub fn lex_lt(a: &Vec<u8>, b: &Vec<u8>) -> (r: bool)
    ensures
        r == lex_lt_spec(a@, b@),
{
    proof {
        assert(a@.skip(0) =~= a@);
        assert(b@.skip(0) =~= b@);
    }
    let mut i: usize = 0;
    while i < a.len() && i < b.len()
        invariant
            i <= a@.len(),
            i <= b@.len(),
            lex_lt_spec(a@, b@) == lex_lt_spec(a@.skip(i as int), b@.skip(i as int)),
        decreases a@.len() - i,
    {
        let x = a[i];
        let y = b[i];
        proof {
            assert(a@.skip(i as int)[0] == a@[i as int]);
            assert(b@.skip(i as int)[0] == b@[i as int]);
            assert(a@.skip(i as int).drop_first() =~= a@.skip(i + 1));
            assert(b@.skip(i as int).drop_first() =~= b@.skip(i + 1));
        }
        if x < y {
            return true;
        }
        if x > y {
            return false;
        }
        i = i + 1;
    }
    proof {
        if i == a.len() {
            assert(a@.skip(i as int) =~= Seq::<u8>::empty());
        } else {
            assert(b@.skip(i as int) =~= Seq::<u8>::empty());
        }
    }
    i < b.len()
}

/// Of two distinct byte strings, exactly one comes first: the order on branch
/// names is total.
pub proof fn lemma_lex_trichotomy(a: Seq<u8>, b: Seq<u8>)
    ensures
        lex_lt_spec(a, b) || lex_lt_spec(b, a) || a == b,
        lex_lt_spec(a, b) ==> !lex_lt_spec(b, a) && a != b,
        lex_lt_spec(b, a) ==> !lex_lt_spec(a, b) && a != b,
    decreases a.len(),
{
    if a.len() == 0 && b.len() == 0 {
        assert(a =~= b);
    } else if a.len() > 0 && b.len() > 0 {
        lemma_lex_trichotomy(a.drop_first(), b.drop_first());
        if a[0] == b[0] && a.drop_first() == b.drop_first() {
            assert forall|i: int| 0 <= i < a.len() implies a[i] == b[i] by {
                if i > 0 {
                    assert(a[i] == a.drop_first()[i - 1]);
                    assert(b[i] == b.drop_first()[i - 1]);
                }
            }
            assert(a =~= b);
        }
    }
}

/// Lexicographic order is transitive.
pub proof fn lemma_lex_transitive(a: Seq<u8>, b: Seq<u8>, c: Seq<u8>)
    requires
        lex_lt_spec(a, b),
        lex_lt_spec(b, c),
    ensures
        lex_lt_spec(a, c),
    decreases a.len(),
{
    if a.len() > 0 && b.len() > 0 && c.len() > 0 {
        if a[0] == b[0] && b[0] == c[0] {
            lemma_lex_transitive(a.drop_first(), b.drop_first(), c.drop_first());
        }
    }
}

} // verus!
