//! Byte-level scanning used by the incremental stream parsers: finding line
//! and event-block delimiters, blankness, and ASCII trimming, each as a spec
//! function with a verified executable counterpart.

use vstd::prelude::*;

verus! {

/// Index of the first occurrence of `b` in `s`, if any.
pub open spec fn find_byte(s: Seq<u8>, b: u8) -> Option<int>
    decreases s.len(),
{
    if s.len() == 0 {
        None
    } else if s[0] == b {
        Some(0int)
    } else {
        match find_byte(s.skip(1), b) {
            Some(i) => Some(i + 1),
            None => None,
        }
    }
}

/// Index of the first adjacent pair of newline bytes in `s`, if any: the
/// delimiter that ends one SSE event block.
pub open spec fn find_delim2(s: Seq<u8>) -> Option<int>
    decreases s.len(),
{
    if s.len() < 2 {
        None
    } else if s[0] == 10 && s[1] == 10 {
        Some(0int)
    } else {
        match find_delim2(s.skip(1)) {
            Some(i) => Some(i + 1),
            None => None,
        }
    }
}

pub proof fn lemma_find_byte_props(s: Seq<u8>, b: u8)
    ensures
        match find_byte(s, b) {
            Some(i) => 0 <= i < s.len() && s[i] == b && (forall|j: int| 0 <= j < i ==> s[j] != b),
            None => forall|j: int| 0 <= j < s.len() ==> s[j] != b,
        },
    decreases s.len(),
{
    if s.len() > 0 && s[0] != b {
        lemma_find_byte_props(s.skip(1), b);
        assert forall|j: int| 1 <= j < s.len() implies s[j] == s.skip(1)[j - 1] by {}
    }
}

pub proof fn lemma_find_byte_witness(s: Seq<u8>, b: u8, i: int)
    requires
        0 <= i < s.len(),
        s[i] == b,
        forall|j: int| 0 <= j < i ==> s[j] != b,
    ensures
        find_byte(s, b) == Some(i),
    decreases s.len(),
{
    if s[0] != b {
        lemma_find_byte_witness(s.skip(1), b, i - 1);
    }
}

pub proof fn lemma_find_delim2_props(s: Seq<u8>)
    ensures
        match find_delim2(s) {
            Some(i) => 0 <= i && i + 2 <= s.len() && s[i] == 10 && s[i + 1] == 10
                && (forall|j: int| 0 <= j < i ==> !(#[trigger] s[j] == 10 && s[j + 1] == 10)),
            None => forall|j: int| 0 <= j && j + 2 <= s.len() ==> !(#[trigger] s[j] == 10 && s[j + 1] == 10),
        },
    decreases s.len(),
{
    if s.len() >= 2 && !(s[0] == 10 && s[1] == 10) {
        lemma_find_delim2_props(s.skip(1));
        assert forall|j: int| 1 <= j < s.len() implies s[j] == s.skip(1)[j - 1] by {}
    }
}

pub proof fn lemma_find_delim2_witness(s: Seq<u8>, i: int)
    requires
        0 <= i,
        i + 2 <= s.len(),
        s[i] == 10,
        s[i + 1] == 10,
        forall|j: int| 0 <= j < i ==> !(#[trigger] s[j] == 10 && s[j + 1] == 10),
    ensures
        find_delim2(s) == Some(i),
    decreases s.len(),
{
    if !(s[0] == 10 && s[1] == 10) {
        lemma_find_delim2_witness(s.skip(1), i - 1);
    }
}

/// The first occurrence of `b` inside `a` is also the first one in `a + t`.
pub proof fn lemma_find_byte_prefix(a: Seq<u8>, t: Seq<u8>, b: u8)
    requires
        find_byte(a, b) is Some,
    ensures
        find_byte(a + t, b) == find_byte(a, b),
{
    lemma_find_byte_props(a, b);
    let i = find_byte(a, b)->Some_0;
    lemma_find_byte_witness(a + t, b, i);
}

/// The first newline pair inside `a` is also the first one in `a + t`.
pub proof fn lemma_find_delim2_prefix(a: Seq<u8>, t: Seq<u8>)
    requires
        find_delim2(a) is Some,
    ensures
        find_delim2(a + t) == find_delim2(a),
{
    lemma_find_delim2_props(a);
    let i = find_delim2(a)->Some_0;
    lemma_find_delim2_witness(a + t, i);
}

/// The whitespace bytes that `u8::is_ascii_whitespace` recognizes.
pub open spec fn is_ascii_ws(b: u8) -> bool {
    b == 32 || b == 9 || b == 10 || b == 12 || b == 13
}

/// A sequence of bytes that is empty once trimmed.
pub open spec fn is_blank(s: Seq<u8>) -> bool {
    forall|i: int| 0 <= i < s.len() ==> is_ascii_ws(s[i])
}

pub open spec fn trim_front(s: Seq<u8>) -> Seq<u8>
    decreases s.len(),
{
    if s.len() > 0 && is_ascii_ws(s[0]) {
        trim_front(s.skip(1))
    } else {
        s
    }
}

pub open spec fn trim_back(s: Seq<u8>) -> Seq<u8>
    decreases s.len(),
{
    if s.len() > 0 && is_ascii_ws(s[s.len() - 1]) {
        trim_back(s.take(s.len() - 1))
    } else {
        s
    }
}

/// `s` with leading and trailing ASCII whitespace removed.
pub open spec fn trim_ascii(s: Seq<u8>) -> Seq<u8> {
    trim_back(trim_front(s))
}

proof fn lemma_trim_front_bound(s: Seq<u8>, lo: int)
    requires
        0 <= lo <= s.len(),
        forall|i: int| 0 <= i < lo ==> is_ascii_ws(s[i]),
        lo == s.len() || !is_ascii_ws(s[lo]),
    ensures
        trim_front(s) == s.skip(lo),
    decreases lo,
{
    if lo == 0 {
        assert(s.skip(0) =~= s);
    } else {
        lemma_trim_front_bound(s.skip(1), lo - 1);
        assert(s.skip(1).skip(lo - 1) =~= s.skip(lo));
    }
}

proof fn lemma_trim_back_bound(s: Seq<u8>, hi: int)
    requires
        0 <= hi <= s.len(),
        forall|i: int| hi <= i < s.len() ==> is_ascii_ws(s[i]),
        hi == 0 || !is_ascii_ws(s[hi - 1]),
    ensures
        trim_back(s) == s.take(hi),
    decreases s.len() - hi,
{
    if hi == s.len() {
        assert(s.take(hi) =~= s);
    } else {
        lemma_trim_back_bound(s.take(s.len() - 1), hi);
        assert(s.take(s.len() - 1).take(hi) =~= s.take(hi));
    }
}

/// If everything before `lo` and everything from `hi` on is whitespace, and
/// the bytes at `lo` and `hi - 1` are not, then trimming yields exactly
/// `s.subrange(lo, hi)`.
pub proof fn lemma_trim_bounds(s: Seq<u8>, lo: int, hi: int)
    requires
        0 <= lo <= hi <= s.len(),
        forall|i: int| 0 <= i < lo ==> is_ascii_ws(s[i]),
        forall|i: int| hi <= i < s.len() ==> is_ascii_ws(s[i]),
        lo == hi || (!is_ascii_ws(s[lo]) && !is_ascii_ws(s[hi - 1])),
    ensures
        trim_ascii(s) == s.subrange(lo, hi),
{
    if lo == hi {
        // everything is whitespace: both trims run to the empty sequence
        lemma_trim_front_bound(s, s.len() as int);
        assert(s.skip(s.len() as int) =~= Seq::<u8>::empty());
        lemma_trim_back_bound(Seq::<u8>::empty(), 0);
        assert(Seq::<u8>::empty().take(0) =~= s.subrange(lo, hi));
    } else {
        lemma_trim_front_bound(s, lo);
        lemma_trim_back_bound(s.skip(lo), hi - lo);
        assert(s.skip(lo).take(hi - lo) =~= s.subrange(lo, hi));
    }
}

/// First index of byte `b` in `v`, scanning from the front.
pub(crate) fn find_byte_exec(v: &Vec<u8>, b: u8) -> (r: Option<usize>)
    ensures
        match r {
            Some(i) => find_byte(v@, b) == Some(i as int),
            None => find_byte(v@, b) is None,
        },
{
    let mut i: usize = 0;
    while i < v.len()
        invariant
            0 <= i <= v@.len(),
            forall|j: int| 0 <= j < i ==> v@[j] != b,
        decreases v@.len() - i,
    {
        if v[i] == b {
            proof {
                lemma_find_byte_witness(v@, b, i as int);
            }
            return Some(i);
        }
        i = i + 1;
    }
    proof {
        lemma_find_byte_props(v@, b);
    }
    None
}

/// First index of byte `b` in `v` at or after `from`.
pub(crate) fn find_byte_from(v: &Vec<u8>, b: u8, from: usize) -> (r: Option<usize>)
    requires
        from <= v@.len(),
    ensures
        match r {
            Some(i) => from <= i && i < v@.len() && find_byte(v@.skip(from as int), b) == Some(
                i - from,
            ),
            None => find_byte(v@.skip(from as int), b) is None,
        },
{
    let mut i: usize = from;
    while i < v.len()
        invariant
            from <= i <= v@.len(),
            forall|j: int| from <= j < i ==> v@[j] != b,
        decreases v@.len() - i,
    {
        if v[i] == b {
            proof {
                lemma_find_byte_witness(v@.skip(from as int), b, i as int - from as int);
            }
            return Some(i);
        }
        i = i + 1;
    }
    proof {
        lemma_find_byte_props(v@.skip(from as int), b);
    }
    None
}

/// First index of an adjacent newline pair in `v`.
pub(crate) fn find_delim2_exec(v: &Vec<u8>) -> (r: Option<usize>)
    ensures
        match r {
            Some(i) => find_delim2(v@) == Some(i as int),
            None => find_delim2(v@) is None,
        },
{
    let n = v.len();
    if n < 2 {
        proof {
            lemma_find_delim2_props(v@);
        }
        return None;
    }
    let mut i: usize = 0;
    while i + 1 < n
        invariant
            0 <= i,
            i + 1 <= n,
            n == v@.len(),
            forall|j: int| 0 <= j < i ==> !(#[trigger] v@[j] == 10 && v@[j + 1] == 10),
        decreases v@.len() - i,
    {
        if v[i] == 10 && v[i + 1] == 10 {
            proof {
                lemma_find_delim2_witness(v@, i as int);
            }
            return Some(i);
        }
        i = i + 1;
    }
    proof {
        lemma_find_delim2_props(v@);
    }
    None
}

fn is_ws_byte(b: u8) -> (r: bool)
    ensures
        r == is_ascii_ws(b),
{
    b == 32 || b == 9 || b == 10 || b == 12 || b == 13
}

/// Whether every byte of `v` is ASCII whitespace.
pub(crate) fn is_blank_exec(v: &Vec<u8>) -> (r: bool)
    ensures
        r == is_blank(v@),
{
    let mut i: usize = 0;
    while i < v.len()
        invariant
            0 <= i <= v@.len(),
            forall|j: int| 0 <= j < i ==> is_ascii_ws(v@[j]),
        decreases v@.len() - i,
    {
        if !is_ws_byte(v[i]) {
            return false;
        }
        i = i + 1;
    }
    true
}

/// A copy of `v[lo..hi]`.
pub(crate) fn copy_range(v: &Vec<u8>, lo: usize, hi: usize) -> (t: Vec<u8>)
    requires
        lo <= hi <= v@.len(),
    ensures
        t@ == v@.subrange(lo as int, hi as int),
{
    let mut t: Vec<u8> = Vec::new();
    let mut i: usize = lo;
    while i < hi
        invariant
            lo <= i <= hi <= v@.len(),
            t@ == v@.subrange(lo as int, i as int),
        decreases hi - i,
    {
        t.push(v[i]);
        proof {
            assert(v@.subrange(lo as int, i + 1 as int) =~= v@.subrange(lo as int, i as int).push(
                v@[i as int],
            ));
        }
        i = i + 1;
    }
    t
}

/// A copy of `v` with leading and trailing ASCII whitespace removed.
pub(crate) fn trim_ascii_exec(v: &Vec<u8>) -> (t: Vec<u8>)
    ensures
        t@ == trim_ascii(v@),
{
    let mut lo: usize = 0;
    while lo < v.len() && is_ws_byte(v[lo])
        invariant
            0 <= lo <= v@.len(),
            forall|i: int| 0 <= i < lo ==> is_ascii_ws(v@[i]),
        decreases v@.len() - lo,
    {
        lo = lo + 1;
    }
    let mut hi: usize = v.len();
    while hi > lo && is_ws_byte(v[hi - 1])
        invariant
            lo <= hi <= v@.len(),
            forall|i: int| hi <= i < v@.len() ==> is_ascii_ws(v@[i]),
        decreases hi,
    {
        hi = hi - 1;
    }
    proof {
        lemma_trim_bounds(v@, lo as int, hi as int);
    }
    copy_range(v, lo, hi)
}

} // verus!
