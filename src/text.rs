//! Character-level string helpers with exact specifications.
use vstd::prelude::*;
use vstd::string::*;

verus! {

/// `p` occurs in `s` starting at character index `i`.
pub open spec fn occurs_at(s: Seq<char>, p: Seq<char>, i: int) -> bool {
    0 <= i && i + p.len() <= s.len() && s.subrange(i, i + p.len()) == p
}

/// `p` occurs somewhere in `s`.
pub open spec fn contains_seq(s: Seq<char>, p: Seq<char>) -> bool {
    exists|i: int| occurs_at(s, p, i)
}

/// `i` is the first occurrence of `p` in `s` at or after `from`.
pub open spec fn first_occurrence_from(s: Seq<char>, p: Seq<char>, from: int, i: int) -> bool {
    from <= i && occurs_at(s, p, i) && forall|j: int| from <= j < i ==> !occurs_at(s, p, j)
}

/// No occurrence of `p` in `s` at or after `from`.
pub open spec fn absent_from(s: Seq<char>, p: Seq<char>, from: int) -> bool {
    forall|j: int| from <= j ==> !occurs_at(s, p, j)
}

/// Index of the first occurrence of `p` in `s` at or after `from`, if any.
pub open spec fn find_spec(s: Seq<char>, p: Seq<char>, from: int) -> Option<int> {
    if exists|i: int| first_occurrence_from(s, p, from, i) {
        Some(choose|i: int| first_occurrence_from(s, p, from, i))
    } else {
        None
    }
}

/// An optional index as a mathematical integer.
pub open spec fn opt_index(r: Option<usize>) -> Option<int> {
    match r {
        Some(i) => Some(i as int),
        None => None,
    }
}

pub proof fn lemma_find_spec_some(s: Seq<char>, p: Seq<char>, from: int, i: int)
    requires
        first_occurrence_from(s, p, from, i),
    ensures
        find_spec(s, p, from) == Some(i),
{
    let j = choose|j: int| first_occurrence_from(s, p, from, j);
    assert(first_occurrence_from(s, p, from, j));
    if j < i {
        assert(!occurs_at(s, p, j));
    }
    if i < j {
        assert(!occurs_at(s, p, i));
    }
}

pub proof fn lemma_find_spec_none(s: Seq<char>, p: Seq<char>, from: int)
    requires
        absent_from(s, p, from),
    ensures
        find_spec(s, p, from) is None,
{
    if exists|i: int| first_occurrence_from(s, p, from, i) {
        let j = choose|j: int| first_occurrence_from(s, p, from, j);
        assert(occurs_at(s, p, j));
    }
}

/// The characters that `char::is_whitespace` accepts (the Unicode White_Space property).
pub open spec fn is_white(c: char) -> bool {
    let u = c as u32;
    (9 <= u <= 13) || u == 32 || u == 0x85 || u == 0xA0 || u == 0x1680 || (0x2000 <= u <= 0x200A)
        || u == 0x2028 || u == 0x2029 || u == 0x202F || u == 0x205F || u == 0x3000
}

/// `lo..hi` is the part of `s` left once leading and trailing whitespace is removed.
pub open spec fn trim_bounds(s: Seq<char>, lo: int, hi: int) -> bool {
    &&& 0 <= lo <= hi <= s.len()
    &&& forall|k: int| 0 <= k < lo ==> is_white(s[k])
    &&& forall|k: int| hi <= k < s.len() ==> is_white(s[k])
    &&& lo < hi ==> !is_white(s[lo]) && !is_white(s[hi - 1])
    &&& lo == hi ==> lo == s.len()
}

/// `s` without leading and trailing whitespace.
pub open spec fn trimmed(s: Seq<char>) -> Seq<char> {
    let p = choose|p: (int, int)| trim_bounds(s, p.0, p.1);
    s.subrange(p.0, p.1)
}

/// `s` neither starts nor ends with whitespace.
pub open spec fn is_trimmed(s: Seq<char>) -> bool {
    s.len() > 0 ==> !is_white(s[0]) && !is_white(s[s.len() - 1])
}

pub proof fn lemma_trim_bounds_unique(s: Seq<char>, a: int, b: int, c: int, d: int)
    requires
        trim_bounds(s, a, b),
        trim_bounds(s, c, d),
    ensures
        a == c && b == d,
{
    if a < b && c < d {
        if a < c {
            assert(is_white(s[a]));
        }
        if c < a {
            assert(is_white(s[c]));
        }
        if b < d {
            assert(is_white(s[d - 1]));
        }
        if d < b {
            assert(is_white(s[b - 1]));
        }
    } else if a < b {
        assert(c == s.len());
        assert(is_white(s[a]));
    } else if c < d {
        assert(a == s.len());
        assert(is_white(s[c]));
    }
}

pub proof fn lemma_trimmed_is(s: Seq<char>, lo: int, hi: int)
    requires
        trim_bounds(s, lo, hi),
    ensures
        trimmed(s) == s.subrange(lo, hi),
{
    let p = choose|p: (int, int)| trim_bounds(s, p.0, p.1);
    assert(trim_bounds(s, (lo, hi).0, (lo, hi).1));
    lemma_trim_bounds_unique(s, lo, hi, p.0, p.1);
}

/// Trimming `w1 + x + w2` gives `x` when `w1`, `w2` are whitespace and `x` is trimmed.
pub proof fn lemma_trimmed_padded(w1: Seq<char>, x: Seq<char>, w2: Seq<char>)
    requires
        forall|k: int| 0 <= k < w1.len() ==> is_white(w1[k]),
        forall|k: int| 0 <= k < w2.len() ==> is_white(w2[k]),
        is_trimmed(x),
    ensures
        trimmed(w1 + x + w2) == x,
{
    let s = w1 + x + w2;
    if x.len() > 0 {
        let lo = w1.len() as int;
        let hi = (w1.len() + x.len()) as int;
        assert(trim_bounds(s, lo, hi)) by {
            assert forall|k: int| 0 <= k < lo implies is_white(s[k]) by {
                assert(s[k] == w1[k]);
            }
            assert forall|k: int| hi <= k < s.len() implies is_white(s[k]) by {
                assert(s[k] == w2[k - hi]);
            }
            assert(s[lo] == x[0]);
            assert(s[hi - 1] == x[x.len() - 1]);
        }
        lemma_trimmed_is(s, lo, hi);
        assert(s.subrange(lo, hi) =~= x);
    } else {
        let n = s.len() as int;
        assert(trim_bounds(s, n, n)) by {
            assert forall|k: int| 0 <= k < n implies is_white(s[k]) by {
                if k < w1.len() {
                    assert(s[k] == w1[k]);
                } else {
                    assert(s[k] == w2[k - w1.len()]);
                }
            }
        }
        lemma_trimmed_is(s, n, n);
        assert(s.subrange(n, n) =~= x);
    }
}

/// Whitespace test of `char::is_whitespace`, written out.
pub fn is_white_char(c: char) -> (r: bool)
    ensures
        r == is_white(c),
{
    let u = c as u32;
    (9 <= u && u <= 13) || u == 32 || u == 0x85 || u == 0xA0 || u == 0x1680 || (0x2000 <= u && u
        <= 0x200A) || u == 0x2028 || u == 0x2029 || u == 0x202F || u == 0x205F || u == 0x3000
}

/// Whether `p` occurs in `s` at character index `i`.
pub fn matches_at(s: &str, p: &str, i: usize) -> (r: bool)
    requires
        i <= s@.len(),
    ensures
        r == occurs_at(s@, p@, i as int),
{
    let n = s.unicode_len();
    let m = p.unicode_len();
    if m > n - i {
        return false;
    }
    let mut k: usize = 0;
    while k < m
        invariant
            n == s@.len(),
            m == p@.len(),
            i + m <= n,
            k <= m,
            forall|t: int| 0 <= t < k ==> s@[i + t] == p@[t],
        decreases m - k,
    {
        if s.get_char(i + k) != p.get_char(k) {
            assert(s@.subrange(i as int, i + m)[k as int] != p@[k as int]);
            return false;
        }
        k = k + 1;
    }
    assert(s@.subrange(i as int, i + m) =~= p@);
    true
}

/// Character index of the first occurrence of `p` in `s` at or after `from`.
pub fn find_from(s: &str, p: &str, from: usize) -> (r: Option<usize>)
    requires
        from <= s@.len(),
    ensures
        r matches Some(i) ==> first_occurrence_from(s@, p@, from as int, i as int),
        r is None ==> absent_from(s@, p@, from as int),
        opt_index(r) == find_spec(s@, p@, from as int),
{
    let n = s.unicode_len();
    let mut i: usize = from;
    while i < n
        invariant
            n == s@.len(),
            from <= i <= n,
            forall|j: int| from <= j < i ==> !occurs_at(s@, p@, j),
        decreases n - i,
    {
        if matches_at(s, p, i) {
            proof {
                lemma_find_spec_some(s@, p@, from as int, i as int);
            }
            return Some(i);
        }
        i = i + 1;
    }
    if matches_at(s, p, n) {
        proof {
            lemma_find_spec_some(s@, p@, from as int, n as int);
        }
        return Some(n);
    }
    proof {
        assert forall|j: int| from <= j implies !occurs_at(s@, p@, j) by {
            if j > n {
                assert(!(j + p@.len() <= s@.len()));
            }
        }
        lemma_find_spec_none(s@, p@, from as int);
    }
    None
}

/// Character index of the first occurrence of `p` in `s`.
pub fn find(s: &str, p: &str) -> (r: Option<usize>)
    ensures
        r matches Some(i) ==> first_occurrence_from(s@, p@, 0, i as int),
        r is None ==> absent_from(s@, p@, 0),
        opt_index(r) == find_spec(s@, p@, 0),
{
    find_from(s, p, 0)
}

/// Whether `p` occurs in `s`.
pub fn contains(s: &str, p: &str) -> (r: bool)
    ensures
        r == contains_seq(s@, p@),
{
    match find(s, p) {
        Some(i) => true,
        None => {
            assert(!contains_seq(s@, p@)) by {
                if exists|j: int| occurs_at(s@, p@, j) {
                    let j = choose|j: int| occurs_at(s@, p@, j);
                    assert(0 <= j);
                }
            }
            false
        },
    }
}

/// Whether `s` starts with `p`.
pub fn starts_with(s: &str, p: &str) -> (r: bool)
    ensures
        r == (p@.len() <= s@.len() && s@.subrange(0, p@.len() as int) == p@),
{
    matches_at(s, p, 0)
}

/// Whether `s` ends with `p`.
pub fn ends_with(s: &str, p: &str) -> (r: bool)
    ensures
        r == (p@.len() <= s@.len() && s@.subrange(s@.len() - p@.len(), s@.len() as int) == p@),
{
    let n = s.unicode_len();
    let m = p.unicode_len();
    if m > n {
        false
    } else {
        matches_at(s, p, n - m)
    }
}

/// `s` with leading and trailing whitespace removed.
pub fn trim(s: &str) -> (r: &str)
    ensures
        r@ == trimmed(s@),
{
    let n = s.unicode_len();
    let mut lo: usize = 0;
    while lo < n && is_white_char(s.get_char(lo))
        invariant
            n == s@.len(),
            lo <= n,
            forall|k: int| 0 <= k < lo ==> is_white(s@[k]),
        decreases n - lo,
    {
        lo = lo + 1;
    }
    let mut hi: usize = n;
    while hi > lo && is_white_char(s.get_char(hi - 1))
        invariant
            n == s@.len(),
            lo <= hi <= n,
            lo < n ==> lo < hi && !is_white(s@[lo as int]),
            forall|k: int| 0 <= k < lo ==> is_white(s@[k]),
            forall|k: int| hi <= k < n ==> is_white(s@[k]),
        decreases hi,
    {
        hi = hi - 1;
    }
    proof {
        lemma_trimmed_is(s@, lo as int, hi as int);
    }
    s.substring_char(lo, hi)
}

/// Whether `a` and `b` hold the same characters.
pub fn str_eq(a: &str, b: &str) -> (r: bool)
    ensures
        r == (a@ == b@),
{
    if a.unicode_len() != b.unicode_len() {
        return false;
    }
    let r = matches_at(a, b, 0);
    proof {
        assert(a@.subrange(0, b@.len() as int) =~= a@);
    }
    r
}

/// The decimal digit character for `d < 10`.
pub open spec fn digit_char(d: nat) -> char {
    seq!['0', '1', '2', '3', '4', '5', '6', '7', '8', '9'][d as int]
}

/// The decimal notation of `n`, without leading zeros.
pub open spec fn decimal(n: nat) -> Seq<char>
    decreases n,
{
    if n < 10 {
        seq![digit_char(n)]
    } else {
        decimal(n / 10).push(digit_char(n % 10))
    }
}

/// Appends the decimal notation of `n` to `s`.
pub fn append_decimal(s: &mut String, n: u64)
    ensures
        final(s)@ == old(s)@ + decimal(n as nat),
    decreases n,
{
    if n >= 10 {
        append_decimal(s, n / 10);
    }
    let digits = "0123456789";
    proof {
        reveal_strlit("0123456789");
        assert(digits@ =~= seq!['0', '1', '2', '3', '4', '5', '6', '7', '8', '9']);
    }
    let d = (n % 10) as usize;
    let c = digits.substring_char(d, d + 1);
    assert(c@ =~= seq![digit_char((n % 10) as nat)]);
    s.append(c);
    proof {
        if n >= 10 {
            assert(decimal(n as nat) == decimal((n / 10) as nat).push(digit_char((n % 10) as nat)));
        }
    }
    assert(s@ =~= old(s)@ + decimal(n as nat));
}

/// A copy of an optional string.
pub fn clone_opt(o: &Option<String>) -> (r: Option<String>)
    ensures
        r == *o,
{
    match o {
        Some(s) => Some(s.clone()),
        None => None,
    }
}

/// A copy of a vector of strings.
pub fn clone_strings(v: &Vec<String>) -> (r: Vec<String>)
    ensures
        r@ == v@,
{
    let mut r: Vec<String> = Vec::new();
    let mut i: usize = 0;
    while i < v.len()
        invariant
            i <= v@.len(),
            r@ == v@.subrange(0, i as int),
        decreases v@.len() - i,
    {
        r.push(v[i].clone());
        i = i + 1;
        assert(r@ =~= v@.subrange(0, i as int));
    }
    assert(r@ =~= v@);
    r
}

/// A copy of an optional vector of strings.
pub fn clone_opt_strings(o: &Option<Vec<String>>) -> (r: Option<Vec<String>>)
    ensures
        match (r, *o) {
            (Some(a), Some(b)) => a@ == b@,
            (None, None) => true,
            _ => false,
        },
{
    match o {
        Some(v) => Some(clone_strings(v)),
        None => None,
    }
}

/// A copy of `s` as an owned string.
pub fn owned(s: &str) -> (r: String)
    ensures
        r@ == s@,
{
    String::from_str(s)
}

} // verus!
