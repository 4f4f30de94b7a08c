//! Character-level text operations used by the ingestion rules: Unicode
//! whitespace, trimming, substring search and prefix tests, all stated over the
//! `Seq<char>` view of strings.
use vstd::prelude::*;

verus! {

/// The Unicode `White_Space` property (PropList.txt): the code points that
/// `char::is_whitespace`, `str::trim` and `str::split_whitespace` treat as
/// whitespace.
pub open spec fn is_white_space(c: char) -> bool {
    let v = c as u32;
    ||| 0x9 <= v <= 0xD
    ||| v == 0x20
    ||| v == 0x85
    ||| v == 0xA0
    ||| v == 0x1680
    ||| 0x2000 <= v <= 0x200A
    ||| v == 0x2028
    ||| v == 0x2029
    ||| v == 0x202F
    ||| v == 0x205F
    ||| v == 0x3000
}

/// Whether `c` has the Unicode `White_Space` property (what
/// `char::is_whitespace` answers).
pub fn char_is_whitespace(c: char) -> (res: bool)
    ensures
        res == is_white_space(c),
{
    let v = c as u32;
    (0x9 <= v && v <= 0xD) || v == 0x20 || v == 0x85 || v == 0xA0 || v == 0x1680 || (0x2000 <= v
        && v <= 0x200A) || v == 0x2028 || v == 0x2029 || v == 0x202F || v == 0x205F || v == 0x3000
}

/// `String::push`: the string afterwards is the old one with `c` appended.
#[verifier::external_body]
pub(crate) fn push_char(s: &mut String, c: char)
    ensures
        final(s)@ == old(s)@.push(c),
{
    s.push(c)
}

/// The Unicode full uppercase mapping of a string, as computed by
/// `str::to_uppercase`.
pub uninterp spec fn uppercase(s: Seq<char>) -> Seq<char>;

/// `str::to_uppercase`. Its result depends on the argument alone (the Unicode
/// case tables); the contract names it `uppercase` and says nothing more of it.
#[verifier::external_body]
pub(crate) fn to_uppercase(s: &str) -> (res: String)
    ensures
        res@ == uppercase(s@),
{
    s.to_uppercase()
}

/// `s` with its leading whitespace removed.
pub open spec fn trim_start(s: Seq<char>) -> Seq<char>
    decreases s.len(),
{
    if s.len() > 0 && is_white_space(s[0]) {
        trim_start(s.drop_first())
    } else {
        s
    }
}

/// `s` with its trailing whitespace removed.
pub open spec fn trim_end(s: Seq<char>) -> Seq<char>
    decreases s.len(),
{
    if s.len() > 0 && is_white_space(s.last()) {
        trim_end(s.drop_last())
    } else {
        s
    }
}

/// `s` with leading and trailing whitespace removed (what `str::trim` gives).
pub open spec fn trim(s: Seq<char>) -> Seq<char> {
    trim_end(trim_start(s))
}

/// `pat` occurs in `hay` starting at index `i`.
pub open spec fn occurs_at(hay: Seq<char>, pat: Seq<char>, i: int) -> bool {
    &&& 0 <= i
    &&& i + pat.len() <= hay.len()
    &&& hay.subrange(i, i + pat.len()) == pat
}

/// `pat` occurs somewhere in `hay` (what `str::contains` tests).
pub open spec fn occurs_in(hay: Seq<char>, pat: Seq<char>) -> bool {
    exists|i: int| occurs_at(hay, pat, i)
}

/// `hay` starts with `pat` (what `str::starts_with` tests).
pub open spec fn begins_with(hay: Seq<char>, pat: Seq<char>) -> bool {
    occurs_at(hay, pat, 0)
}

/// The first index at or after `i` where `pat` occurs in `hay`.
pub open spec fn occurrence_from(hay: Seq<char>, pat: Seq<char>, i: int) -> Option<int>
    decreases hay.len() + 1 - i,
{
    if i < 0 || i + pat.len() > hay.len() {
        None
    } else if occurs_at(hay, pat, i) {
        Some(i)
    } else {
        occurrence_from(hay, pat, i + 1)
    }
}

/// The first index where `pat` occurs in `hay` (what `str::find` locates, counted
/// in chars).
pub open spec fn first_occurrence(hay: Seq<char>, pat: Seq<char>) -> Option<int> {
    occurrence_from(hay, pat, 0)
}

/// What `occurrence_from` returns: the least index at or after `i` where `pat`
/// occurs, or `None` when there is none.
pub proof fn lemma_occurrence_from(hay: Seq<char>, pat: Seq<char>, i: int)
    requires
        0 <= i,
    ensures
        match occurrence_from(hay, pat, i) {
            Some(k) => i <= k && occurs_at(hay, pat, k) && forall|j: int|
                i <= j < k ==> !occurs_at(hay, pat, j),
            None => forall|j: int| i <= j ==> !occurs_at(hay, pat, j),
        },
    decreases hay.len() + 1 - i,
{
    if i + pat.len() > hay.len() {
    } else if occurs_at(hay, pat, i) {
    } else {
        lemma_occurrence_from(hay, pat, i + 1);
    }
}

/// The first occurrence is the least index where `pat` occurs; there is none
/// exactly when `pat` does not occur in `hay`.
pub proof fn lemma_first_occurrence(hay: Seq<char>, pat: Seq<char>)
    ensures
        match first_occurrence(hay, pat) {
            Some(k) => occurs_at(hay, pat, k) && forall|j: int| 0 <= j < k ==> !occurs_at(hay, pat, j),
            None => !occurs_in(hay, pat),
        },
{
    lemma_occurrence_from(hay, pat, 0);
}

/// The chars of `s`, in order.
pub fn chars_of(s: &str) -> (res: Vec<char>)
    ensures
        res@ == s@,
{
    let n = s.unicode_len();
    let mut v: Vec<char> = Vec::new();
    let mut i: usize = 0;
    while i < n
        invariant
            n == s@.len(),
            i <= n,
            v@ == s@.take(i as int),
        decreases n - i,
    {
        v.push(s.get_char(i));
        i = i + 1;
        assert(v@ =~= s@.take(i as int));
    }
    assert(v@ =~= s@);
    v
}

/// Whether `pat` occurs in `hay` at index `i`.
fn matches_at(hay: &Vec<char>, pat: &Vec<char>, i: usize) -> (res: bool)
    requires
        i + pat@.len() <= hay@.len(),
    ensures
        res == occurs_at(hay@, pat@, i as int),
{
    let m = pat.len();
    let n = hay.len();
    let mut j: usize = 0;
    while j < m
        invariant
            m == pat@.len(),
            n == hay@.len(),
            i + m <= n,
            j <= m,
            forall|k: int| 0 <= k < j ==> hay@[i + k] == pat@[k],
        decreases m - j,
    {
        if hay[i + j] != pat[j] {
            assert(hay@.subrange(i as int, i + m)[j as int] != pat@[j as int]);
            return false;
        }
        j = j + 1;
    }
    assert(hay@.subrange(i as int, i + m) =~= pat@);
    true
}

/// The first char index at which `pat` occurs in `hay`.
pub fn find_chars(hay: &Vec<char>, pat: &Vec<char>) -> (res: Option<usize>)
    ensures
        match res {
            Some(i) => first_occurrence(hay@, pat@) == Some(i as int),
            None => first_occurrence(hay@, pat@) is None,
        },
{
    let n = hay.len();
    let m = pat.len();
    if m > n {
        return None;
    }
    let last = n - m;
    let mut i: usize = 0;
    loop
        invariant
            n == hay@.len(),
            m == pat@.len(),
            last == n - m,
            i <= last,
            occurrence_from(hay@, pat@, 0) == occurrence_from(hay@, pat@, i as int),
        decreases last - i,
    {
        if matches_at(hay, pat, i) {
            return Some(i);
        }
        if i == last {
            assert(occurrence_from(hay@, pat@, i + 1) is None);
            return None;
        }
        i = i + 1;
    }
}

/// Whether `pat` occurs in `hay`.
pub fn contains_chars(hay: &Vec<char>, pat: &str) -> (res: bool)
    ensures
        res == occurs_in(hay@, pat@),
{
    let p = chars_of(pat);
    let found = find_chars(hay, &p);
    proof {
        lemma_first_occurrence(hay@, pat@);
    }
    found.is_some()
}

/// Whether `hay` starts with `pat`.
pub fn starts_with_chars(hay: &Vec<char>, pat: &str) -> (res: bool)
    ensures
        res == begins_with(hay@, pat@),
{
    let p = chars_of(pat);
    if p.len() > hay.len() {
        return false;
    }
    matches_at(hay, &p, 0)
}

/// Whether `a` and `b` hold the same chars.
pub fn same_text(a: &str, b: &str) -> (res: bool)
    ensures
        res == (a@ == b@),
{
    let x = chars_of(a);
    let y = chars_of(b);
    if x.len() != y.len() {
        return false;
    }
    let n = x.len();
    let mut i: usize = 0;
    while i < n
        invariant
            n == x@.len(),
            n == y@.len(),
            x@ == a@,
            y@ == b@,
            i <= n,
            forall|k: int| 0 <= k < i ==> x@[k] == y@[k],
        decreases n - i,
    {
        if x[i] != y[i] {
            assert(x@[i as int] != y@[i as int]);
            return false;
        }
        i = i + 1;
    }
    assert(x@ =~= y@);
    true
}

/// Leading whitespace: skipping the first `i` chars, all whitespace, leaves the
/// same `trim_start`.
pub proof fn lemma_trim_start_skip(s: Seq<char>, i: int)
    requires
        0 <= i < s.len(),
        is_white_space(s[i]),
    ensures
        trim_start(s.skip(i)) == trim_start(s.skip(i + 1)),
{
    assert(s.skip(i).drop_first() =~= s.skip(i + 1));
}

/// Trailing whitespace: dropping the char before `j`, whitespace, leaves the same
/// `trim_end`.
pub proof fn lemma_trim_end_take(t: Seq<char>, j: int)
    requires
        0 < j <= t.len(),
        is_white_space(t[j - 1]),
    ensures
        trim_end(t.take(j)) == trim_end(t.take(j - 1)),
{
    assert(t.take(j).drop_last() =~= t.take(j - 1));
}

/// The char bounds `(a, b)` of `trim(s@)` within `s`.
pub fn trim_bounds(s: &Vec<char>) -> (res: (usize, usize))
    ensures
        res.0 <= res.1 <= s@.len(),
        s@.subrange(res.0 as int, res.1 as int) == trim(s@),
        trim_start(s@) == s@.skip(res.0 as int),
{
    let n = s.len();
    let mut i: usize = 0;
    assert(s@.skip(0) =~= s@);
    while i < n && char_is_whitespace(s[i])
        invariant
            n == s@.len(),
            i <= n,
            trim_start(s@) == trim_start(s@.skip(i as int)),
        decreases n - i,
    {
        proof {
            lemma_trim_start_skip(s@, i as int);
        }
        i = i + 1;
    }
    // Here the rest starts with a non-whitespace char, or is empty.
    assert(trim_start(s@.skip(i as int)) == s@.skip(i as int));
    let ghost t = s@.skip(i as int);
    let mut j: usize = n;
    assert(t.take(t.len() as int) =~= t);
    while j > i && char_is_whitespace(s[j - 1])
        invariant
            n == s@.len(),
            i <= j <= n,
            t == s@.skip(i as int),
            trim_end(t) == trim_end(t.take(j - i)),
        decreases j,
    {
        proof {
            assert(t[j - 1 - i] == s@[j - 1]);
            lemma_trim_end_take(t, j - i);
        }
        j = j - 1;
    }
    assert(trim_end(t.take(j - i)) == t.take(j - i));
    assert(t.take(j - i) =~= s@.subrange(i as int, j as int));
    (i, j)
}

/// `s` with leading and trailing whitespace removed.
pub fn trim_str(s: &str) -> (res: &str)
    ensures
        res@ == trim(s@),
{
    let c = chars_of(s);
    let (a, b) = trim_bounds(&c);
    s.substring_char(a, b)
}

} // verus!
