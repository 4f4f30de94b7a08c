//! Reading the round-trip time out of a `ping` output line.
use vstd::prelude::*;
use crate::text::{
    char_is_whitespace, chars_of, find_chars, first_occurrence, is_white_space,
    lemma_trim_start_skip, trim_start,
};

verus! {

/// The leading run of non-whitespace chars of `s`.
pub open spec fn take_word(s: Seq<char>) -> Seq<char>
    decreases s.len(),
{
    if s.len() == 0 || is_white_space(s[0]) {
        Seq::empty()
    } else {
        seq![s[0]] + take_word(s.drop_first())
    }
}

/// The first whitespace-separated word of `s` (what `split_whitespace().next()`
/// gives).
pub open spec fn first_word(s: Seq<char>) -> Option<Seq<char>> {
    let t = trim_start(s);
    if t.len() == 0 {
        None
    } else {
        Some(take_word(t))
    }
}

/// `s` with every trailing `"ms"` removed (what `trim_end_matches("ms")` gives).
pub open spec fn strip_ms(s: Seq<char>) -> Seq<char>
    decreases s.len(),
{
    if s.len() >= 2 && s[s.len() - 2] == 'm' && s[s.len() - 1] == 's' {
        strip_ms(s.take(s.len() - 2))
    } else {
        s
    }
}

/// The numeric text of a ping line: the first word after the first `"time="`,
/// with its `"ms"` suffixes removed; `None` without a marker or a word after it.
pub open spec fn ping_token(line: Seq<char>) -> Option<Seq<char>> {
    match first_occurrence(line, "time="@) {
        None => None,
        Some(i) => match first_word(line.skip(i + "time="@.len())) {
            None => None,
            Some(w) => Some(strip_ms(w)),
        },
    }
}

/// `r` is a reading of `line` by `parse`: none without a token, else a result
/// that `parse` may give on the token.
pub open spec fn ping_reading<P: Fn(&str) -> Option<u64>>(
    parse: P,
    line: Seq<char>,
    r: Option<u64>,
) -> bool {
    match ping_token(line) {
        None => r is None,
        Some(tok) => exists|t: &str| t@ == tok && #[trigger] parse.ensures((t,), r),
    }
}

/// Taking a word one char at a time.
proof fn lemma_take_word_step(c: Seq<char>, a: int, b: int)
    requires
        0 <= a <= b < c.len(),
        !is_white_space(c[b]),
    ensures
        c.subrange(a, b) + take_word(c.skip(b)) == c.subrange(a, b + 1) + take_word(c.skip(b + 1)),
{
    assert(c.skip(b).drop_first() =~= c.skip(b + 1));
    assert(take_word(c.skip(b)) == seq![c[b]] + take_word(c.skip(b + 1)));
    assert(c.subrange(a, b) + seq![c[b]] =~= c.subrange(a, b + 1));
    assert(c.subrange(a, b) + (seq![c[b]] + take_word(c.skip(b + 1))) =~= (c.subrange(a, b)
        + seq![c[b]]) + take_word(c.skip(b + 1)));
}

/// Stripping one `"ms"` suffix.
proof fn lemma_strip_ms_step(c: Seq<char>, a: int, b: int)
    requires
        0 <= a,
        a + 2 <= b <= c.len(),
        c[b - 2] == 'm',
        c[b - 1] == 's',
    ensures
        strip_ms(c.subrange(a, b)) == strip_ms(c.subrange(a, b - 2)),
{
    let s = c.subrange(a, b);
    assert(s[s.len() - 2] == c[b - 2]);
    assert(s.take(s.len() - 2) =~= c.subrange(a, b - 2));
}

/// The char bounds of `ping_token(line@)` within `line`.
fn ping_token_bounds(line: &str) -> (res: Option<(usize, usize)>)
    ensures
        match res {
            None => ping_token(line@) is None,
            Some((a, b)) => a <= b <= line@.len() && ping_token(line@) == Some(
                line@.subrange(a as int, b as int),
            ),
        },
{
    let c = chars_of(line);
    let marker = chars_of("time=");
    let found = find_chars(&c, &marker);
    let i = match found {
        None => {
            return None;
        },
        Some(i) => i,
    };
    proof {
        crate::text::lemma_first_occurrence(c@, marker@);
    }
    let n = c.len();
    let k = i + marker.len();
    let ghost rest = line@.skip(k as int);
    // Skip the whitespace that precedes the word.
    let mut a = k;
    assert(c@.skip(k as int) == rest);
    while a < n && char_is_whitespace(c[a])
        invariant
            n == c@.len(),
            c@ == line@,
            k <= a <= n,
            trim_start(rest) == trim_start(c@.skip(a as int)),
        decreases n - a,
    {
        proof {
            lemma_trim_start_skip(c@, a as int);
        }
        a = a + 1;
    }
    assert(trim_start(c@.skip(a as int)) == c@.skip(a as int));
    if a == n {
        assert(c@.skip(a as int).len() == 0);
        return None;
    }
    // Take the word.
    let mut b = a;
    assert(c@.subrange(a as int, a as int) + take_word(c@.skip(a as int)) =~= take_word(
        c@.skip(a as int),
    ));
    while b < n && !char_is_whitespace(c[b])
        invariant
            n == c@.len(),
            a <= b <= n,
            take_word(c@.skip(a as int)) == c@.subrange(a as int, b as int) + take_word(
                c@.skip(b as int),
            ),
        decreases n - b,
    {
        proof {
            lemma_take_word_step(c@, a as int, b as int);
        }
        b = b + 1;
    }
    assert(take_word(c@.skip(b as int)) =~= Seq::<char>::empty());
    assert(take_word(c@.skip(a as int)) =~= c@.subrange(a as int, b as int));
    // Remove the trailing "ms" units.
    let ghost word = c@.subrange(a as int, b as int);
    while b - a >= 2 && c[b - 2] == 'm' && c[b - 1] == 's'
        invariant
            n == c@.len(),
            a <= b <= n,
            strip_ms(word) == strip_ms(c@.subrange(a as int, b as int)),
        decreases b,
    {
        proof {
            lemma_strip_ms_step(c@, a as int, b as int);
        }
        b = b - 2;
    }
    proof {
        let s = c@.subrange(a as int, b as int);
        if s.len() >= 2 {
            assert(s[s.len() - 2] == c@[b - 2]);
            assert(s[s.len() - 1] == c@[b - 1]);
        }
    }
    Some((a, b))
}

/// The numeric text of a ping line (see `ping_token`).
pub fn ping_time_token(line: &str) -> (res: Option<&str>)
    ensures
        match res {
            None => ping_token(line@) is None,
            Some(t) => ping_token(line@) == Some(t@),
        },
{
    match ping_token_bounds(line) {
        None => None,
        Some((a, b)) => Some(line.substring_char(a, b)),
    }
}

/// The round-trip time of a ping line in whole milliseconds: `parse` turns the
/// line's numeric text (see `ping_token`) into milliseconds; `None` when the
/// line has no such text or `parse` rejects it.
pub fn extract_ping_ms<P: Fn(&str) -> Option<u64>>(line: &str, parse: &P) -> (res: Option<u64>)
    requires
        forall|t: &str| #[trigger] parse.requires((t,)),
    ensures
        ping_reading(*parse, line@, res),
{
    match ping_time_token(line) {
        None => None,
        Some(t) => {
            let r = parse(t);
            assert(parse.ensures((t,), r));
            r
        },
    }
}

} // verus!
