//! The local wall clock, read through chrono for event timestamps.
use vstd::prelude::*;

verus! {

/// An ASCII decimal digit.
pub open spec fn is_digit(c: char) -> bool {
    '0' <= c <= '9'
}

/// A year as chrono's `%Y` writes it: four digits for years `0..=9999`, else a
/// sign followed by at least four digits.
pub open spec fn year_text(y: Seq<char>) -> bool {
    ||| y.len() == 4 && forall|i: int| 0 <= i < 4 ==> is_digit(#[trigger] y[i])
    ||| y.len() >= 5 && (y[0] == '+' || y[0] == '-') && forall|i: int|
        1 <= i < y.len() ==> is_digit(#[trigger] y[i])
}

/// Text in the shape of `"%Y-%m-%d %I:%M:%S %p"`: a year, then
/// `-MM-DD hh:mm:ss ` with two digits per field, then `AM` or `PM`.
pub open spec fn stamp_shape(s: Seq<char>) -> bool {
    &&& s.len() >= 22
    &&& year_text(s.take(s.len() - 18))
    &&& {
        let k = s.len() - 18;
        &&& s[k] == '-'
        &&& is_digit(s[k + 1]) && is_digit(s[k + 2])
        &&& s[k + 3] == '-'
        &&& is_digit(s[k + 4]) && is_digit(s[k + 5])
        &&& s[k + 6] == ' '
        &&& is_digit(s[k + 7]) && is_digit(s[k + 8])
        &&& s[k + 9] == ':'
        &&& is_digit(s[k + 10]) && is_digit(s[k + 11])
        &&& s[k + 12] == ':'
        &&& is_digit(s[k + 13]) && is_digit(s[k + 14])
        &&& s[k + 15] == ' '
        &&& (s[k + 16] == 'A' || s[k + 16] == 'P')
        &&& s[k + 17] == 'M'
    }
}

/// `chrono::Local::now()` formatted with `"%Y-%m-%d %I:%M:%S %p"`. Which time it
/// shows depends on the clock and the machine's time zone and is left unsaid;
/// the contract states the shape that chrono's formatting gives every date
/// (zero-padded two-digit fields, `%Y` as described by `year_text`, and `AM` or
/// `PM` for `%p` without localisation).
#[verifier::external_body]
pub(crate) fn local_time_full() -> (res: String)
    ensures
        stamp_shape(res@),
{
    chrono::Local::now().format("%Y-%m-%d %I:%M:%S %p").to_string()
}

} // verus!
