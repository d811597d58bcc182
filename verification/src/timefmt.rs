//! The time normalizer: turns one 12-hour clock reading `hh:mm:ss AM|PM`
//! into its 24-hour form `HH:MM:SS`, and yields nothing on any other input.

use vstd::prelude::*;
use crate::digits::{digit_char, digit_val, is_digit, char_is_digit, char_digit_val, digit_of};
use crate::strutil::push_char;

verus! {

/// A well-formed 12-hour clock reading: a one- or two-digit hour in 1..=12,
/// two-digit minutes and seconds below 60, a single space, and `AM` or `PM`.
pub open spec fn valid_time12(s: Seq<char>) -> bool {
    &&& (s.len() == 10 || s.len() == 11)
    &&& {
        let hl = s.len() - 9;
        &&& (forall|i: int| 0 <= i < hl ==> is_digit(#[trigger] s[i]))
        &&& 1 <= hour12_val(s) <= 12
        &&& s[hl] == ':'
        &&& is_digit(s[hl + 1]) && is_digit(s[hl + 2])
        &&& digit_val(s[hl + 1]) <= 5
        &&& s[hl + 3] == ':'
        &&& is_digit(s[hl + 4]) && is_digit(s[hl + 5])
        &&& digit_val(s[hl + 4]) <= 5
        &&& s[hl + 6] == ' '
        &&& (s[hl + 7] == 'A' || s[hl + 7] == 'P')
        &&& s[hl + 8] == 'M'
    }
}

/// Hour on the 12-hour clock, read from the leading digit or digit pair.
pub open spec fn hour12_val(s: Seq<char>) -> int {
    if s.len() == 10 {
        digit_val(s[0])
    } else {
        10 * digit_val(s[0]) + digit_val(s[1])
    }
}

/// Whether the reading carries the `PM` meridiem indicator.
pub open spec fn is_pm(s: Seq<char>) -> bool {
    s[s.len() - 2] == 'P'
}

/// Hour on the 24-hour clock: the 12-hour hour modulo 12, plus 12 for `PM`.
pub open spec fn hour24_val(s: Seq<char>) -> int {
    hour12_val(s) % 12 + if is_pm(s) { 12int } else { 0int }
}

/// The normalized 24-hour form: zero-padded hour, then the minutes and
/// seconds exactly as they stood in the input.
pub open spec fn normalized24(s: Seq<char>) -> Seq<char> {
    let hl = s.len() - 9;
    seq![
        digit_char(hour24_val(s) / 10),
        digit_char(hour24_val(s) % 10),
        ':',
        s[hl + 1],
        s[hl + 2],
        ':',
        s[hl + 4],
        s[hl + 5],
    ]
}

/// Best-effort normalization of a 12-hour clock string to 24-hour form:
/// the converted string for a well-formed reading, nothing otherwise.
pub fn convert_to_24_hour(time_str: &str) -> (r: Option<String>)
    ensures
        r is Some <==> valid_time12(time_str@),
        r matches Some(t) ==> t@ == normalized24(time_str@),
{
    let n = time_str.unicode_len();
    if n != 10 && n != 11 {
        return None;
    }
    let hl = n - 9;
    let c0 = time_str.get_char(0);
    if !char_is_digit(c0) {
        return None;
    }
    let mut hour: u32 = char_digit_val(c0);
    if hl == 2 {
        let c1 = time_str.get_char(1);
        if !char_is_digit(c1) {
            return None;
        }
        hour = 10 * hour + char_digit_val(c1);
    }
    if hour < 1 || hour > 12 {
        return None;
    }
    if time_str.get_char(hl) != ':' {
        return None;
    }
    let m1 = time_str.get_char(hl + 1);
    let m2 = time_str.get_char(hl + 2);
    if !char_is_digit(m1) || !char_is_digit(m2) || char_digit_val(m1) > 5 {
        return None;
    }
    if time_str.get_char(hl + 3) != ':' {
        return None;
    }
    let s1 = time_str.get_char(hl + 4);
    let s2 = time_str.get_char(hl + 5);
    if !char_is_digit(s1) || !char_is_digit(s2) || char_digit_val(s1) > 5 {
        return None;
    }
    if time_str.get_char(hl + 6) != ' ' {
        return None;
    }
    let mer = time_str.get_char(hl + 7);
    if mer != 'A' && mer != 'P' {
        return None;
    }
    if time_str.get_char(hl + 8) != 'M' {
        return None;
    }
    let hour24: u32 = hour % 12 + if mer == 'P' { 12 } else { 0 };
    let mut out = String::new();
    push_char(&mut out, digit_of(hour24 / 10));
    push_char(&mut out, digit_of(hour24 % 10));
    push_char(&mut out, ':');
    push_char(&mut out, m1);
    push_char(&mut out, m2);
    push_char(&mut out, ':');
    push_char(&mut out, s1);
    push_char(&mut out, s2);
    proof {
        assert(valid_time12(time_str@));
        assert(out@ =~= normalized24(time_str@));
    }
    Some(out)
}

/// For every well-formed 12-hour reading, the normalized form is an
/// eight-character `HH:MM:SS` string whose hour value is the 12-hour hour
/// modulo 12, plus 12 for a `PM` reading, and whose minute and second
/// characters are carried over from the input unchanged.
pub proof fn lemma_normalized_shape(s: Seq<char>)
    requires
        valid_time12(s),
    ensures
        normalized24(s).len() == 8,
        ({
            let t = normalized24(s);
            let hl = s.len() - 9;
            &&& is_digit(t[0]) && is_digit(t[1])
            &&& 10 * digit_val(t[0]) + digit_val(t[1]) == hour12_val(s) % 12 + if is_pm(s) {
                12int
            } else {
                0int
            }
            &&& t[2] == ':' && t[5] == ':'
            &&& t[3] == s[hl + 1] && t[4] == s[hl + 2]
            &&& t[6] == s[hl + 4] && t[7] == s[hl + 5]
        }),
{
    let h = hour24_val(s);
    assert(0 <= hour12_val(s) % 12 < 12);
    assert(0 <= h < 24);
    assert(0 <= h / 10 < 10 && 0 <= h % 10 < 10);
    assert(is_digit(digit_char(h / 10)));
    assert(is_digit(digit_char(h % 10)));
    assert(digit_val(digit_char(h / 10)) == h / 10);
    assert(digit_val(digit_char(h % 10)) == h % 10);
    assert(10 * (h / 10) + h % 10 == h);
}

} // verus!
