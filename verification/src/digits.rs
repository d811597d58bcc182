//! Decimal digits: the correspondence between digit characters and their
//! numeric values, and rendering of machine integers as decimal strings.

use vstd::prelude::*;
use crate::strutil::push_char;

verus! {

/// Numeric value of a decimal digit character.
pub open spec fn digit_val(c: char) -> int {
    c as int - '0' as int
}

/// Whether a character is a decimal digit.
pub open spec fn is_digit(c: char) -> bool {
    '0' <= c && c <= '9'
}

/// Decimal digit character for a value in 0..10.
pub open spec fn digit_char(v: int) -> char {
    ('0' as u8 + v as u8) as char
}

/// Value of a whole sequence of decimal digit characters, most significant first.
pub open spec fn digits_val(s: Seq<char>) -> int
    decreases s.len(),
{
    if s.len() == 0 {
        0
    } else {
        10 * digits_val(s.drop_last()) + digit_val(s.last())
    }
}

/// Decimal rendering of a nonnegative integer, without leading zeros.
pub open spec fn dec_str(n: int) -> Seq<char>
    decreases n,
{
    if n < 10 {
        seq![digit_char(n)]
    } else {
        dec_str(n / 10).push(digit_char(n % 10))
    }
}

/// Decimal rendering of a signed integer.
pub open spec fn int_str(n: int) -> Seq<char> {
    if n < 0 {
        seq!['-'] + dec_str(-n)
    } else {
        dec_str(n)
    }
}

pub fn digit_of(v: u32) -> (c: char)
    requires
        v < 10,
    ensures
        c == digit_char(v as int),
        is_digit(c),
        digit_val(c) == v as int,
{
    ('0' as u8 + v as u8) as char
}

pub fn char_is_digit(c: char) -> (r: bool)
    ensures
        r == is_digit(c),
{
    '0' <= c && c <= '9'
}

pub fn char_digit_val(c: char) -> (v: u32)
    requires
        is_digit(c),
    ensures
        v == digit_val(c),
        v < 10,
{
    c as u32 - '0' as u32
}

/// Powers of ten, for digit-count bounds.
pub open spec fn pow10(n: int) -> int
    decreases n,
{
    if n <= 0 {
        1
    } else {
        10 * pow10(n - 1)
    }
}

/// Whether every character of the sequence is a decimal digit.
pub open spec fn all_digits(s: Seq<char>) -> bool {
    forall|i: int| 0 <= i < s.len() ==> is_digit(#[trigger] s[i])
}

/// Value of a decimal integer string: an optional leading minus sign, then
/// one to ten digits; anything else, or a value outside the signed 32-bit
/// range, is rejected.
pub open spec fn spec_parse_i32(s: Seq<char>) -> Option<int> {
    let neg = s.len() > 0 && s[0] == '-';
    let ds = if neg {
        s.drop_first()
    } else {
        s
    };
    if ds.len() == 0 || ds.len() > 10 || !all_digits(ds) {
        None
    } else {
        let v = if neg {
            -digits_val(ds)
        } else {
            digits_val(ds)
        };
        if -2147483648 <= v <= 2147483647 {
            Some(v)
        } else {
            None
        }
    }
}

proof fn lemma_pow10_ten()
    ensures
        pow10(10) == 10000000000,
{
    assert(pow10(0) == 1);
    assert(pow10(1) == 10);
    assert(pow10(2) == 100);
    assert(pow10(3) == 1000);
    assert(pow10(4) == 10000);
    assert(pow10(5) == 100000);
    assert(pow10(6) == 1000000);
    assert(pow10(7) == 10000000);
    assert(pow10(8) == 100000000);
    assert(pow10(9) == 1000000000);
}

/// Reads a decimal integer string into a signed 32-bit value, exactly as
/// `spec_parse_i32` says.
pub fn parse_i32(s: &str) -> (r: Option<i32>)
    ensures
        match r {
            Some(x) => spec_parse_i32(s@) == Some(x as int),
            None => spec_parse_i32(s@) is None,
        },
{
    let n = s.unicode_len();
    let neg = n > 0 && s.get_char(0) == '-';
    let start: usize = if neg {
        1
    } else {
        0
    };
    let ghost ds = if neg {
        s@.drop_first()
    } else {
        s@
    };
    if n - start == 0 || n - start > 10 {
        return None;
    }
    let mut v: i64 = 0;
    let mut i: usize = start;
    while i < n
        invariant
            n == s@.len(),
            start <= i <= n,
            start <= 1,
            neg == (s@.len() > 0 && s@[0] == '-'),
            start == if neg {
                1int
            } else {
                0int
            },
            ds == s@.subrange(start as int, n as int),
            1 <= n - start <= 10,
            forall|j: int| start <= j < i ==> is_digit(#[trigger] s@[j]),
            v == digits_val(s@.subrange(start as int, i as int)),
            0 <= v < pow10(i - start),
        decreases n - i,
    {
        let c = s.get_char(i);
        if !char_is_digit(c) {
            proof {
                let sds = if s@.len() > 0 && s@[0] == '-' {
                    s@.drop_first()
                } else {
                    s@
                };
                assert(sds == ds);
                assert(0 <= i - start < sds.len());
                assert(sds[i - start] == s@[i as int]);
                assert(!is_digit(sds[i - start]));
                assert(!all_digits(sds));
                assert(spec_parse_i32(s@) is None);
            }
            return None;
        }
        let d = char_digit_val(c);
        proof {
            lemma_pow10_ten();
            assert(pow10(i - start) <= pow10(10)) by {
                lemma_pow10_monotone(i - start, 10);
            }
            assert(s@.subrange(start as int, i + 1).drop_last() =~= s@.subrange(
                start as int,
                i as int,
            ));
        }
        v = v * 10 + d as i64;
        i = i + 1;
    }
    proof {
        assert(ds =~= s@.subrange(start as int, n as int));
        assert(all_digits(ds));
        assert(v == digits_val(ds));
    }
    if neg {
        if v > 2147483648 {
            return None;
        }
        Some((-v) as i32)
    } else {
        if v > 2147483647 {
            return None;
        }
        Some(v as i32)
    }
}

/// Powers of ten grow with the exponent.
proof fn lemma_pow10_monotone(a: int, b: int)
    requires
        a <= b,
    ensures
        pow10(a) <= pow10(b),
    decreases b - a,
{
    if a < b {
        if b <= 0 {
            assert(pow10(a) == 1 && pow10(b) == 1);
        } else {
            lemma_pow10_monotone(a, b - 1);
            assert(pow10(b) == 10 * pow10(b - 1));
            assert(pow10(b - 1) >= 1) by {
                lemma_pow10_pos(b - 1);
            }
        }
    }
}

proof fn lemma_pow10_pos(n: int)
    ensures
        pow10(n) >= 1,
    decreases
            if n > 0 {
                n
            } else {
                0
            },
{
    if n > 0 {
        lemma_pow10_pos(n - 1);
    }
}

fn push_u32_dec(out: &mut String, v: u32)
    ensures
        final(out)@ == old(out)@ + dec_str(v as int),
    decreases v,
{
    if v < 10 {
        push_char(out, digit_of(v));
        proof {
            assert(final(out)@ =~= old(out)@ + dec_str(v as int));
        }
    } else {
        push_u32_dec(out, v / 10);
        push_char(out, digit_of(v % 10));
        proof {
            assert(final(out)@ =~= old(out)@ + dec_str(v as int));
        }
    }
}

/// Appends the decimal rendering of a signed 32-bit integer.
pub fn push_i32_dec(out: &mut String, v: i32)
    ensures
        final(out)@ == old(out)@ + int_str(v as int),
{
    if v < 0 {
        push_char(out, '-');
        let m: u32 = (-(v as i64)) as u32;
        push_u32_dec(out, m);
        proof {
            assert(final(out)@ =~= old(out)@ + int_str(v as int));
        }
    } else {
        push_u32_dec(out, v as u32);
    }
}

} // verus!
