//! Decimal text: rendering integers into strings and reading them back.
//!
//! Error reasons and collaborator arguments carry numbers as decimal text,
//! and the prober reports the bitrate as a decimal string; both directions
//! are specified here exactly.

use vstd::prelude::*;
use vstd::string::StringExecFns;

verus! {

/// The decimal digit character for a value below ten.
pub open spec fn spec_digit_char(d: nat) -> char
    recommends
        d < 10,
{
    if d == 0 {
        '0'
    } else if d == 1 {
        '1'
    } else if d == 2 {
        '2'
    } else if d == 3 {
        '3'
    } else if d == 4 {
        '4'
    } else if d == 5 {
        '5'
    } else if d == 6 {
        '6'
    } else if d == 7 {
        '7'
    } else if d == 8 {
        '8'
    } else {
        '9'
    }
}

/// The canonical decimal rendering of a natural number: no sign, no leading
/// zero except for the number zero itself.
pub open spec fn spec_nat_string(n: nat) -> Seq<char>
    decreases n,
{
    if n < 10 {
        seq![spec_digit_char(n)]
    } else {
        spec_nat_string(n / 10) + seq![spec_digit_char(n % 10)]
    }
}

/// The decimal rendering of an integer: a minus sign for negative values,
/// then the rendering of the magnitude.
pub open spec fn spec_int_string(i: int) -> Seq<char> {
    if i < 0 {
        seq!['-'] + spec_nat_string((-i) as nat)
    } else {
        spec_nat_string(i as nat)
    }
}

/// The single-character string for a decimal digit value.
fn digit_str(d: u64) -> (s: &'static str)
    requires
        d < 10,
    ensures
        s@ == seq![spec_digit_char(d as nat)],
{
    proof {
        reveal_strlit("0");
        reveal_strlit("1");
        reveal_strlit("2");
        reveal_strlit("3");
        reveal_strlit("4");
        reveal_strlit("5");
        reveal_strlit("6");
        reveal_strlit("7");
        reveal_strlit("8");
        reveal_strlit("9");
    }
    let s = if d == 0 {
        "0"
    } else if d == 1 {
        "1"
    } else if d == 2 {
        "2"
    } else if d == 3 {
        "3"
    } else if d == 4 {
        "4"
    } else if d == 5 {
        "5"
    } else if d == 6 {
        "6"
    } else if d == 7 {
        "7"
    } else if d == 8 {
        "8"
    } else {
        "9"
    };
    proof {
        assert(s@ =~= seq![spec_digit_char(d as nat)]);
    }
    s
}

/// Render a natural number as decimal text.
pub fn u64_to_string(n: u64) -> (s: String)
    ensures
        s@ == spec_nat_string(n as nat),
    decreases n,
{
    if n < 10 {
        let mut s = String::new();
        s.append(digit_str(n));
        proof {
            assert(s@ =~= spec_nat_string(n as nat));
        }
        s
    } else {
        let mut s = u64_to_string(n / 10);
        s.append(digit_str(n % 10));
        proof {
            assert(s@ =~= spec_nat_string(n as nat));
        }
        s
    }
}

/// Whether a character is a decimal digit.
pub open spec fn spec_is_digit(c: char) -> bool {
    48 <= c as u32 && c as u32 <= 57
}

/// The value of a decimal digit character; zero for any other character.
pub open spec fn spec_digit_val(c: char) -> nat {
    if spec_is_digit(c) {
        (c as u32 - 48) as nat
    } else {
        0
    }
}

/// The value of a string of decimal digits, most significant first.
pub open spec fn spec_digits_val(s: Seq<char>) -> nat
    decreases s.len(),
{
    if s.len() == 0 {
        0
    } else {
        spec_digits_val(s.drop_last()) * 10 + spec_digit_val(s.last())
    }
}

/// Whether every character of the string is a decimal digit.
pub open spec fn spec_all_digits(s: Seq<char>) -> bool {
    forall|i: int| 0 <= i < s.len() ==> spec_is_digit(#[trigger] s[i])
}

/// What `str::parse::<i32>` accepts: an optional sign followed by one or
/// more decimal digits, valuing within the range of the type.
pub open spec fn spec_parse_i32(s: Seq<char>) -> Option<i32> {
    let has_sign = s.len() > 0 && (s[0] == '+' || s[0] == '-');
    let negative = s.len() > 0 && s[0] == '-';
    let digits = if has_sign {
        s.drop_first()
    } else {
        s
    };
    if digits.len() == 0 || !spec_all_digits(digits) {
        None
    } else {
        let magnitude = spec_digits_val(digits) as int;
        let value = if negative {
            -magnitude
        } else {
            magnitude
        };
        if i32::MIN <= value <= i32::MAX {
            Some(value as i32)
        } else {
            None
        }
    }
}

/// A digit string's value never shrinks when more digits follow: the value
/// of any prefix bounds the value of the whole from below.
proof fn lemma_digits_prefix_le(s: Seq<char>, i: int)
    requires
        0 <= i <= s.len(),
    ensures
        spec_digits_val(s.take(i)) <= spec_digits_val(s),
    decreases s.len() - i,
{
    if i == s.len() {
        assert(s.take(i) =~= s);
    } else {
        let shorter = s.take(i);
        let longer = s.take(i + 1);
        assert(longer.drop_last() =~= shorter);
        assert(spec_digits_val(shorter) * 10 >= spec_digits_val(shorter))
            by (nonlinear_arith);
        lemma_digits_prefix_le(s, i + 1);
    }
}

/// Read a decimal integer from text, exactly as `str::parse::<i32>` does:
/// an optional sign, then one or more digits, rejecting any other shape and
/// any value out of range.
pub fn parse_i32(s: &str) -> (r: Option<i32>)
    ensures
        r == spec_parse_i32(s@),
{
    let n = s.unicode_len();
    if n == 0 {
        return None;
    }
    let first = s.get_char(0);
    let negative = first == '-';
    let has_sign = negative || first == '+';
    let start: usize = if has_sign {
        1
    } else {
        0
    };
    let ghost digits = if has_sign {
        s@.drop_first()
    } else {
        s@
    };
    if start == n {
        // a sign with no digits
        return None;
    }
    let mut acc: u64 = 0;
    let mut i: usize = start;
    while i < n
        invariant
            start <= i <= n,
            0 < n == s@.len(),
            has_sign == (s@[0] == '+' || s@[0] == '-'),
            negative == (s@[0] == '-'),
            start == if has_sign { 1int } else { 0int },
            start < n,
            digits == (if has_sign {
                s@.drop_first()
            } else {
                s@
            }),
            forall|j: int| start <= j < i ==> spec_is_digit(#[trigger] s@[j]),
            acc == spec_digits_val(s@.subrange(start as int, i as int)),
            acc <= 0x8000_0000u64,
        decreases n - i,
    {
        let c = s.get_char(i);
        let code = c as u32;
        if code < 48 || code > 57 {
            proof {
                assert(digits[i - start] == s@[i as int]);
                assert(!spec_all_digits(digits));
            }
            return None;
        }
        let d: u64 = (code - 48) as u64;
        acc = acc * 10 + d;
        i = i + 1;
        proof {
            let prefix = s@.subrange(start as int, i as int);
            assert(prefix.drop_last() =~= s@.subrange(start as int, i - 1));
            assert(acc == spec_digits_val(prefix));
        }
        if acc > 0x8000_0000u64 {
            // any continuation keeps the magnitude out of range, and any
            // non-digit continuation is rejected anyway
            proof {
                let prefix = s@.subrange(start as int, i as int);
                if spec_all_digits(digits) {
                    assert(prefix =~= digits.take(i - start));
                    lemma_digits_prefix_le(digits, i - start);
                }
            }
            return None;
        }
    }
    proof {
        assert(s@.subrange(start as int, i as int) =~= digits);
        assert(spec_all_digits(digits));
    }
    if negative {
        proof {
            assert(-(acc as int) >= i32::MIN);
        }
        if acc == 0x8000_0000u64 {
            Some(i32::MIN)
        } else {
            Some(-(acc as i32))
        }
    } else {
        if acc > 0x7fff_ffffu64 {
            None
        } else {
            Some(acc as i32)
        }
    }
}

/// Render a signed number as decimal text.
pub fn i64_to_string(n: i64) -> (s: String)
    ensures
        s@ == spec_int_string(n as int),
{
    if n < 0 {
        proof {
            reveal_strlit("-");
        }
        let mut s = String::from_str("-");
        proof {
            assert(s@ =~= seq!['-']);
        }
        let magnitude: u64 = if n == i64::MIN {
            9_223_372_036_854_775_808u64
        } else {
            (-n) as u64
        };
        s.append(u64_to_string(magnitude).as_str());
        proof {
            assert(s@ =~= spec_int_string(n as int));
        }
        s
    } else {
        u64_to_string(n as u64)
    }
}

} // verus!
