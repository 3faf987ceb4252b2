//! Decimal text for integers: rendering ids into diagnostic messages and
//! parsing the numeric configuration values.

use vstd::prelude::*;
use vstd::string::StringExecFns;

verus! {

/// The character that writes the decimal digit `d`.
pub open spec fn digit_char(d: int) -> char {
    if d == 0 {
        '0'
    } else if d == 1 {
        '1'
    } else if d == 2 {
        '2'
    } else if d == 3 {
        '3'
    } else if d == 4 {
        '4'
    } else if d == 5 {
        '5'
    } else if d == 6 {
        '6'
    } else if d == 7 {
        '7'
    } else if d == 8 {
        '8'
    } else {
        '9'
    }
}

/// The decimal digit a character stands for, if any.
pub open spec fn char_digit(c: char) -> Option<int> {
    if c == '0' {
        Some(0int)
    } else if c == '1' {
        Some(1int)
    } else if c == '2' {
        Some(2int)
    } else if c == '3' {
        Some(3int)
    } else if c == '4' {
        Some(4int)
    } else if c == '5' {
        Some(5int)
    } else if c == '6' {
        Some(6int)
    } else if c == '7' {
        Some(7int)
    } else if c == '8' {
        Some(8int)
    } else if c == '9' {
        Some(9int)
    } else {
        None
    }
}

/// The decimal writing of `n >= 0`, without sign or padding.
pub open spec fn spec_u32_digits(n: int) -> Seq<char>
    recommends
        n >= 0,
    decreases n,
{
    if n < 10 {
        seq![digit_char(n)]
    } else {
        spec_u32_digits(n / 10).push(digit_char(n % 10))
    }
}

/// The decimal writing of any `i32` value: a minus sign for negatives, then
/// the digits of the magnitude.
pub open spec fn spec_i32_digits(i: int) -> Seq<char> {
    if i < 0 {
        seq!['-'] + spec_u32_digits(-i)
    } else {
        spec_u32_digits(i)
    }
}

/// The one-character string of the digit `d`.
fn digit_str(d: u32) -> (s: &'static str)
    requires
        d < 10,
    ensures
        s@ == seq![digit_char(d as int)],
{
    proof {
        reveal_strlit("0");
        reveal_strlit("1");
        reveal_strlit("2");
        reveal_strlit("3");
        reveal_strlit("4");
        reveal_strlit("5");
        reveal_strlit("6");
        reveal_strlit("7");
        reveal_strlit("8");
        reveal_strlit("9");
    }
    let s = match d {
        0u32 => "0",
        1u32 => "1",
        2u32 => "2",
        3u32 => "3",
        4u32 => "4",
        5u32 => "5",
        6u32 => "6",
        7u32 => "7",
        8u32 => "8",
        _ => "9",
    };
    proof {
        assert(s@ =~= seq![digit_char(d as int)]);
    }
    s
}

/// Append the decimal digits of `m` to `s`, most significant first.
fn append_digits(s: &mut String, m: u32)
    ensures
        final(s)@ == old(s)@ + spec_u32_digits(m as int),
    decreases m,
{
    if m < 10 {
        s.append(digit_str(m));
    } else {
        append_digits(s, m / 10);
        s.append(digit_str(m % 10));
        proof {
            assert(final(s)@ =~= old(s)@ + spec_u32_digits(m as int));
        }
    }
}

/// The decimal writing of `n`.
pub fn u32_to_string(n: u32) -> (s: String)
    ensures
        s@ == spec_u32_digits(n as int),
{
    let mut s = String::new();
    append_digits(&mut s, n);
    proof {
        assert(s@ =~= spec_u32_digits(n as int));
    }
    s
}

/// The decimal writing of `i`, signed.
pub fn i32_to_string(i: i32) -> (s: String)
    ensures
        s@ == spec_i32_digits(i as int),
{
    let mut s = String::new();
    if i < 0 {
        proof {
            reveal_strlit("-");
        }
        s.append("-");
        let magnitude: u32 = (-(i as i64)) as u32;
        append_digits(&mut s, magnitude);
        proof {
            assert(s@ =~= spec_i32_digits(i as int));
        }
    } else {
        append_digits(&mut s, i as u32);
        proof {
            assert(s@ =~= spec_i32_digits(i as int));
        }
    }
    s
}

/// The number a sequence of decimal digits writes; digits beyond the front
/// weigh ten times less.
pub open spec fn spec_digits_value(s: Seq<char>) -> Option<int>
    decreases s.len(),
{
    if s.len() == 0 {
        Some(0int)
    } else {
        match (spec_digits_value(s.drop_last()), char_digit(s.last())) {
            (Some(v), Some(d)) => Some(v * 10 + d),
            _ => None,
        }
    }
}

/// A digit string's value never shrinks when more digits follow.
proof fn lemma_digits_value_grows(s: Seq<char>, k: int)
    requires
        0 <= k <= s.len(),
        spec_digits_value(s) matches Some(v),
    ensures
        (spec_digits_value(s.take(k)) matches Some(w) && spec_digits_value(s) matches Some(v)
            ==> w <= v),
        spec_digits_value(s.take(k)) is Some,
    decreases s.len() - k,
{
    if k == s.len() {
        assert(s.take(k) =~= s);
    } else {
        lemma_digits_value_grows(s, k + 1);
        assert(s.take(k + 1).drop_last() =~= s.take(k));
        assert(s.take(k + 1).last() == s[k]);
        let w1 = spec_digits_value(s.take(k + 1))->0;
        let w = spec_digits_value(s.take(k))->0;
        let d = char_digit(s[k])->0;
        assert(w1 == w * 10 + d);
        assert(d >= 0);
        assert(w >= 0 ==> w <= w * 10) by (nonlinear_arith);
        lemma_digits_value_nonneg(s.take(k));
    }
}

/// A digit string's value is never negative.
proof fn lemma_digits_value_nonneg(s: Seq<char>)
    requires
        spec_digits_value(s) is Some,
    ensures
        spec_digits_value(s)->0 >= 0,
    decreases s.len(),
{
    if s.len() > 0 {
        lemma_digits_value_nonneg(s.drop_last());
        let v = spec_digits_value(s.drop_last())->0;
        assert(v >= 0 ==> v * 10 >= 0) by (nonlinear_arith);
    }
}

/// The digit a character stands for, if any.
fn char_to_digit(c: char) -> (d: Option<u64>)
    ensures
        d is Some <==> char_digit(c) is Some,
        d matches Some(v) ==> char_digit(c) == Some(v as int),
{
    match c {
        '0' => Some(0u64),
        '1' => Some(1u64),
        '2' => Some(2u64),
        '3' => Some(3u64),
        '4' => Some(4u64),
        '5' => Some(5u64),
        '6' => Some(6u64),
        '7' => Some(7u64),
        '8' => Some(8u64),
        '9' => Some(9u64),
        _ => None,
    }
}

/// Parse a non-empty, all-digit decimal string into a `u64`. `None` exactly
/// when the string is empty, holds a non-digit, or writes a number above
/// `u64::MAX`.
pub fn parse_u64(s: &str) -> (r: Option<u64>)
    ensures
        r is Some <==> (s@.len() > 0 && (spec_digits_value(s@) matches Some(v) && v <= u64::MAX)),
        r matches Some(n) ==> spec_digits_value(s@) == Some(n as int),
{
    let mut value: u64 = 0;
    for c in it: s.chars()
        invariant
            it.seq() == s@,
            spec_digits_value(s@.take(it.index() as int)) == Some(value as int),
    {
        let ghost k = it.index() as int;
        proof {
            assert(s@.take(k + 1).drop_last() =~= s@.take(k));
            assert(s@.take(k + 1).last() == s@[k]);
        }
        match char_to_digit(c) {
            None => {
                proof {
                    if spec_digits_value(s@) matches Some(v) {
                        lemma_digits_value_grows(s@, k + 1);
                    }
                }
                return None;
            },
            Some(d) => {
                if value > (u64::MAX - d) / 10 {
                    proof {
                        let w = value as int;
                        assert(w * 10 + d > u64::MAX) by (nonlinear_arith)
                            requires
                                w > (u64::MAX - d) / 10,
                                0 <= d <= 9,
                        ;
                        if spec_digits_value(s@) matches Some(v) {
                            lemma_digits_value_grows(s@, k + 1);
                        }
                    }
                    return None;
                }
                proof {
                    let w = value as int;
                    assert(w * 10 + d <= u64::MAX) by (nonlinear_arith)
                        requires
                            w <= (u64::MAX - d) / 10,
                            0 <= d <= 9,
                    ;
                }
                value = value * 10 + d;
            },
        }
    }
    proof {
        assert(s@.take(s@.len() as int) =~= s@);
    }
    if s.is_empty() {
        None
    } else {
        Some(value)
    }
}

} // verus!
