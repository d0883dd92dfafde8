//! Decimal rendering of integers, used for connection strings and node
//! metadata lines. `spec_u64_string` / `spec_i64_string` say exactly which
//! character sequence stands for a number.

use vstd::prelude::*;

use crate::text::push_char;

verus! {

/// The character standing for one decimal digit.
pub open spec fn spec_digit_char(d: int) -> char {
    if d == 0 {
        '0'
    } else if d == 1 {
        '1'
    } else if d == 2 {
        '2'
    } else if d == 3 {
        '3'
    } else if d == 4 {
        '4'
    } else if d == 5 {
        '5'
    } else if d == 6 {
        '6'
    } else if d == 7 {
        '7'
    } else if d == 8 {
        '8'
    } else {
        '9'
    }
}

/// The usual decimal writing of a non-negative integer: no leading zeros,
/// except that zero itself is written "0".
pub open spec fn spec_u64_string(n: int) -> Seq<char>
    decreases n,
{
    if n < 10 {
        seq![spec_digit_char(n)]
    } else {
        spec_u64_string(n / 10).push(spec_digit_char(n % 10))
    }
}

/// The decimal writing of a signed integer: a '-' sign ahead of the digits
/// when the number is negative.
pub open spec fn spec_i64_string(n: int) -> Seq<char> {
    if n < 0 {
        seq!['-'] + spec_u64_string(-n)
    } else {
        spec_u64_string(n)
    }
}

fn digit_char(d: u64) -> (c: char)
    requires
        d < 10,
    ensures
        c == spec_digit_char(d as int),
{
    if d == 0 {
        '0'
    } else if d == 1 {
        '1'
    } else if d == 2 {
        '2'
    } else if d == 3 {
        '3'
    } else if d == 4 {
        '4'
    } else if d == 5 {
        '5'
    } else if d == 6 {
        '6'
    } else if d == 7 {
        '7'
    } else if d == 8 {
        '8'
    } else {
        '9'
    }
}

/// Writes `n` in decimal.
pub fn u64_to_string(n: u64) -> (r: String)
    ensures
        r@ == spec_u64_string(n as int),
    decreases n,
{
    let d = digit_char(n % 10);
    if n < 10 {
        let mut r = String::new();
        push_char(&mut r, d);
        proof {
            assert(r@ =~= seq![spec_digit_char(n as int)]);
        }
        r
    } else {
        let mut r = u64_to_string(n / 10);
        push_char(&mut r, d);
        r
    }
}

/// Writes `n` in decimal, with a leading '-' when negative.
pub fn i64_to_string(n: i64) -> (r: String)
    ensures
        r@ == spec_i64_string(n as int),
{
    if n >= 0 {
        u64_to_string(n as u64)
    } else {
        let magnitude: u64 = (-(n as i128)) as u64;
        assert(magnitude == -(n as int));
        let digits = u64_to_string(magnitude);
        let mut r = String::new();
        push_char(&mut r, '-');
        let joined = r.concat(digits.as_str());
        proof {
            assert(joined@ =~= seq!['-'] + spec_u64_string(-(n as int)));
        }
        joined
    }
}

/// Writes `n` in decimal.
pub fn i32_to_string(n: i32) -> (r: String)
    ensures
        r@ == spec_i64_string(n as int),
{
    i64_to_string(n as i64)
}

} // verus!
