//! Decimal rendering of integers, used when formatting dictionary lines.

use vstd::prelude::*;
use vstd::string::StringExecFns;

verus! {

/// The decimal digit character for one digit value.
pub open spec fn spec_digit_char(d: int) -> char {
    (0x30 + d) as char
}

/// The decimal notation of a natural number, most significant digit first.
pub open spec fn spec_nat_dec(n: nat) -> Seq<char>
    decreases n,
{
    if n < 10 {
        seq![spec_digit_char(n as int)]
    } else {
        spec_nat_dec(n / 10).push(spec_digit_char((n % 10) as int))
    }
}

/// The decimal notation of an integer: a minus sign for negative values.
pub open spec fn spec_int_dec(n: int) -> Seq<char> {
    if n >= 0 {
        spec_nat_dec(n as nat)
    } else {
        seq!['-'] + spec_nat_dec((-n) as nat)
    }
}

/// Renders a natural number in decimal.
pub fn usize_to_string(n: usize) -> (r: String)
    ensures
        r@ == spec_nat_dec(n as nat),
    decreases n,
{
    if n < 10 {
        let mut r = String::new();
        let d: u8 = 0x30 + (n as u8);
        r.push(d as char);
        proof {
            assert(r@ =~= seq![spec_digit_char(n as int)]);
        }
        r
    } else {
        let mut r = usize_to_string(n / 10);
        let d: u8 = 0x30 + ((n % 10) as u8);
        r.push(d as char);
        r
    }
}

/// Renders a 32-bit integer in decimal, with a minus sign when negative.
pub fn i32_to_string(n: i32) -> (r: String)
    ensures
        r@ == spec_int_dec(n as int),
{
    if n >= 0 {
        usize_to_string(n as usize)
    } else {
        let m: i64 = -(n as i64);
        let mut r = String::new();
        r.push('-');
        let rest = usize_to_string(m as usize);
        r.append(rest.as_str());
        proof {
            assert(r@ =~= seq!['-'] + spec_nat_dec((-(n as int)) as nat));
        }
        r
    }
}

} // verus!
