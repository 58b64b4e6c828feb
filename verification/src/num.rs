//! Decimal rendering of the integer fields that a request carries.

use vstd::prelude::*;

verus! {

/// The character of one decimal digit.
pub open spec fn dec_digit(n: int) -> char {
    if n == 0 {
        '0'
    } else if n == 1 {
        '1'
    } else if n == 2 {
        '2'
    } else if n == 3 {
        '3'
    } else if n == 4 {
        '4'
    } else if n == 5 {
        '5'
    } else if n == 6 {
        '6'
    } else if n == 7 {
        '7'
    } else if n == 8 {
        '8'
    } else {
        '9'
    }
}

/// Decimal digits of a non-negative integer, most significant first.
pub open spec fn dec_digits(n: nat) -> Seq<char>
    decreases n,
{
    if n < 10 {
        seq![dec_digit(n as int)]
    } else {
        dec_digits(n / 10) + seq![dec_digit((n % 10) as int)]
    }
}

/// Decimal text of an integer, with a leading minus sign when negative.
pub open spec fn int_rep(n: int) -> Seq<char> {
    if n < 0 {
        seq!['-'] + dec_digits((-n) as nat)
    } else {
        dec_digits(n as nat)
    }
}

fn dec_digit_char(n: u64) -> (r: char)
    requires
        n < 10,
    ensures
        r == dec_digit(n as int),
{
    if n == 0 {
        '0'
    } else if n == 1 {
        '1'
    } else if n == 2 {
        '2'
    } else if n == 3 {
        '3'
    } else if n == 4 {
        '4'
    } else if n == 5 {
        '5'
    } else if n == 6 {
        '6'
    } else if n == 7 {
        '7'
    } else if n == 8 {
        '8'
    } else {
        '9'
    }
}

pub fn write_u64_digits(n: u64, out: &mut Vec<char>)
    ensures
        final(out)@ == old(out)@ + dec_digits(n as nat),
    decreases n,
{
    if n < 10 {
        out.push(dec_digit_char(n));
        proof {
            assert(out@ =~= old(out)@ + dec_digits(n as nat));
        }
    } else {
        write_u64_digits(n / 10, out);
        out.push(dec_digit_char(n % 10));
        proof {
            assert(out@ =~= old(out)@ + dec_digits(n as nat));
        }
    }
}

pub fn write_i32_decimal(n: i32, out: &mut Vec<char>)
    ensures
        final(out)@ == old(out)@ + int_rep(n as int),
{
    if n < 0 {
        out.push('-');
        let m: i64 = -(n as i64);
        write_u64_digits(m as u64, out);
        proof {
            assert(out@ =~= old(out)@ + int_rep(n as int));
        }
    } else {
        write_u64_digits(n as u64, out);
    }
}

} // verus!
