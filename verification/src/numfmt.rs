//! Decimal formatting of the 64-bit ids that appear in the report.

use vstd::prelude::*;

verus! {

/// The decimal digit character for `d`.
pub open spec fn spec_digit(d: int) -> char {
    if d == 0 {
        '0'
    } else if d == 1 {
        '1'
    } else if d == 2 {
        '2'
    } else if d == 3 {
        '3'
    } else if d == 4 {
        '4'
    } else if d == 5 {
        '5'
    } else if d == 6 {
        '6'
    } else if d == 7 {
        '7'
    } else if d == 8 {
        '8'
    } else {
        '9'
    }
}

/// The decimal digits of a nonnegative `n`, most significant first and
/// without leading zeros (a single `0` for zero).
pub open spec fn spec_udec(n: int) -> Seq<char>
    decreases n,
{
    if n < 10 {
        seq![spec_digit(n)]
    } else {
        spec_udec(n / 10) + seq![spec_digit(n % 10)]
    }
}

/// The decimal form of `v`, with a leading minus sign when negative.
pub open spec fn spec_idec(v: int) -> Seq<char> {
    if v < 0 {
        seq!['-'] + spec_udec(-v)
    } else {
        spec_udec(v)
    }
}

fn digit_char(d: u64) -> (c: char)
    requires
        d < 10,
    ensures
        c == spec_digit(d as int),
{
    if d == 0 {
        '0'
    } else if d == 1 {
        '1'
    } else if d == 2 {
        '2'
    } else if d == 3 {
        '3'
    } else if d == 4 {
        '4'
    } else if d == 5 {
        '5'
    } else if d == 6 {
        '6'
    } else if d == 7 {
        '7'
    } else if d == 8 {
        '8'
    } else {
        '9'
    }
}

/// Appends the decimal digits of `n` to `out`.
pub fn push_u64_dec(out: &mut Vec<char>, n: u64)
    ensures
        final(out)@ == old(out)@ + spec_udec(n as int),
    decreases n,
{
    if n >= 10 {
        push_u64_dec(out, n / 10);
        let d = digit_char(n % 10);
        out.push(d);
        proof {
            assert(out@ =~= old(out)@ + (spec_udec(n as int / 10) + seq![
                spec_digit(n as int % 10),
            ]));
        }
    } else {
        let d = digit_char(n);
        out.push(d);
        proof {
            assert(out@ =~= old(out)@ + seq![spec_digit(n as int)]);
        }
    }
}

/// Appends the decimal form of `v` to `out`, minus sign included.
pub fn push_i64_dec(out: &mut Vec<char>, v: i64)
    ensures
        final(out)@ == old(out)@ + spec_idec(v as int),
{
    if v >= 0 {
        push_u64_dec(out, v as u64);
    } else {
        out.push('-');
        let m: u64 = if v == i64::MIN {
            9223372036854775808u64
        } else {
            (-v) as u64
        };
        proof {
            assert(m as int == -(v as int));
        }
        push_u64_dec(out, m);
        proof {
            assert(old(out)@ + (seq!['-'] + spec_udec(m as int)) =~= (old(out)@ + seq!['-'])
                + spec_udec(m as int));
        }
    }
}

} // verus!
