//! Verified decimal rendering of array indices.

use vstd::prelude::*;

use crate::model::{dec_digits, digit_char};

verus! {

/// The decimal digit character for `d`.
fn digit_char_exec(d: usize) -> (c: char)
    requires
        d < 10,
    ensures
        c == digit_char(d as nat),
{
    match d {
        0 => '0',
        1 => '1',
        2 => '2',
        3 => '3',
        4 => '4',
        5 => '5',
        6 => '6',
        7 => '7',
        8 => '8',
        _ => '9',
    }
}

/// Appends the decimal rendering of `n` to `out`, most significant digit
/// first.
pub(crate) fn push_dec_digits(n: usize, out: &mut Vec<char>)
    ensures
        final(out)@ == old(out)@ + dec_digits(n as nat),
    decreases n,
{
    if n >= 10 {
        push_dec_digits(n / 10, out);
    }
    out.push(digit_char_exec(n % 10));
    proof {
        assert(out@ =~= old(out)@ + dec_digits(n as nat));
    }
}

} // verus!
