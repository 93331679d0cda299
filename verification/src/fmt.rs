//! Decimal rendering of exit codes for transcripts and failure reasons.

use vstd::prelude::*;

verus! {

/// The character for one decimal digit.
pub open spec fn digit_char(d: int) -> char {
    if d == 0 {
        '0'
    } else if d == 1 {
        '1'
    } else if d == 2 {
        '2'
    } else if d == 3 {
        '3'
    } else if d == 4 {
        '4'
    } else if d == 5 {
        '5'
    } else if d == 6 {
        '6'
    } else if d == 7 {
        '7'
    } else if d == 8 {
        '8'
    } else {
        '9'
    }
}

/// The decimal digits of `n`, most significant first.
pub open spec fn dec_digits(n: nat) -> Seq<char>
    decreases n,
{
    if n < 10 {
        seq![digit_char(n as int)]
    } else {
        dec_digits(n / 10).push(digit_char((n % 10) as int))
    }
}

/// The decimal rendering of `v`, with a leading minus sign when negative.
pub open spec fn int_str(v: int) -> Seq<char> {
    if v < 0 {
        seq!['-'] + dec_digits((-v) as nat)
    } else {
        dec_digits(v as nat)
    }
}

/// Relies on `String::push`: appends one character to the string.
#[verifier::external_body]
pub(crate) fn push_char(s: &mut String, c: char)
    ensures
        final(s)@ == old(s)@.push(c),
{
    s.push(c);
}

fn digit_of(d: u64) -> (r: char)
    requires
        d < 10,
    ensures
        r == digit_char(d as int),
{
    if d == 0 {
        '0'
    } else if d == 1 {
        '1'
    } else if d == 2 {
        '2'
    } else if d == 3 {
        '3'
    } else if d == 4 {
        '4'
    } else if d == 5 {
        '5'
    } else if d == 6 {
        '6'
    } else if d == 7 {
        '7'
    } else if d == 8 {
        '8'
    } else {
        '9'
    }
}

fn push_digits(s: &mut String, n: u64)
    ensures
        final(s)@ == old(s)@ + dec_digits(n as nat),
    decreases n,
{
    if n < 10 {
        push_char(s, digit_of(n));
        proof {
            assert(old(s)@.push(digit_char(n as int)) =~= old(s)@ + dec_digits(n as nat));
        }
    } else {
        push_digits(s, n / 10);
        push_char(s, digit_of(n % 10));
        proof {
            assert((old(s)@ + dec_digits((n / 10) as nat)).push(digit_char((n % 10) as int))
                =~= old(s)@ + dec_digits(n as nat));
        }
    }
}

/// Renders a count in decimal.
pub fn count_string(v: usize) -> (r: String)
    ensures
        r@ == dec_digits(v as nat),
{
    let mut s = String::new();
    push_digits(&mut s, v as u64);
    proof {
        assert(Seq::<char>::empty() + dec_digits(v as nat) =~= dec_digits(v as nat));
    }
    s
}

/// Renders an exit status in decimal.
pub fn exit_code_string(v: i32) -> (r: String)
    ensures
        r@ == int_str(v as int),
{
    let mut s = String::new();
    if v < 0 {
        push_char(&mut s, '-');
        let m: u64 = (-(v as i64)) as u64;
        push_digits(&mut s, m);
        proof {
            assert(Seq::<char>::empty().push('-') =~= seq!['-']);
            assert(seq!['-'] + dec_digits(m as nat) =~= int_str(v as int));
        }
    } else {
        push_digits(&mut s, v as u64);
        proof {
            assert(Seq::<char>::empty() + dec_digits((v as u64) as nat) =~= int_str(v as int));
        }
    }
    s
}

} // verus!
