//! Decimal rendering of integers, specified character by character.

use vstd::prelude::*;

verus! {

/// The character for one decimal digit.
pub open spec fn spec_digit_char(d: int) -> char {
    if d == 0 {
        '0'
    } else if d == 1 {
        '1'
    } else if d == 2 {
        '2'
    } else if d == 3 {
        '3'
    } else if d == 4 {
        '4'
    } else if d == 5 {
        '5'
    } else if d == 6 {
        '6'
    } else if d == 7 {
        '7'
    } else if d == 8 {
        '8'
    } else {
        '9'
    }
}

/// The digits of `n` in base ten, most significant first; empty for zero.
pub open spec fn spec_digits(n: int) -> Seq<char>
    decreases n,
{
    if n <= 0 {
        Seq::empty()
    } else {
        spec_digits(n / 10).push(spec_digit_char(n % 10))
    }
}

/// The usual decimal rendering of a non-negative number: `"0"` for zero,
/// no leading zeroes otherwise.
pub open spec fn spec_decimal(n: int) -> Seq<char> {
    if n == 0 {
        seq!['0']
    } else {
        spec_digits(n)
    }
}

/// Appends the character for one digit.
fn push_digit_char(s: &mut String, d: u64)
    requires
        d < 10,
    ensures
        final(s)@ == old(s)@.push(spec_digit_char(d as int)),
{
    if d == 0 {
        s.append("0");
    } else if d == 1 {
        s.append("1");
    } else if d == 2 {
        s.append("2");
    } else if d == 3 {
        s.append("3");
    } else if d == 4 {
        s.append("4");
    } else if d == 5 {
        s.append("5");
    } else if d == 6 {
        s.append("6");
    } else if d == 7 {
        s.append("7");
    } else if d == 8 {
        s.append("8");
    } else {
        s.append("9");
    }
    proof {
        reveal_strlit("0");
        reveal_strlit("1");
        reveal_strlit("2");
        reveal_strlit("3");
        reveal_strlit("4");
        reveal_strlit("5");
        reveal_strlit("6");
        reveal_strlit("7");
        reveal_strlit("8");
        reveal_strlit("9");
        assert(s@ =~= old(s)@.push(spec_digit_char(d as int)));
    }
}

/// Appends the digits of `n`, most significant first; nothing for zero.
fn push_digits(s: &mut String, n: u64)
    ensures
        final(s)@ == old(s)@ + spec_digits(n as int),
    decreases n,
{
    if n == 0 {
        proof {
            assert(s@ =~= old(s)@ + spec_digits(0));
        }
        return ;
    }
    push_digits(s, n / 10);
    push_digit_char(s, n % 10);
    proof {
        assert(s@ =~= old(s)@ + spec_digits(n as int));
    }
}

/// Renders `n` in decimal.
pub fn u64_to_decimal(n: u64) -> (r: String)
    ensures
        r@ == spec_decimal(n as int),
{
    let mut s = String::new();
    if n == 0 {
        s.append("0");
        proof {
            reveal_strlit("0");
            assert(s@ =~= spec_decimal(0));
        }
    } else {
        push_digits(&mut s, n);
        proof {
            assert(s@ =~= spec_digits(n as int));
        }
    }
    s
}

/// Appends the decimal rendering of `n`.
pub fn append_decimal(s: &mut String, n: u64)
    ensures
        final(s)@ == old(s)@ + spec_decimal(n as int),
{
    if n == 0 {
        s.append("0");
        proof {
            reveal_strlit("0");
            assert(s@ =~= old(s)@ + spec_decimal(0));
        }
    } else {
        push_digits(s, n);
    }
}

} // verus!
