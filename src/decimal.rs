//! Decimal rendering of unsigned integers.

use vstd::prelude::*;

verus! {

/// The character of the decimal digit `d`.
pub open spec fn digit_char(d: nat) -> char {
    if d == 0 {
        '0'
    } else if d == 1 {
        '1'
    } else if d == 2 {
        '2'
    } else if d == 3 {
        '3'
    } else if d == 4 {
        '4'
    } else if d == 5 {
        '5'
    } else if d == 6 {
        '6'
    } else if d == 7 {
        '7'
    } else if d == 8 {
        '8'
    } else {
        '9'
    }
}

/// The decimal digits of `n`, most significant first, without leading zeros.
pub open spec fn decimal(n: nat) -> Seq<char>
    decreases n,
{
    if n < 10 {
        seq![digit_char(n)]
    } else {
        decimal(n / 10).push(digit_char(n % 10))
    }
}

/// The digits of `n` above the lowest one; empty when `n` is zero.
spec fn decimal_prefix(n: nat) -> Seq<char> {
    if n == 0 {
        Seq::empty()
    } else {
        decimal(n)
    }
}

fn digit_str(d: u32) -> (r: &'static str)
    requires
        d < 10,
    ensures
        r@ == seq![digit_char(d as nat)],
{
    let r = if d == 0 {
        "0"
    } else if d == 1 {
        "1"
    } else if d == 2 {
        "2"
    } else if d == 3 {
        "3"
    } else if d == 4 {
        "4"
    } else if d == 5 {
        "5"
    } else if d == 6 {
        "6"
    } else if d == 7 {
        "7"
    } else if d == 8 {
        "8"
    } else {
        "9"
    };
    proof {
        reveal_strlit("0");
        reveal_strlit("1");
        reveal_strlit("2");
        reveal_strlit("3");
        reveal_strlit("4");
        reveal_strlit("5");
        reveal_strlit("6");
        reveal_strlit("7");
        reveal_strlit("8");
        reveal_strlit("9");
    }
    assert(r@ =~= seq![digit_char(d as nat)]);
    r
}

/// Renders `n` in decimal, as `{}` formats an unsigned integer.
pub fn decimal_string(n: u32) -> (r: String)
    ensures
        r@ == decimal(n as nat),
{
    let mut rest: u32 = n / 10;
    let mut s = String::from_str(digit_str(n % 10));
    assert(decimal(n as nat) == decimal_prefix(rest as nat) + s@) by {
        if n >= 10 {
            assert(decimal(n as nat) =~= decimal(rest as nat) + seq![digit_char((n % 10) as nat)]);
        } else {
            assert(decimal_prefix(rest as nat) + s@ =~= s@);
        }
    }
    while rest > 0
        invariant
            decimal(n as nat) == decimal_prefix(rest as nat) + s@,
        decreases rest,
    {
        let d = rest % 10;
        let next = rest / 10;
        let head = String::from_str(digit_str(d));
        proof {
            if rest >= 10 {
                assert(decimal(rest as nat) =~= decimal(next as nat) + seq![digit_char(d as nat)]);
            } else {
                assert(decimal(rest as nat) =~= decimal_prefix(next as nat) + seq![digit_char(d as nat)]);
            }
            assert(decimal_prefix(rest as nat) + s@ =~= decimal_prefix(next as nat) + (head@ + s@));
        }
        s = head.concat(s.as_str());
        rest = next;
    }
    assert(decimal_prefix(rest as nat) + s@ =~= s@);
    s
}

} // verus!
