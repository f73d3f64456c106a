//! Decimal rendering of unsigned numbers, used by event messages.

use vstd::prelude::*;

verus! {

/// The character for one decimal digit value.
pub open spec fn decimal_digit(d: nat) -> char
    recommends
        d < 10,
{
    if d == 0 {
        '0'
    } else if d == 1 {
        '1'
    } else if d == 2 {
        '2'
    } else if d == 3 {
        '3'
    } else if d == 4 {
        '4'
    } else if d == 5 {
        '5'
    } else if d == 6 {
        '6'
    } else if d == 7 {
        '7'
    } else if d == 8 {
        '8'
    } else {
        '9'
    }
}

/// The usual decimal rendering of a natural number: most significant
/// digit first, no leading zeros (a single '0' for zero).
pub open spec fn decimal_rep(n: nat) -> Seq<char>
    decreases n,
{
    if n < 10 {
        seq![decimal_digit(n)]
    } else {
        decimal_rep(n / 10) + seq![decimal_digit(n % 10)]
    }
}

/// A one-character string for one digit value.
fn digit_str(d: u64) -> (r: &'static str)
    requires
        d < 10,
    ensures
        r@ == seq![decimal_digit(d as nat)],
{
    let r: &'static str = if d == 0 {
        "0"
    } else if d == 1 {
        "1"
    } else if d == 2 {
        "2"
    } else if d == 3 {
        "3"
    } else if d == 4 {
        "4"
    } else if d == 5 {
        "5"
    } else if d == 6 {
        "6"
    } else if d == 7 {
        "7"
    } else if d == 8 {
        "8"
    } else {
        "9"
    };
    proof {
        reveal_strlit("0");
        reveal_strlit("1");
        reveal_strlit("2");
        reveal_strlit("3");
        reveal_strlit("4");
        reveal_strlit("5");
        reveal_strlit("6");
        reveal_strlit("7");
        reveal_strlit("8");
        reveal_strlit("9");
        assert(r@ =~= seq![decimal_digit(d as nat)]);
    }
    r
}

/// Renders `n` in decimal; the result is exactly `decimal_rep(n)`.
pub fn u64_to_string(n: u64) -> (r: String)
    ensures
        r@ == decimal_rep(n as nat),
{
    let mut r = String::new();
    let mut m: u64 = n;
    if m == 0 {
        let z = digit_str(0).to_owned();
        proof {
            assert(z@ =~= decimal_rep(0));
        }
        return z;
    }
    proof {
        assert(decimal_rep(n as nat) + Seq::<char>::empty() =~= decimal_rep(n as nat));
    }
    while m != 0
        invariant
            decimal_rep(n as nat) == (if m == 0 {
                r@
            } else {
                decimal_rep(m as nat) + r@
            }),
        decreases m,
    {
        let ghost old_r: Seq<char> = r@;
        let ghost old_m: nat = m as nat;
        let d = m % 10;
        let piece = digit_str(d).to_owned();
        r = piece.concat(r.as_str());
        m = m / 10;
        proof {
            if old_m < 10 {
                assert(decimal_rep(old_m) == seq![decimal_digit(old_m)]);
            } else {
                assert(decimal_rep(old_m) == decimal_rep(old_m / 10) + seq![
                    decimal_digit(old_m % 10),
                ]);
                assert((decimal_rep(old_m / 10) + seq![decimal_digit(old_m % 10)]) + old_r
                    =~= decimal_rep(old_m / 10) + (seq![decimal_digit(old_m % 10)] + old_r));
            }
        }
    }
    r
}

} // verus!
