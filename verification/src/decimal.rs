//! Rendering unsigned integers as decimal text, with an exact character-level
//! specification.  Several query and model types print identifiers and limits,
//! so the conversion is shared here.

use vstd::prelude::*;

verus! {

/// The character for a single decimal digit.
pub open spec fn spec_decimal_digit(d: nat) -> char
    recommends
        d < 10,
{
    if d == 0 {
        '0'
    } else if d == 1 {
        '1'
    } else if d == 2 {
        '2'
    } else if d == 3 {
        '3'
    } else if d == 4 {
        '4'
    } else if d == 5 {
        '5'
    } else if d == 6 {
        '6'
    } else if d == 7 {
        '7'
    } else if d == 8 {
        '8'
    } else {
        '9'
    }
}

/// The usual decimal rendering of a natural number: most significant digit
/// first, no leading zeroes (except for zero itself).
pub open spec fn spec_decimal(n: nat) -> Seq<char>
    decreases n,
{
    if n < 10 {
        seq![spec_decimal_digit(n)]
    } else {
        spec_decimal(n / 10).push(spec_decimal_digit(n % 10))
    }
}

fn decimal_digit_str(d: u32) -> (s: &'static str)
    requires
        d < 10,
    ensures
        s@ == seq![spec_decimal_digit(d as nat)],
{
    proof {
        reveal_strlit("0");
        reveal_strlit("1");
        reveal_strlit("2");
        reveal_strlit("3");
        reveal_strlit("4");
        reveal_strlit("5");
        reveal_strlit("6");
        reveal_strlit("7");
        reveal_strlit("8");
        reveal_strlit("9");
    }
    if d == 0 {
        assert("0"@ =~= seq![spec_decimal_digit(0)]);
        "0"
    } else if d == 1 {
        assert("1"@ =~= seq![spec_decimal_digit(1)]);
        "1"
    } else if d == 2 {
        assert("2"@ =~= seq![spec_decimal_digit(2)]);
        "2"
    } else if d == 3 {
        assert("3"@ =~= seq![spec_decimal_digit(3)]);
        "3"
    } else if d == 4 {
        assert("4"@ =~= seq![spec_decimal_digit(4)]);
        "4"
    } else if d == 5 {
        assert("5"@ =~= seq![spec_decimal_digit(5)]);
        "5"
    } else if d == 6 {
        assert("6"@ =~= seq![spec_decimal_digit(6)]);
        "6"
    } else if d == 7 {
        assert("7"@ =~= seq![spec_decimal_digit(7)]);
        "7"
    } else if d == 8 {
        assert("8"@ =~= seq![spec_decimal_digit(8)]);
        "8"
    } else {
        assert("9"@ =~= seq![spec_decimal_digit(9)]);
        "9"
    }
}

/// Renders `n` in decimal.
pub fn u32_to_decimal(n: u32) -> (s: String)
    ensures
        s@ == spec_decimal(n as nat),
    decreases n,
{
    if n < 10 {
        decimal_digit_str(n).to_owned()
    } else {
        let mut s = u32_to_decimal(n / 10);
        s.append(decimal_digit_str(n % 10));
        assert(s@ =~= spec_decimal(n as nat));
        s
    }
}

} // verus!
