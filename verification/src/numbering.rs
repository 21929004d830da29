//! The numbers given to invoices that come without one: `FN-` and a running
//! number written in decimal.

use vstd::prelude::*;
use vstd::string::StringExecFns;

verus! {

/// The character of a decimal digit.
pub open spec fn digit_char(d: nat) -> char {
    if d == 0 {
        '0'
    } else if d == 1 {
        '1'
    } else if d == 2 {
        '2'
    } else if d == 3 {
        '3'
    } else if d == 4 {
        '4'
    } else if d == 5 {
        '5'
    } else if d == 6 {
        '6'
    } else if d == 7 {
        '7'
    } else if d == 8 {
        '8'
    } else {
        '9'
    }
}

/// `n` written in decimal, without leading zeros.
pub open spec fn spec_decimal(n: nat) -> Seq<char>
    decreases n,
{
    if n < 10 {
        seq![digit_char(n)]
    } else {
        spec_decimal(n / 10).push(digit_char(n % 10))
    }
}

/// The number assigned for the running number `n`.
pub open spec fn spec_assigned_number(n: nat) -> Seq<char> {
    "FN-"@ + spec_decimal(n)
}

fn digit_text(d: u64) -> (r: &'static str)
    requires
        d < 10,
    ensures
        r@ == seq![digit_char(d as nat)],
{
    proof {
        reveal_strlit("0");
        reveal_strlit("1");
        reveal_strlit("2");
        reveal_strlit("3");
        reveal_strlit("4");
        reveal_strlit("5");
        reveal_strlit("6");
        reveal_strlit("7");
        reveal_strlit("8");
        reveal_strlit("9");
    }
    let r = if d == 0 {
        "0"
    } else if d == 1 {
        "1"
    } else if d == 2 {
        "2"
    } else if d == 3 {
        "3"
    } else if d == 4 {
        "4"
    } else if d == 5 {
        "5"
    } else if d == 6 {
        "6"
    } else if d == 7 {
        "7"
    } else if d == 8 {
        "8"
    } else {
        "9"
    };
    assert(r@ =~= seq![digit_char(d as nat)]);
    r
}

/// Writes `n` in decimal.
pub fn decimal(n: u64) -> (r: String)
    ensures
        r@ == spec_decimal(n as nat),
    decreases n,
{
    if n < 10 {
        String::from_str(digit_text(n))
    } else {
        let r = decimal(n / 10).concat(digit_text(n % 10));
        assert(r@ =~= spec_decimal(n as nat));
        r
    }
}

/// The number assigned for the running number `n`: `FN-1`, `FN-2`, ...
pub fn assigned_number(n: u64) -> (r: String)
    ensures
        r@ == spec_assigned_number(n as nat),
{
    String::from_str("FN-").concat(decimal(n).as_str())
}

/// Two numbers with the same decimal form are the same number.
pub proof fn lemma_decimal_is_injective(a: nat, b: nat)
    requires
        spec_decimal(a) == spec_decimal(b),
    ensures
        a == b,
    decreases a,
{
    if a < 10 && b < 10 {
        assert(spec_decimal(a)[0] == digit_char(a));
        assert(spec_decimal(b)[0] == digit_char(b));
        assert(digit_char(a) == digit_char(b));
        assert(a == b);
    } else if a >= 10 && b >= 10 {
        let x = spec_decimal(a / 10);
        let y = spec_decimal(b / 10);
        assert(x.push(digit_char(a % 10)).drop_last() =~= x);
        assert(y.push(digit_char(b % 10)).drop_last() =~= y);
        assert(x.push(digit_char(a % 10)).last() == digit_char(a % 10));
        assert(y.push(digit_char(b % 10)).last() == digit_char(b % 10));
        assert(x == y);
        lemma_decimal_is_injective(a / 10, b / 10);
        assert(digit_char(a % 10) == digit_char(b % 10));
        assert(a % 10 == b % 10);
        assert(a / 10 == b / 10);
        assert(a == 10 * (a / 10) + a % 10);
        assert(b == 10 * (b / 10) + b % 10);
        assert(a == b);
    } else if a < 10 {
        lemma_decimal_has_a_digit(b / 10);
        assert(spec_decimal(b).len() >= 2);
        assert(spec_decimal(a).len() == 1);
        assert(false);
    } else {
        lemma_decimal_has_a_digit(a / 10);
        assert(spec_decimal(a).len() >= 2);
        assert(spec_decimal(b).len() == 1);
        assert(false);
    }
}

proof fn lemma_decimal_has_a_digit(n: nat)
    ensures
        spec_decimal(n).len() >= 1,
    decreases n,
{
    if n >= 10 {
        lemma_decimal_has_a_digit(n / 10);
    }
}

/// Different running numbers give different assigned numbers, so the
/// sequence of assigned numbers never repeats itself.
pub proof fn lemma_assigned_numbers_differ(a: nat, b: nat)
    requires
        a != b,
    ensures
        spec_assigned_number(a) != spec_assigned_number(b),
{
    if spec_assigned_number(a) == spec_assigned_number(b) {
        let p = "FN-"@;
        assert((p + spec_decimal(a)).subrange(p.len() as int, (p + spec_decimal(a)).len() as int)
            =~= spec_decimal(a));
        assert((p + spec_decimal(b)).subrange(p.len() as int, (p + spec_decimal(b)).len() as int)
            =~= spec_decimal(b));
        lemma_decimal_is_injective(a, b);
    }
}

} // verus!
