use vstd::prelude::*;
use crate::object_id::lower_digit;

verus! {

/// The decimal digits of a natural number, most significant first, with no leading zero.
pub open spec fn nat_digits(n: nat) -> Seq<char>
    decreases n,
{
    if n < 10 {
        seq![lower_digit(n as int)]
    } else {
        nat_digits(n / 10).push(lower_digit((n % 10) as int))
    }
}

/// The decimal spelling of an integer: a minus sign before the digits of a negative one.
pub open spec fn decimal_of(i: int) -> Seq<char> {
    if i < 0 {
        seq!['-'] + nat_digits((-i) as nat)
    } else {
        nat_digits(i as nat)
    }
}

/// Relies on `String::push`: appends one character.
#[verifier::external_body]
fn push_char(s: &mut String, c: char)
    ensures
        final(s)@ == old(s)@.push(c),
{
    s.push(c)
}

fn digit_char(d: u64) -> (c: char)
    requires
        d < 10,
    ensures
        c == lower_digit(d as int),
{
    match d {
        0 => '0',
        1 => '1',
        2 => '2',
        3 => '3',
        4 => '4',
        5 => '5',
        6 => '6',
        7 => '7',
        8 => '8',
        _ => '9',
    }
}

fn push_digits(s: &mut String, n: u64)
    ensures
        final(s)@ == old(s)@ + nat_digits(n as nat),
    decreases n,
{
    if n >= 10 {
        push_digits(s, n / 10);
    }
    push_char(s, digit_char(n % 10));
    assert(final(s)@ =~= old(s)@ + nat_digits(n as nat));
}

/// The decimal spelling of a signed 64-bit integer.
pub fn decimal_string(i: i64) -> (r: String)
    ensures
        r@ == decimal_of(i as int),
{
    let mut s = String::new();
    let magnitude: u64 = if i < 0 {
        push_char(&mut s, '-');
        (0 - (i as i128)) as u64
    } else {
        i as u64
    };
    push_digits(&mut s, magnitude);
    assert(s@ =~= decimal_of(i as int));
    s
}

/// Ten to the power `k`.
pub open spec fn pow10(k: nat) -> nat
    decreases k,
{
    if k == 0 {
        1
    } else {
        10 * pow10((k - 1) as nat)
    }
}

/// A number below ten to the power `k` has at most `k` digits, for `k` at least one.
pub proof fn lemma_nat_digits_len(n: nat, k: nat)
    requires
        n < pow10(k),
        k >= 1,
    ensures
        nat_digits(n).len() <= k,
    decreases k,
{
    if n >= 10 {
        reveal_with_fuel(pow10, 2);
        assert(k >= 2);
        let q = pow10((k - 1) as nat);
        assert(n < 10 * q);
        assert(n / 10 < q) by (nonlinear_arith)
            requires
                n < 10 * q,
        ;
        lemma_nat_digits_len(n / 10, (k - 1) as nat);
    }
}

/// The spelling of a signed 64-bit integer is at most 20 characters long.
pub proof fn lemma_decimal_i64_len(i: i64)
    ensures
        decimal_of(i as int).len() <= 20,
{
    reveal_with_fuel(pow10, 20);
    assert(pow10(19) == 10000000000000000000nat);
    if i < 0 {
        lemma_nat_digits_len((-(i as int)) as nat, 19);
    } else {
        lemma_nat_digits_len(i as nat, 19);
    }
}

} // verus!
