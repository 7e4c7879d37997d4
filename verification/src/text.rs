//! Decimal rendering of the numbers that error messages carry, and the
//! two string-append operations the rendering is built on.

use vstd::prelude::*;

verus! {

/// Relies on String::push: appends the given char to the end of this String.
pub assume_specification[ String::push ](s: &mut String, ch: char)
    ensures
        final(s)@ == old(s)@.push(ch),
;

/// Relies on String::push_str: appends a given string slice onto the end of
/// this String.
pub assume_specification[ String::push_str ](s: &mut String, other: &str)
    ensures
        final(s)@ == old(s)@ + other@,
;

/// The character for one decimal digit.
pub open spec fn dec_digit(d: int) -> char {
    if d == 0 {
        '0'
    } else if d == 1 {
        '1'
    } else if d == 2 {
        '2'
    } else if d == 3 {
        '3'
    } else if d == 4 {
        '4'
    } else if d == 5 {
        '5'
    } else if d == 6 {
        '6'
    } else if d == 7 {
        '7'
    } else if d == 8 {
        '8'
    } else {
        '9'
    }
}

/// The decimal rendering of `n`, most significant digit first,
/// without a sign and without leading zeros (`0` renders as "0").
pub open spec fn dec_seq(n: int) -> Seq<char>
    recommends
        n >= 0,
    decreases n,
{
    if n < 10 {
        seq![dec_digit(n)]
    } else {
        dec_seq(n / 10).push(dec_digit(n % 10))
    }
}

fn dec_digit_char(d: usize) -> (c: char)
    requires
        d < 10,
    ensures
        c == dec_digit(d as int),
{
    match d {
        0 => '0',
        1 => '1',
        2 => '2',
        3 => '3',
        4 => '4',
        5 => '5',
        6 => '6',
        7 => '7',
        8 => '8',
        _ => '9',
    }
}

/// Renders `n` in decimal.
pub fn decimal_string(n: usize) -> (s: String)
    ensures
        s@ == dec_seq(n as int),
{
    let mut digits: Vec<char> = Vec::new();
    let mut m: usize = n;
    let c0 = dec_digit_char(m % 10);
    digits.insert(0, c0);
    proof {
        assert(digits@ =~= seq![dec_digit(n as int % 10)]);
        if n < 10 {
            assert(n as int % 10 == n as int);
        } else {
            assert(dec_seq(n as int) == dec_seq(n as int / 10).push(dec_digit(n as int % 10)));
            assert(dec_seq(n as int) =~= dec_seq(n as int / 10) + digits@);
        }
    }
    m = m / 10;
    while m != 0
        invariant
            m > 0 ==> dec_seq(n as int) == dec_seq(m as int) + digits@,
            m == 0 ==> dec_seq(n as int) == digits@,
        decreases m,
    {
        let ghost pre_digits = digits@;
        let ghost pre_m = m as int;
        let c = dec_digit_char(m % 10);
        digits.insert(0, c);
        proof {
            assert(digits@ =~= seq![dec_digit(pre_m % 10)] + pre_digits);
            if pre_m < 10 {
                assert(pre_m % 10 == pre_m);
                assert(dec_seq(pre_m) =~= seq![dec_digit(pre_m)]);
                assert(dec_seq(n as int) =~= digits@);
            } else {
                assert(dec_seq(pre_m) == dec_seq(pre_m / 10).push(dec_digit(pre_m % 10)));
                assert(dec_seq(pre_m) =~= dec_seq(pre_m / 10) + seq![dec_digit(pre_m % 10)]);
                assert(dec_seq(n as int) =~= dec_seq(pre_m / 10) + digits@);
            }
        }
        m = m / 10;
    }
    let mut s = String::new();
    let mut i: usize = 0;
    while i < digits.len()
        invariant
            i <= digits.len(),
            s@ == digits@.subrange(0, i as int),
            dec_seq(n as int) == digits@,
        decreases digits.len() - i,
    {
        let ghost pre_s = s@;
        let c = digits[i];
        s.push(c);
        proof {
            assert(s@ =~= digits@.subrange(0, i + 1));
        }
        i = i + 1;
    }
    proof {
        assert(digits@.subrange(0, digits@.len() as int) =~= digits@);
    }
    s
}

} // verus!
