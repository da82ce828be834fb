//! Decimal text of millimetre quantities, as printed in labels.

use vstd::prelude::*;
use vstd::string::*;

verus! {

/// Largest magnitude that the label formatters accept.
pub const TEXT_LIMIT: i64 = 1_000_000_000_000_000_000;

pub open spec fn digit_char(d: int) -> char {
    if d == 0 {
        '0'
    } else if d == 1 {
        '1'
    } else if d == 2 {
        '2'
    } else if d == 3 {
        '3'
    } else if d == 4 {
        '4'
    } else if d == 5 {
        '5'
    } else if d == 6 {
        '6'
    } else if d == 7 {
        '7'
    } else if d == 8 {
        '8'
    } else {
        '9'
    }
}

/// Decimal digits of `n`, without leading zeros.
pub open spec fn decimal(n: nat) -> Seq<char>
    decreases n,
{
    if n < 10 {
        seq![digit_char(n as int)]
    } else {
        decimal(n / 10).push(digit_char((n % 10) as int))
    }
}

/// The last `places` decimal digits of `n`, with leading zeros.
pub open spec fn padded(n: nat, places: nat) -> Seq<char>
    decreases places,
{
    if places == 0 {
        Seq::empty()
    } else {
        padded(n / 10, (places - 1) as nat).push(digit_char((n % 10) as int))
    }
}

pub open spec fn abs(v: int) -> nat {
    if v < 0 {
        (-v) as nat
    } else {
        v as nat
    }
}

pub open spec fn sign_text(v: int) -> Seq<char> {
    if v < 0 {
        seq!['-']
    } else {
        Seq::empty()
    }
}

/// `v / d` rounded to the nearest integer, halves away from zero.
pub open spec fn round_div(v: int, d: int) -> int {
    if v >= 0 {
        (v + d / 2) / d
    } else {
        -((-v + d / 2) / d)
    }
}

/// An integer in decimal, with a leading minus sign when negative.
pub open spec fn integer_text(v: int) -> Seq<char> {
    sign_text(v) + decimal(abs(v))
}

/// `q / 100` written with two decimals.
pub open spec fn hundredths_text(q: int) -> Seq<char> {
    sign_text(q) + decimal(abs(q) / 100) + seq!['.'] + padded(abs(q) % 100, 2)
}

/// `q / 10` written with one decimal.
pub open spec fn tenths_text(q: int) -> Seq<char> {
    sign_text(q) + decimal(abs(q) / 10) + seq!['.'] + padded(abs(q) % 10, 1)
}

/// A millimetre length in metres with exactly two decimals and the unit: `2.26m`.
pub open spec fn metres_2dp_text(mm: int) -> Seq<char> {
    hundredths_text(round_div(mm, 10)) + seq!['m']
}

/// A square-millimetre area in square metres with one decimal and the unit: `5.3 m²`.
pub open spec fn area_text(mm2: int) -> Seq<char> {
    tenths_text(round_div(mm2, 100_000)) + seq![' ', 'm', '²']
}

/// The decimals of a millimetre remainder `r < 1000` as a fraction of a metre,
/// without trailing zeros, and without the point when there are none.
pub open spec fn metre_fraction_text(r: nat) -> Seq<char> {
    if r == 0 {
        Seq::empty()
    } else if r % 100 == 0 {
        seq!['.'] + padded(r / 100, 1)
    } else if r % 10 == 0 {
        seq!['.'] + padded(r / 10, 2)
    } else {
        seq!['.'] + padded(r, 3)
    }
}

/// A millimetre length in metres in its shortest exact form: `2`, `2.5`, `2.26`.
pub open spec fn metres_text(mm: int) -> Seq<char> {
    sign_text(mm) + decimal(abs(mm) / 1000) + metre_fraction_text(abs(mm) % 1000)
}

fn digit_str(d: u64) -> (r: &'static str)
    requires
        d < 10,
    ensures
        r@ == seq![digit_char(d as int)],
{
    proof {
        reveal_strlit("0");
        reveal_strlit("1");
        reveal_strlit("2");
        reveal_strlit("3");
        reveal_strlit("4");
        reveal_strlit("5");
        reveal_strlit("6");
        reveal_strlit("7");
        reveal_strlit("8");
        reveal_strlit("9");
    }
    if d == 0 {
        "0"
    } else if d == 1 {
        "1"
    } else if d == 2 {
        "2"
    } else if d == 3 {
        "3"
    } else if d == 4 {
        "4"
    } else if d == 5 {
        "5"
    } else if d == 6 {
        "6"
    } else if d == 7 {
        "7"
    } else if d == 8 {
        "8"
    } else {
        "9"
    }
}

fn append_decimal(s: &mut String, n: u64)
    ensures
        final(s)@ == old(s)@ + decimal(n as nat),
    decreases n,
{
    if n >= 10 {
        append_decimal(s, n / 10);
    }
    s.append(digit_str(n % 10));
    assert(s@ =~= old(s)@ + decimal(n as nat));
}

fn append_padded(s: &mut String, n: u64, places: u64)
    ensures
        final(s)@ == old(s)@ + padded(n as nat, places as nat),
    decreases places,
{
    if places > 0 {
        append_padded(s, n / 10, places - 1);
        s.append(digit_str(n % 10));
        assert(s@ =~= old(s)@ + padded(n as nat, places as nat));
    } else {
        assert(s@ =~= old(s)@ + padded(n as nat, places as nat));
    }
}

fn append_sign(s: &mut String, v: i64)
    ensures
        final(s)@ == old(s)@ + sign_text(v as int),
{
    if v < 0 {
        proof {
            reveal_strlit("-");
        }
        s.append("-");
    } else {
        assert(s@ =~= old(s)@ + sign_text(v as int));
    }
}

fn magnitude(v: i64) -> (r: u64)
    requires
        -TEXT_LIMIT <= v <= TEXT_LIMIT,
    ensures
        r as int == abs(v as int),
{
    if v < 0 {
        (-v) as u64
    } else {
        v as u64
    }
}

fn nearest(v: i64, d: i64) -> (r: i64)
    requires
        -TEXT_LIMIT <= v <= TEXT_LIMIT,
        2 <= d <= 1_000_000,
    ensures
        r as int == round_div(v as int, d as int),
        -TEXT_LIMIT <= r <= TEXT_LIMIT,
{
    let h = d / 2;
    if v >= 0 {
        let n = v + h;
        assert(0 <= n / d <= TEXT_LIMIT) by (nonlinear_arith)
            requires
                0 <= n <= TEXT_LIMIT + 500_000,
                d >= 2,
        ;
        n / d
    } else {
        let n = -v + h;
        assert(0 <= n / d <= TEXT_LIMIT) by (nonlinear_arith)
            requires
                0 <= n <= TEXT_LIMIT + 500_000,
                d >= 2,
        ;
        -(n / d)
    }
}

/// Text of an integer: `150`, `-3`.
pub fn integer_string(v: i64) -> (r: String)
    requires
        -TEXT_LIMIT <= v <= TEXT_LIMIT,
    ensures
        r@ == integer_text(v as int),
{
    let mut s = String::new();
    append_sign(&mut s, v);
    append_decimal(&mut s, magnitude(v));
    assert(s@ =~= integer_text(v as int));
    s
}

/// Text of a millimetre length in metres with two decimals: `2.26m`.
pub fn metres_2dp_string(mm: i64) -> (r: String)
    requires
        -TEXT_LIMIT <= mm <= TEXT_LIMIT,
    ensures
        r@ == metres_2dp_text(mm as int),
{
    let q = nearest(mm, 10);
    let m = magnitude(q);
    let mut s = String::new();
    append_sign(&mut s, q);
    append_decimal(&mut s, m / 100);
    proof {
        reveal_strlit(".");
        reveal_strlit("m");
    }
    s.append(".");
    append_padded(&mut s, m % 100, 2);
    s.append("m");
    assert(s@ =~= metres_2dp_text(mm as int));
    s
}

/// Text of a square-millimetre area in square metres with one decimal: `5.3 m²`.
pub fn area_string(mm2: i64) -> (r: String)
    requires
        -TEXT_LIMIT <= mm2 <= TEXT_LIMIT,
    ensures
        r@ == area_text(mm2 as int),
{
    let q = nearest(mm2, 100_000);
    let m = magnitude(q);
    let mut s = String::new();
    append_sign(&mut s, q);
    append_decimal(&mut s, m / 10);
    proof {
        reveal_strlit(".");
        reveal_strlit(" m²");
    }
    s.append(".");
    append_padded(&mut s, m % 10, 1);
    s.append(" m²");
    assert(s@ =~= area_text(mm2 as int));
    s
}

/// Text of a millimetre length in metres, shortest exact form: `2`, `2.26`.
pub fn metres_string(mm: i64) -> (r: String)
    requires
        -TEXT_LIMIT <= mm <= TEXT_LIMIT,
    ensures
        r@ == metres_text(mm as int),
{
    let m = magnitude(mm);
    let mut s = String::new();
    append_sign(&mut s, mm);
    append_decimal(&mut s, m / 1000);
    let r = m % 1000;
    proof {
        reveal_strlit(".");
    }
    if r == 0 {
    } else if r % 100 == 0 {
        s.append(".");
        append_padded(&mut s, r / 100, 1);
    } else if r % 10 == 0 {
        s.append(".");
        append_padded(&mut s, r / 10, 2);
    } else {
        s.append(".");
        append_padded(&mut s, r, 3);
    }
    assert(s@ =~= metres_text(mm as int));
    s
}

} // verus!
