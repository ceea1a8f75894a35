//! The per-file size report: the compression ratio as a percentage with two
//! decimal places, computed and rendered in integer arithmetic.
//!
//! The ratio `100 * compressed / original` is held in hundredths of a
//! percent, rounded to the nearest hundredth with halves rounded up, and
//! rendered as `<whole>.<two fraction digits>`.

use vstd::prelude::*;
use vstd::string::*;

verus! {

/// The compression ratio of `compressed` against `original`, in hundredths
/// of a percent, rounded to the nearest hundredth with halves rounded up.
pub open spec fn ratio_centi_percent_spec(compressed: int, original: int) -> int {
    (10000 * compressed + original / 2) / original
}

/// Computes the compression ratio in hundredths of a percent.
pub fn ratio_centi_percent(compressed: usize, original: usize) -> (r: u128)
    requires
        original > 0,
    ensures
        r == ratio_centi_percent_spec(compressed as int, original as int),
{
    (10000u128 * (compressed as u128) + (original as u128) / 2) / (original as u128)
}

/// The decimal digit character for `d`.
pub open spec fn digit_char(d: int) -> char {
    if d == 0 {
        '0'
    } else if d == 1 {
        '1'
    } else if d == 2 {
        '2'
    } else if d == 3 {
        '3'
    } else if d == 4 {
        '4'
    } else if d == 5 {
        '5'
    } else if d == 6 {
        '6'
    } else if d == 7 {
        '7'
    } else if d == 8 {
        '8'
    } else {
        '9'
    }
}

fn digit_str(d: u128) -> (r: &'static str)
    requires
        d < 10,
    ensures
        r@ == seq![digit_char(d as int)],
{
    proof {
        reveal_strlit("0");
        reveal_strlit("1");
        reveal_strlit("2");
        reveal_strlit("3");
        reveal_strlit("4");
        reveal_strlit("5");
        reveal_strlit("6");
        reveal_strlit("7");
        reveal_strlit("8");
        reveal_strlit("9");
    }
    if d == 0 {
        "0"
    } else if d == 1 {
        "1"
    } else if d == 2 {
        "2"
    } else if d == 3 {
        "3"
    } else if d == 4 {
        "4"
    } else if d == 5 {
        "5"
    } else if d == 6 {
        "6"
    } else if d == 7 {
        "7"
    } else if d == 8 {
        "8"
    } else {
        "9"
    }
}

/// The decimal rendering of a non-negative number, most significant digit
/// first, with no leading zeros except for the number zero itself.
pub open spec fn decimal_of(n: int) -> Seq<char>
    decreases n,
{
    if n < 0 {
        Seq::empty()
    } else if n < 10 {
        seq![digit_char(n)]
    } else {
        decimal_of(n / 10).push(digit_char(n % 10))
    }
}

/// Renders a number in decimal.
pub fn decimal_string(n: u128) -> (r: String)
    ensures
        r@ == decimal_of(n as int),
    decreases n,
{
    if n < 10 {
        String::from_str(digit_str(n))
    } else {
        let q = decimal_string(n / 10);
        let r = q.concat(digit_str(n % 10));
        proof {
            assert(r@ =~= decimal_of(n as int));
        }
        r
    }
}

/// A ratio in hundredths of a percent rendered with two decimal places:
/// the whole percents, a dot, then the two fraction digits.
pub open spec fn centi_percent_rendering(v: int) -> Seq<char> {
    decimal_of(v / 100) + "."@ + seq![digit_char((v / 10) % 10), digit_char(v % 10)]
}

/// Renders a ratio held in hundredths of a percent with two decimal
/// places.
pub fn format_centi_percent(v: u128) -> (r: String)
    ensures
        r@ == centi_percent_rendering(v as int),
{
    let whole = decimal_string(v / 100);
    let with_dot = whole.concat(".");
    let with_tenths = with_dot.concat(digit_str((v / 10) % 10));
    let full = with_tenths.concat(digit_str(v % 10));
    proof {
        assert(full@ =~= centi_percent_rendering(v as int));
    }
    full
}

} // verus!
