//! Decimal text for whole numbers and for fixed-point values.
//!
//! A fixed-point value is a whole number of thousandths. It is rendered with
//! one digit after the decimal point, rounded to the nearest tenth with ties
//! going to the even tenth. The sign is taken from the value before rounding,
//! so a small negative value renders as `-0.0`.

use vstd::prelude::*;

verus! {

/// The character for a single decimal digit.
pub open spec fn digit_char(digit: int) -> char {
    if digit == 0 {
        '0'
    } else if digit == 1 {
        '1'
    } else if digit == 2 {
        '2'
    } else if digit == 3 {
        '3'
    } else if digit == 4 {
        '4'
    } else if digit == 5 {
        '5'
    } else if digit == 6 {
        '6'
    } else if digit == 7 {
        '7'
    } else if digit == 8 {
        '8'
    } else {
        '9'
    }
}

/// Whether `c` is one of the ten decimal digits.
pub open spec fn is_digit(c: char) -> bool {
    '0' <= c <= '9'
}

/// The decimal digits of `n`, most significant first, without leading zeros;
/// zero is the single digit `0`.
pub open spec fn decimal_digits(n: nat) -> Seq<char>
    decreases n,
{
    if n < 10 {
        seq![digit_char(n as int)]
    } else {
        decimal_digits(n / 10).push(digit_char((n % 10) as int))
    }
}

/// The digit that a character stands for; zero for any other character.
pub open spec fn digit_value(c: char) -> nat {
    if c == '1' {
        1
    } else if c == '2' {
        2
    } else if c == '3' {
        3
    } else if c == '4' {
        4
    } else if c == '5' {
        5
    } else if c == '6' {
        6
    } else if c == '7' {
        7
    } else if c == '8' {
        8
    } else if c == '9' {
        9
    } else {
        0
    }
}

/// The number that a sequence of decimal digits denotes.
pub open spec fn decimal_value(digits: Seq<char>) -> nat
    decreases digits.len(),
{
    if digits.len() == 0 {
        0
    } else {
        decimal_value(digits.drop_last()) * 10 + digit_value(digits.last())
    }
}

/// The distance of `value` from zero.
pub open spec fn magnitude_of(value: int) -> nat {
    if value < 0 {
        (-value) as nat
    } else {
        value as nat
    }
}

/// The sign printed before a magnitude: a minus for a value below zero,
/// nothing otherwise.
pub open spec fn sign_of(value: int) -> Seq<char> {
    if value < 0 {
        "-"@
    } else {
        ""@
    }
}

/// The text of a whole number: its sign, then the digits of its magnitude.
pub open spec fn integer_text(value: int) -> Seq<char> {
    sign_of(value) + decimal_digits(magnitude_of(value))
}

/// A count of thousandths rounded to the nearest tenth; a value half way
/// between two tenths goes to the even one.
pub open spec fn rounded_tenths(thousandths: nat) -> nat {
    let below = thousandths / 100;
    let rest = thousandths % 100;
    if rest > 50 || (rest == 50 && below % 2 == 1) {
        below + 1
    } else {
        below
    }
}

/// The unsigned text of `thousandths` with one digit after the point.
pub open spec fn magnitude_text(thousandths: int) -> Seq<char> {
    let tenths = rounded_tenths(magnitude_of(thousandths));
    decimal_digits(tenths / 10) + "."@ + seq![digit_char((tenths % 10) as int)]
}

/// The signed text of `thousandths` with one digit after the point.
pub open spec fn one_decimal_text(thousandths: int) -> Seq<char> {
    sign_of(thousandths) + magnitude_text(thousandths)
}

/// The digits of a number are decimal digits, at least one of them, and the
/// first is a zero only for the number zero.
pub proof fn lemma_decimal_digits_shape(n: nat)
    ensures
        decimal_digits(n).len() >= 1,
        forall|i: int| 0 <= i < decimal_digits(n).len() ==> is_digit(#[trigger] decimal_digits(n)[i]),
        n > 0 ==> decimal_digits(n)[0] != '0',
    decreases n,
{
    if n >= 10 {
        lemma_decimal_digits_shape(n / 10);
    }
}

/// The digits of a number denote that number.
pub proof fn lemma_decimal_digits_denote(n: nat)
    ensures
        decimal_value(decimal_digits(n)) == n,
    decreases n,
{
    let digits = decimal_digits(n);
    if n < 10 {
        assert(digits.drop_last() =~= Seq::<char>::empty());
        assert(decimal_value(digits.drop_last()) == 0);
    } else {
        lemma_decimal_digits_denote(n / 10);
        assert(digits.drop_last() =~= decimal_digits(n / 10));
    }
}

/// Rounding moves a value by at most half a tenth, and a value half way
/// between two tenths goes to the even one.
pub proof fn lemma_rounded_tenths_nearest(thousandths: nat)
    ensures
        -50 <= rounded_tenths(thousandths) * 100 - thousandths <= 50,
        thousandths % 100 == 50 ==> rounded_tenths(thousandths) % 2 == 0,
        thousandths % 100 == 0 ==> rounded_tenths(thousandths) * 100 == thousandths,
{
}

/// An unsigned rendering is made of digits around a single decimal point,
/// which stands before the last digit; it never holds a sign.
pub proof fn lemma_magnitude_text_shape(thousandths: int)
    ensures
        ({
            let text = magnitude_text(thousandths);
            &&& text.len() >= 3
            &&& text[text.len() - 2] == '.'
            &&& forall|i: int|
                0 <= i < text.len() && i != text.len() - 2 ==> is_digit(#[trigger] text[i])
            &&& forall|i: int| 0 <= i < text.len() ==> #[trigger] text[i] != '-'
        }),
{
    let tenths = rounded_tenths(magnitude_of(thousandths));
    lemma_decimal_digits_shape(tenths / 10);
    reveal_strlit(".");
}

/// A signed rendering carries exactly one minus sign, in front, when the
/// value is below zero, and none otherwise: what follows the sign is the
/// unsigned rendering.
pub proof fn lemma_one_decimal_sign(thousandths: int)
    ensures
        thousandths >= 0 ==> one_decimal_text(thousandths) == magnitude_text(thousandths),
        thousandths < 0 ==> one_decimal_text(thousandths) == seq!['-'] + magnitude_text(
            thousandths,
        ),
        one_decimal_text(thousandths).len() >= 3,
        one_decimal_text(thousandths)[0] == '-' <==> thousandths < 0,
        forall|i: int|
            1 <= i < one_decimal_text(thousandths).len() ==> #[trigger] one_decimal_text(
                thousandths,
            )[i] != '-',
{
    lemma_magnitude_text_shape(thousandths);
    reveal_strlit("-");
    reveal_strlit("");
    if thousandths < 0 {
        assert("-"@ =~= seq!['-']);
    } else {
        assert(one_decimal_text(thousandths) =~= magnitude_text(thousandths));
    }
}

/// The one-character text of a decimal digit.
fn digit_text(digit: u64) -> (text: &'static str)
    requires
        digit < 10,
    ensures
        text@ == seq![digit_char(digit as int)],
{
    proof {
        reveal_strlit("0");
        reveal_strlit("1");
        reveal_strlit("2");
        reveal_strlit("3");
        reveal_strlit("4");
        reveal_strlit("5");
        reveal_strlit("6");
        reveal_strlit("7");
        reveal_strlit("8");
        reveal_strlit("9");
    }
    let text = if digit == 0 {
        "0"
    } else if digit == 1 {
        "1"
    } else if digit == 2 {
        "2"
    } else if digit == 3 {
        "3"
    } else if digit == 4 {
        "4"
    } else if digit == 5 {
        "5"
    } else if digit == 6 {
        "6"
    } else if digit == 7 {
        "7"
    } else if digit == 8 {
        "8"
    } else {
        "9"
    };
    assert(text@ =~= seq![digit_char(digit as int)]);
    text
}

/// Appends the decimal digits of `n` to `out`.
fn push_decimal(out: &mut String, n: u64)
    ensures
        final(out)@ == old(out)@ + decimal_digits(n as nat),
    decreases n,
{
    if n >= 10 {
        push_decimal(out, n / 10);
    }
    out.append(digit_text(n % 10));
    assert(out@ =~= old(out)@ + decimal_digits(n as nat));
}

/// The distance of `value` from zero.
pub fn magnitude(value: i64) -> (distance: u64)
    ensures
        distance == magnitude_of(value as int),
{
    if value < 0 {
        (-(value + 1)) as u64 + 1
    } else {
        value as u64
    }
}

/// The sign printed before the magnitude of `value`: `-` below zero, the
/// empty text otherwise.
pub fn sign_prefix(value: i64) -> (sign: &'static str)
    ensures
        sign@ == sign_of(value as int),
{
    if value < 0 {
        "-"
    } else {
        ""
    }
}

/// Renders a whole number in decimal.
pub fn format_integer(value: i64) -> (text: String)
    ensures
        text@ == integer_text(value as int),
{
    let mut out = String::from_str(sign_prefix(value));
    push_decimal(&mut out, magnitude(value));
    out
}

/// Renders the magnitude of a count of thousandths with one digit after the
/// decimal point, without a sign.
pub fn format_magnitude(thousandths: i64) -> (text: String)
    ensures
        text@ == magnitude_text(thousandths as int),
{
    let distance: u64 = magnitude(thousandths);
    let below: u64 = distance / 100;
    let rest: u64 = distance % 100;
    let tenths: u64 = if rest > 50 || (rest == 50 && below % 2 == 1) {
        below + 1
    } else {
        below
    };
    let mut out = String::new();
    push_decimal(&mut out, tenths / 10);
    out.append(".");
    out.append(digit_text(tenths % 10));
    assert(out@ =~= magnitude_text(thousandths as int));
    out
}

/// Renders a count of thousandths with one digit after the decimal point,
/// with a leading `-` when the value is below zero.
pub fn format_one_decimal(thousandths: i64) -> (text: String)
    ensures
        text@ == one_decimal_text(thousandths as int),
{
    let mut out = String::from_str(sign_prefix(thousandths));
    let unsigned = format_magnitude(thousandths);
    out.append(unsigned.as_str());
    out
}

} // verus!
