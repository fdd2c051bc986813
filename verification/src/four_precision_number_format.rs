//! Amounts as text with exactly four digits after the decimal point.

use vstd::prelude::*;

verus! {

/// The character of a decimal digit.
pub open spec fn digit(value: int) -> char {
    if value == 0 {
        '0'
    } else if value == 1 {
        '1'
    } else if value == 2 {
        '2'
    } else if value == 3 {
        '3'
    } else if value == 4 {
        '4'
    } else if value == 5 {
        '5'
    } else if value == 6 {
        '6'
    } else if value == 7 {
        '7'
    } else if value == 8 {
        '8'
    } else {
        '9'
    }
}

/// The decimal digits of `value`, most significant first, without leading
/// zeros; `0` for zero.
pub open spec fn decimal(value: nat) -> Seq<char>
    decreases value,
{
    if value < 10 {
        seq![digit(value as int)]
    } else {
        decimal(value / 10).push(digit((value % 10) as int))
    }
}

/// The four digits that stand for `value` ten-thousandths, with `value`
/// below ten thousand.
pub open spec fn fraction(value: nat) -> Seq<char> {
    seq![
        digit((value / 1000) as int),
        digit((value / 100 % 10) as int),
        digit((value / 10 % 10) as int),
        digit((value % 10) as int),
    ]
}

/// An amount of ten-thousandths as a decimal number: a minus sign if it is
/// negative, the whole units, a point, and four digits.
pub open spec fn four_decimals(amount: int) -> Seq<char> {
    let magnitude: nat = if amount < 0 {
        (-amount) as nat
    } else {
        amount as nat
    };
    let sign = if amount < 0 {
        seq!['-']
    } else {
        Seq::empty()
    };
    sign + decimal(magnitude / 10_000) + seq!['.'] + fraction(magnitude % 10_000)
}

/// The text of one decimal digit.
fn digit_text(value: u64) -> (text: &'static str)
    requires
        value < 10,
    ensures
        text@ == seq![digit(value as int)],
{
    proof {
        reveal_strlit("0");
        reveal_strlit("1");
        reveal_strlit("2");
        reveal_strlit("3");
        reveal_strlit("4");
        reveal_strlit("5");
        reveal_strlit("6");
        reveal_strlit("7");
        reveal_strlit("8");
        reveal_strlit("9");
    }
    if value == 0 {
        "0"
    } else if value == 1 {
        "1"
    } else if value == 2 {
        "2"
    } else if value == 3 {
        "3"
    } else if value == 4 {
        "4"
    } else if value == 5 {
        "5"
    } else if value == 6 {
        "6"
    } else if value == 7 {
        "7"
    } else if value == 8 {
        "8"
    } else {
        "9"
    }
}

/// Appends the decimal digits of `value` to `text`.
pub(crate) fn push_decimal(text: &mut String, value: u64)
    ensures
        final(text)@ == old(text)@ + decimal(value as nat),
    decreases value,
{
    if value >= 10 {
        push_decimal(text, value / 10);
    }
    text.append(digit_text(value % 10));
}

/// Writes an amount of ten-thousandths as a decimal number with exactly
/// four digits after the point.
pub fn serialize(number: &i64) -> (text: String)
    ensures
        text@ == four_decimals(*number as int),
{
    let mut text = String::new();
    let magnitude: u64 = if *number < 0 {
        proof {
            reveal_strlit("-");
        }
        text.append("-");
        (-(*number as i128)) as u64
    } else {
        *number as u64
    };
    assert(text@ =~= if *number < 0 {
        seq!['-']
    } else {
        Seq::empty()
    });
    push_decimal(&mut text, magnitude / 10_000);
    proof {
        reveal_strlit(".");
    }
    text.append(".");
    let rest: u64 = magnitude % 10_000;
    text.append(digit_text(rest / 1000));
    text.append(digit_text(rest / 100 % 10));
    text.append(digit_text(rest / 10 % 10));
    text.append(digit_text(rest % 10));
    text
}

} // verus!
