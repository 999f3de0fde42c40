//! Attribute values as text: unsigned decimal numbers and truth values.

use vstd::prelude::*;
use vstd::string::{StringExecFns, StrSliceExecFns};

verus! {

/// The character of a decimal digit.
pub open spec fn digit_char(digit: nat) -> char {
    if digit == 0 {
        '0'
    } else if digit == 1 {
        '1'
    } else if digit == 2 {
        '2'
    } else if digit == 3 {
        '3'
    } else if digit == 4 {
        '4'
    } else if digit == 5 {
        '5'
    } else if digit == 6 {
        '6'
    } else if digit == 7 {
        '7'
    } else if digit == 8 {
        '8'
    } else {
        '9'
    }
}

/// The digit that a character stands for, if it is a decimal digit.
pub open spec fn digit_value(c: char) -> Option<nat> {
    if c == '0' {
        Some(0)
    } else if c == '1' {
        Some(1)
    } else if c == '2' {
        Some(2)
    } else if c == '3' {
        Some(3)
    } else if c == '4' {
        Some(4)
    } else if c == '5' {
        Some(5)
    } else if c == '6' {
        Some(6)
    } else if c == '7' {
        Some(7)
    } else if c == '8' {
        Some(8)
    } else if c == '9' {
        Some(9)
    } else {
        None
    }
}

/// The decimal notation of a number, without leading zeros.
pub open spec fn decimal_text(n: nat) -> Seq<char>
    decreases n,
{
    if n < 10 {
        seq![digit_char(n)]
    } else {
        decimal_text(n / 10).push(digit_char(n % 10))
    }
}

/// The number that a non-empty run of decimal digits denotes.
pub open spec fn digits_value(digits: Seq<char>) -> Option<nat>
    decreases digits.len(),
{
    if digits.len() == 0 {
        None
    } else if digits.len() == 1 {
        digit_value(digits[0])
    } else {
        match (digits_value(digits.drop_last()), digit_value(digits.last())) {
            (Some(high), Some(low)) => Some(10 * high + low),
            _ => None,
        }
    }
}

/// The number that a text denotes: decimal digits, which a plus sign may
/// precede.
pub open spec fn number_value(text: Seq<char>) -> Option<nat> {
    if text.len() > 0 && text[0] == '+' {
        digits_value(text.drop_first())
    } else {
        digits_value(text)
    }
}

/// The number that a text denotes, where it is at most `max`.
pub open spec fn number_up_to(text: Seq<char>, max: nat) -> Option<nat> {
    match number_value(text) {
        Some(n) => if n <= max {
            Some(n)
        } else {
            None
        },
        None => None,
    }
}

/// The truth value that a text denotes: `true`, `false`, `1` or `0`.
pub open spec fn bool_value(text: Seq<char>) -> Option<bool> {
    if text == "true"@ || text == "1"@ {
        Some(true)
    } else if text == "false"@ || text == "0"@ {
        Some(false)
    } else {
        None
    }
}

/// The notation of a truth value.
pub open spec fn bool_text(value: bool) -> Seq<char> {
    if value {
        "true"@
    } else {
        "false"@
    }
}

/// The decimal notation of a number denotes that number.
pub proof fn lemma_decimal_round_trip(n: nat)
    ensures
        decimal_text(n).len() >= 1,
        digits_value(decimal_text(n)) == Some(n),
        decimal_text(n)[0] != '+',
        number_value(decimal_text(n)) == Some(n),
    decreases n,
{
    if n >= 10 {
        lemma_decimal_round_trip(n / 10);
        let text = decimal_text(n);
        assert(text.drop_last() =~= decimal_text(n / 10));
        assert(text.last() == digit_char(n % 10));
        assert(text[0] == decimal_text(n / 10)[0]);
    }
}

/// The notation of a truth value denotes that value.
pub proof fn lemma_bool_round_trip(value: bool)
    ensures
        bool_value(bool_text(value)) == Some(value),
{
    reveal_strlit("true");
    reveal_strlit("false");
    reveal_strlit("1");
    reveal_strlit("0");
    assert("true"@.len() == 4);
    assert("false"@.len() == 5);
    assert("1"@.len() == 1);
}

/// A run of digits that holds another character denotes no number.
pub proof fn lemma_digits_all_decimal(digits: Seq<char>, at: int)
    requires
        0 <= at < digits.len(),
        digit_value(digits[at]) is None,
    ensures
        digits_value(digits) is None,
    decreases digits.len(),
{
    if digits.len() > 1 && at < digits.len() - 1 {
        lemma_digits_all_decimal(digits.drop_last(), at);
    }
}

/// A run of digits denotes at least what each of its beginnings denotes.
pub proof fn lemma_digits_monotonic(digits: Seq<char>, upto: int)
    requires
        1 <= upto <= digits.len(),
        digits_value(digits) is Some,
    ensures
        digits_value(digits.take(upto)) is Some,
        digits_value(digits.take(upto))->Some_0 <= digits_value(digits)->Some_0,
    decreases digits.len(),
{
    if upto == digits.len() {
        assert(digits.take(upto) =~= digits);
    } else {
        assert(digits.drop_last().take(upto) =~= digits.take(upto));
        lemma_digits_monotonic(digits.drop_last(), upto);
    }
}

/// The digit that a character stands for.
pub fn digit_of(c: char) -> (digit: Option<u64>)
    ensures
        match digit_value(c) {
            Some(value) => digit == Some(value as u64),
            None => digit is None,
        },
{
    if c == '0' {
        Some(0)
    } else if c == '1' {
        Some(1)
    } else if c == '2' {
        Some(2)
    } else if c == '3' {
        Some(3)
    } else if c == '4' {
        Some(4)
    } else if c == '5' {
        Some(5)
    } else if c == '6' {
        Some(6)
    } else if c == '7' {
        Some(7)
    } else if c == '8' {
        Some(8)
    } else if c == '9' {
        Some(9)
    } else {
        None
    }
}

/// Reads an unsigned decimal number that is at most `max`.
pub fn parse_number(text: &str, max: u64) -> (number: Option<u64>)
    ensures
        match number_up_to(text@, max as nat) {
            Some(n) => number == Some(n as u64),
            None => number is None,
        },
{
    let len = text.unicode_len();
    if len == 0 {
        return None;
    }
    let start: usize = if text.get_char(0) == '+' {
        1
    } else {
        0
    };
    if start == len {
        assert(text@.drop_first().len() == 0);
        return None;
    }
    let ghost digits = if start == 1 {
        text@.drop_first()
    } else {
        text@
    };
    assert(number_value(text@) == digits_value(digits));
    let mut value: u64 = 0;
    let mut i: usize = start;
    while i < len
        invariant
            start <= i <= len,
            start <= 1,
            len == text@.len(),
            digits.len() == len - start,
            number_value(text@) == digits_value(digits),
            forall|j: int| 0 <= j < digits.len() ==> digits[j] == text@[j + start],
            value <= max,
            i > start ==> digits_value(digits.take(i - start)) == Some(value as nat),
            i == start ==> value == 0,
        decreases len - i,
    {
        let c = text.get_char(i);
        assert(c == digits[i - start]);
        let digit = match digit_of(c) {
            Some(digit) => digit,
            None => {
                proof {
                    lemma_digits_all_decimal(digits, i - start);
                }
                return None;
            },
        };
        let ghost upto = digits.take(i - start + 1);
        assert(upto.last() == c);
        assert(upto.drop_last() =~= digits.take(i - start));
        assert(digits_value(upto) == Some((10 * value + digit) as nat));
        if digit > max || value > (max - digit) / 10 {
            proof {
                assert(10 * value + digit > max);
                if digits_value(digits) is Some {
                    lemma_digits_monotonic(digits, i - start + 1);
                }
            }
            return None;
        }
        value = value * 10 + digit;
        i += 1;
    }
    assert(digits.take(i - start) =~= digits);
    Some(value)
}

/// The decimal digit `digit` as text.
fn digit_text(digit: u64) -> (text: &'static str)
    requires
        digit < 10,
    ensures
        text@ == seq![digit_char(digit as nat)],
{
    proof {
        reveal_strlit("0");
        reveal_strlit("1");
        reveal_strlit("2");
        reveal_strlit("3");
        reveal_strlit("4");
        reveal_strlit("5");
        reveal_strlit("6");
        reveal_strlit("7");
        reveal_strlit("8");
        reveal_strlit("9");
    }
    let text = if digit == 0 {
        "0"
    } else if digit == 1 {
        "1"
    } else if digit == 2 {
        "2"
    } else if digit == 3 {
        "3"
    } else if digit == 4 {
        "4"
    } else if digit == 5 {
        "5"
    } else if digit == 6 {
        "6"
    } else if digit == 7 {
        "7"
    } else if digit == 8 {
        "8"
    } else {
        "9"
    };
    assert(text@ =~= seq![digit_char(digit as nat)]);
    text
}

/// Writes a number in decimal notation.
pub fn format_number(n: u64) -> (text: String)
    ensures
        text@ == decimal_text(n as nat),
    decreases n,
{
    if n < 10 {
        digit_text(n).to_owned()
    } else {
        let mut text = format_number(n / 10);
        text.append(digit_text(n % 10));
        assert(text@ =~= decimal_text((n / 10) as nat).push(digit_char((n % 10) as nat)));
        text
    }
}

/// Whether a string holds exactly the given text.
pub fn text_is(value: &str, expected: &str) -> (same: bool)
    ensures
        same == (value@ == expected@),
{
    value.to_owned() == expected.to_owned()
}

/// Reads a truth value.
pub fn parse_bool(text: &str) -> (value: Option<bool>)
    ensures
        value == bool_value(text@),
{
    if text_is(text, "true") || text_is(text, "1") {
        Some(true)
    } else if text_is(text, "false") || text_is(text, "0") {
        Some(false)
    } else {
        None
    }
}

/// Writes a truth value.
pub fn format_bool(value: bool) -> (text: String)
    ensures
        text@ == bool_text(value),
{
    if value {
        "true".to_owned()
    } else {
        "false".to_owned()
    }
}

} // verus!
