//! Decimal and hexadecimal numerals.

use crate::text::to_chars;
use vstd::prelude::*;

verus! {

/// The character of a digit, `0` to `9` and then `a` to `f`.
pub open spec fn digit_char(digit: nat) -> char {
    if digit < 10 {
        (48 + digit) as char
    } else {
        (87 + digit) as char
    }
}

/// A number in decimal, without leading zeroes.
pub open spec fn decimal(number: nat) -> Seq<char>
    decreases number,
{
    if number < 10 {
        seq![digit_char(number)]
    } else {
        decimal(number / 10).push(digit_char(number % 10))
    }
}

/// An integer in decimal, with a sign where it is negative.
pub open spec fn signed_decimal(number: int) -> Seq<char> {
    if number < 0 {
        seq!['-'] + decimal((-number) as nat)
    } else {
        decimal(number as nat)
    }
}

/// The lowest `width` hexadecimal digits of a number.
pub open spec fn hex_digits(number: nat, width: nat) -> Seq<char>
    decreases width,
{
    if width == 0 {
        seq![]
    } else {
        hex_digits(number / 16, (width - 1) as nat).push(digit_char(number % 16))
    }
}

/// A number in hexadecimal, without leading zeroes.
pub open spec fn hexadecimal(number: nat) -> Seq<char>
    decreases number,
{
    if number < 16 {
        seq![digit_char(number)]
    } else {
        hexadecimal(number / 16).push(digit_char(number % 16))
    }
}

fn digit_to_char(digit: u8) -> (c: char)
    requires
        digit < 16,
    ensures
        c == digit_char(digit as nat),
{
    if digit < 10 {
        (48 + digit) as char
    } else {
        (87 + digit) as char
    }
}

/// Prints an unsigned number in decimal.
pub fn print_u64(number: u64) -> (text: String)
    ensures
        text@ == decimal(number as nat),
    decreases number,
{
    if number < 10 {
        let mut text = String::new();
        text.push(digit_to_char(number as u8));
        assert(text@ =~= decimal(number as nat));
        text
    } else {
        let mut text = print_u64(number / 10);
        text.push(digit_to_char((number % 10) as u8));
        text
    }
}

/// Prints a signed number in decimal.
pub fn print_i64(number: i64) -> (text: String)
    ensures
        text@ == signed_decimal(number as int),
{
    if number >= 0 {
        print_u64(number as u64)
    } else {
        let magnitude: u64 = if number == i64::MIN {
            0x8000_0000_0000_0000
        } else {
            (-number) as u64
        };
        let mut text = String::new();
        text.push('-');
        let digits = print_u64(magnitude);
        text.append(&digits);
        assert(text@ =~= signed_decimal(number as int));
        text
    }
}

/// Prints the lowest `width` hexadecimal digits of a number.
pub fn print_hex_digits(number: u64, width: usize) -> (text: String)
    ensures
        text@ == hex_digits(number as nat, width as nat),
    decreases width,
{
    if width == 0 {
        String::new()
    } else {
        let mut text = print_hex_digits(number / 16, width - 1);
        text.push(digit_to_char((number % 16) as u8));
        text
    }
}

/// Prints a number in hexadecimal.
pub fn print_hex(number: u64) -> (text: String)
    ensures
        text@ == hexadecimal(number as nat),
    decreases number,
{
    if number < 16 {
        let mut text = String::new();
        text.push(digit_to_char(number as u8));
        assert(text@ =~= hexadecimal(number as nat));
        text
    } else {
        let mut text = print_hex(number / 16);
        text.push(digit_to_char((number % 16) as u8));
        text
    }
}

/// Why a text is no number.
#[derive(Debug, Clone, Copy, PartialEq, Eq, Structural)]
pub enum NumberError {
    Empty,
    InvalidDigit,
    TooLarge,
    TooSmall,
}

impl NumberError {
    pub open spec fn message_text(self) -> Seq<char> {
        match self {
            NumberError::Empty => "cannot parse integer from empty string"@,
            NumberError::InvalidDigit => "invalid digit found in string"@,
            NumberError::TooLarge => "number too large to fit in target type"@,
            NumberError::TooSmall => "number too small to fit in target type"@,
        }
    }

    /// The sentence that names the error.
    pub fn message(self) -> (text: &'static str)
        ensures
            text@ == self.message_text(),
    {
        match self {
            NumberError::Empty => "cannot parse integer from empty string",
            NumberError::InvalidDigit => "invalid digit found in string",
            NumberError::TooLarge => "number too large to fit in target type",
            NumberError::TooSmall => "number too small to fit in target type",
        }
    }
}

/// Whether a character is one of `0` to `9`.
pub open spec fn is_digit(c: char) -> bool {
    48 <= c as u32 <= 57
}

/// Whether a character is a decimal digit.
pub fn digit(c: char) -> (result: bool)
    ensures
        result == is_digit(c),
{
    let code: u32 = c as u32;
    48 <= code && code <= 57
}

/// Reads digits from left to right, up to the first character that is no digit
/// or that takes the number over `limit`.
pub open spec fn scan_digits(text: Seq<char>, limit: nat) -> Result<nat, NumberError>
    decreases text.len(),
{
    if text.len() == 0 {
        Ok(0)
    } else {
        match scan_digits(text.drop_last(), limit) {
            Err(error) => Err(error),
            Ok(value) => {
                let digit = text.last() as u32 - 48;
                if !is_digit(text.last()) {
                    Err(NumberError::InvalidDigit)
                } else if value * 10 + digit > limit {
                    Err(NumberError::TooLarge)
                } else {
                    Ok((value * 10 + digit) as nat)
                }
            },
        }
    }
}

/// An unsigned number up to `limit`, with an optional plus sign.
pub open spec fn unsigned_value(text: Seq<char>, limit: nat) -> Result<nat, NumberError> {
    if text.len() == 0 {
        Err(NumberError::Empty)
    } else if text.len() == 1 && (text[0] == '+' || text[0] == '-') {
        Err(NumberError::InvalidDigit)
    } else if text[0] == '+' {
        scan_digits(text.skip(1), limit)
    } else {
        scan_digits(text, limit)
    }
}

/// A 64-bit signed number, with an optional sign.
pub open spec fn signed_value(text: Seq<char>) -> Result<int, NumberError> {
    if text.len() > 1 && text[0] == '-' {
        match scan_digits(text.skip(1), 0x8000_0000_0000_0000) {
            Ok(magnitude) => Ok(-(magnitude as int)),
            Err(NumberError::TooLarge) => Err(NumberError::TooSmall),
            Err(error) => Err(error),
        }
    } else {
        match unsigned_value(text, 0x7fff_ffff_ffff_ffff) {
            Ok(value) => Ok(value as int),
            Err(error) => Err(error),
        }
    }
}

proof fn lemma_scan_stops(text: Seq<char>, i: int, limit: nat)
    requires
        0 <= i <= text.len(),
        scan_digits(text.take(i), limit) is Err,
    ensures
        scan_digits(text, limit) == scan_digits(text.take(i), limit),
    decreases text.len(),
{
    if i == text.len() {
        assert(text.take(i) =~= text);
    } else {
        assert(text.drop_last().take(i) =~= text.take(i));
        lemma_scan_stops(text.drop_last(), i, limit);
    }
}

fn scan(chars: &[char], start: usize, limit: u64) -> (result: Result<u64, NumberError>)
    requires
        start <= chars@.len(),
    ensures
        match (result, scan_digits(chars@.skip(start as int), limit as nat)) {
            (Ok(value), Ok(expected)) => value == expected,
            (Err(error), Err(expected)) => error == expected,
            _ => false,
        },
{
    let ghost digits = chars@.skip(start as int);
    let mut value: u64 = 0;
    let mut i: usize = start;
    assert(digits.take(0) =~= seq![]);
    while i < chars.len()
        invariant
            start <= i <= chars@.len(),
            digits == chars@.skip(start as int),
            scan_digits(
                digits.take(i - start),
                limit as nat,
            ) == Ok::<nat, NumberError>(value as nat),
        decreases chars.len() - i,
    {
        let ghost longer = digits.take(i - start + 1);
        assert(longer.drop_last() =~= digits.take(i - start));
        assert(longer.last() == chars@[i as int]);
        if !digit(chars[i]) {
            proof {
                lemma_scan_stops(digits, i - start + 1, limit as nat);
            }
            return Err(NumberError::InvalidDigit);
        }
        let next: u64 = (chars[i] as u32 - 48) as u64;
        if value > limit / 10 || (value == limit / 10 && next > limit % 10) {
            proof {
                lemma_scan_stops(digits, i - start + 1, limit as nat);
            }
            return Err(NumberError::TooLarge);
        }
        value = value * 10 + next;
        i += 1;
    }
    assert(digits.take(i - start) =~= digits);
    Ok(value)
}

/// Reads an unsigned number up to `limit`.
pub fn parse_unsigned(text: &str, limit: u64) -> (result: Result<u64, NumberError>)
    ensures
        match (result, unsigned_value(text@, limit as nat)) {
            (Ok(value), Ok(expected)) => value == expected,
            (Err(error), Err(expected)) => error == expected,
            _ => false,
        },
{
    let chars = to_chars(text);
    assert(chars@.skip(0) =~= chars@);
    if chars.len() == 0 {
        Err(NumberError::Empty)
    } else if chars.len() == 1 && (chars[0] == '+' || chars[0] == '-') {
        Err(NumberError::InvalidDigit)
    } else if chars[0] == '+' {
        scan(&chars, 1, limit)
    } else {
        scan(&chars, 0, limit)
    }
}

/// Reads a 64-bit signed number.
pub fn parse_i64(text: &str) -> (result: Result<i64, NumberError>)
    ensures
        match (result, signed_value(text@)) {
            (Ok(value), Ok(expected)) => value == expected,
            (Err(error), Err(expected)) => error == expected,
            _ => false,
        },
{
    let chars = to_chars(text);
    if chars.len() > 1 && chars[0] == '-' {
        match scan(&chars, 1, 0x8000_0000_0000_0000) {
            Ok(magnitude) => {
                if magnitude == 0x8000_0000_0000_0000 {
                    Ok(i64::MIN)
                } else {
                    assert(magnitude < 0x8000_0000_0000_0000) by {
                        lemma_scan_bound(chars@.skip(1), 0x8000_0000_0000_0000);
                    }
                    Ok(-(magnitude as i64))
                }
            },
            Err(NumberError::TooLarge) => Err(NumberError::TooSmall),
            Err(error) => Err(error),
        }
    } else {
        match parse_unsigned(text, 0x7fff_ffff_ffff_ffff) {
            Ok(value) => {
                assert(value <= 0x7fff_ffff_ffff_ffff) by {
                    lemma_scan_bound(text@, 0x7fff_ffff_ffff_ffff);
                    lemma_scan_bound(text@.skip(1), 0x7fff_ffff_ffff_ffff);
                }
                Ok(value as i64)
            },
            Err(error) => Err(error),
        }
    }
}

pub proof fn lemma_scan_bound(text: Seq<char>, limit: nat)
    ensures
        scan_digits(text, limit) matches Ok(value) ==> value <= limit,
    decreases text.len(),
{
    if text.len() > 0 {
        lemma_scan_bound(text.drop_last(), limit);
    }
}

/// A number is read back from its decimal digits, and every digit is one of
/// `0` to `9`.
pub proof fn decimal_reads_back(number: nat, limit: nat)
    requires
        number <= limit,
    ensures
        scan_digits(decimal(number), limit) == Ok::<nat, NumberError>(number),
        decimal(number).len() > 0,
        forall|i: int| 0 <= i < decimal(number).len() ==> is_digit(#[trigger] decimal(number)[i]),
        decimal(number)[0] == '0' ==> number == 0,
        number == 0 ==> decimal(number).len() == 1,
    decreases number,
{
    let text = decimal(number);
    if number < 10 {
        assert(text.drop_last() =~= seq![]);
        reveal_with_fuel(scan_digits, 2);
    } else {
        decimal_reads_back(number / 10, limit);
        assert(text.drop_last() =~= decimal(number / 10));
    }
}

/// A signed number is read back from its decimal numeral.
pub proof fn signed_decimal_reads_back(number: int)
    requires
        i64::MIN <= number <= i64::MAX,
    ensures
        signed_value(signed_decimal(number)) == Ok::<int, NumberError>(number),
{
    if number < 0 {
        let magnitude = (-number) as nat;
        decimal_reads_back(magnitude, 0x8000_0000_0000_0000);
        assert(signed_decimal(number).skip(1) =~= decimal(magnitude));
    } else {
        decimal_reads_back(number as nat, 0x7fff_ffff_ffff_ffff);
        assert(is_digit(decimal(number as nat)[0]));
    }
}

} // verus!
