//! What reading numbers makes of them.

use crate::numeral::decimal;
use crate::numeral::decimal_reads_back;
use crate::numeral::digit_char;
use crate::numeral::is_digit;
use crate::numeral::parse_i64;
use crate::numeral::parse_unsigned;
use crate::numeral::print_i64;
use crate::numeral::print_u64;
use crate::numeral::scan_digits;
use crate::numeral::signed_decimal_reads_back;
use crate::numeral::NumberError;
use vstd::prelude::*;

verus! {

proof fn lemma_too_large(number: nat, limit: nat)
    requires
        number > limit,
    ensures
        scan_digits(decimal(number), limit) == Err::<nat, NumberError>(NumberError::TooLarge),
    decreases number,
{
    let text = decimal(number);
    if number < 10 {
        assert(text.drop_last() =~= seq![]);
        assert(text.last() == digit_char(number));
        reveal_with_fuel(scan_digits, 2);
    } else {
        assert(text.drop_last() =~= decimal(number / 10));
        assert(text.last() == digit_char(number % 10));
        if number / 10 > limit {
            lemma_too_large(number / 10, limit);
        } else {
            decimal_reads_back(number / 10, limit);
        }
    }
}

proof fn lemma_no_digit(text: Seq<char>, limit: nat, k: int)
    requires
        0 <= k < text.len(),
        !is_digit(text[k]),
    ensures
        scan_digits(text, limit) is Err,
    decreases text.len(),
{
    if k < text.len() - 1 {
        lemma_no_digit(text.drop_last(), limit, k);
    }
}

/// A number that was printed is read back where it is within the limit, and refused as too
/// large where it is not.
pub proof fn numbers_are_read_within_their_limit(
    number: u64,
    limit: u64,
    printed: String,
    text: &str,
    result: Result<u64, NumberError>,
)
    requires
        call_ensures(print_u64, (number,), printed),
        text@ == printed@,
        call_ensures(parse_unsigned, (text, limit), result),
    ensures
        number <= limit ==> result == Ok::<u64, NumberError>(number),
        number > limit ==> result == Err::<u64, NumberError>(NumberError::TooLarge),
{
    decimal_reads_back(number as nat, number as nat);
    assert(is_digit(decimal(number as nat)[0]));
    if number <= limit {
        decimal_reads_back(number as nat, limit as nat);
    } else {
        lemma_too_large(number as nat, limit as nat);
    }
}

/// A signed number that was printed is read back.
pub proof fn signed_numbers_are_read_back(
    number: i64,
    printed: String,
    text: &str,
    result: Result<i64, NumberError>,
)
    requires
        call_ensures(print_i64, (number,), printed),
        text@ == printed@,
        call_ensures(parse_i64, (text,), result),
    ensures
        result == Ok::<i64, NumberError>(number),
{
    signed_decimal_reads_back(number as int);
}

/// A text without a digit, or with anything but digits behind its first character, is no
/// number.
pub proof fn other_texts_are_no_numbers(
    text: &str,
    limit: u64,
    k: int,
    result: Result<u64, NumberError>,
    signed: Result<i64, NumberError>,
)
    requires
        call_ensures(parse_unsigned, (text, limit), result),
        call_ensures(parse_i64, (text,), signed),
    ensures
        text@.len() == 0 ==> result is Err && signed is Err,
        0 < k < text@.len() && !is_digit(text@[k]) ==> result is Err && signed is Err,
        text@.len() > 0 && !is_digit(text@[0]) && text@[0] != '+' ==> result is Err,
{
    if 0 < k < text@.len() && !is_digit(text@[k]) {
        lemma_no_digit(text@, limit as nat, k);
        assert(text@.skip(1)[k - 1] == text@[k]);
        lemma_no_digit(text@.skip(1), limit as nat, k - 1);
        lemma_no_digit(text@, 0x7fff_ffff_ffff_ffff, k);
        lemma_no_digit(text@.skip(1), 0x7fff_ffff_ffff_ffff, k - 1);
        lemma_no_digit(text@.skip(1), 0x8000_0000_0000_0000, k - 1);
    }
    if text@.len() > 0 && !is_digit(text@[0]) && text@[0] != '+' {
        lemma_no_digit(text@, limit as nat, 0);
    }
}

} // verus!
