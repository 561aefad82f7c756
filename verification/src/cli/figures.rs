//! Sizes and dates as people read them.

use crate::numeral::decimal;
use crate::numeral::print_u64;
use crate::text::concat;
use crate::text::concat3;
use crate::text::to_chars;
use vstd::prelude::*;

verus! {

// ---------------------------------------------------------------------------
// Sizes
// ---------------------------------------------------------------------------

/// The step between numbers of that size of which 53 binary digits are kept.
pub open spec fn kept_step(number: nat) -> nat
    decreases number,
{
    if number < 0x20_0000_0000_0000 {
        1
    } else {
        2 * kept_step(number / 2)
    }
}

/// A number in steps, rounded to the nearest, and to the even one of two that are
/// equally near.
pub open spec fn rounded_steps(number: nat, step: nat) -> nat {
    let quotient = number / step;
    let rest = number % step;
    if 2 * rest > step || (2 * rest == step && quotient % 2 == 1) {
        quotient + 1
    } else {
        quotient
    }
}

/// A number of bytes with 53 binary digits kept.
pub open spec fn kept_bytes(bytes: u64) -> nat {
    rounded_steps(bytes as nat, kept_step(bytes as nat)) * kept_step(bytes as nat)
}

/// How many bytes a unit holds: each a thousand and twenty-four times the one
/// before, up to the fourth.
pub open spec fn unit_size(unit: int) -> nat {
    if unit <= 0 {
        1
    } else if unit == 1 {
        0x400
    } else if unit == 2 {
        0x10_0000
    } else if unit == 3 {
        0x4000_0000
    } else {
        0x100_0000_0000
    }
}

/// The largest unit of which there is at least one.
pub open spec fn unit_of(amount: nat) -> int {
    if amount >= unit_size(4) {
        4
    } else if amount >= unit_size(3) {
        3
    } else if amount >= unit_size(2) {
        2
    } else if amount >= unit_size(1) {
        1
    } else {
        0
    }
}

/// The name of a unit.
pub open spec fn unit_name(unit: int) -> Seq<char> {
    if unit <= 0 {
        " B"@
    } else if unit == 1 {
        " KB"@
    } else if unit == 2 {
        " MB"@
    } else if unit == 3 {
        " GB"@
    } else {
        " TB"@
    }
}

/// A number of tenths as a decimal fraction.
pub open spec fn tenths_text(tenths: nat) -> Seq<char> {
    decimal(tenths / 10) + "."@ + decimal(tenths % 10)
}

/// A size: whole bytes, or a larger unit with one decimal place.
pub open spec fn size_text(bytes: u64) -> Seq<char> {
    let amount = kept_bytes(bytes);
    let unit = unit_of(amount);
    if unit == 0 {
        decimal(bytes as nat) + unit_name(0)
    } else {
        tenths_text(rounded_steps(10 * amount, unit_size(unit))) + unit_name(unit)
    }
}

fn find_step(number: u64) -> (step: u64)
    ensures
        step == kept_step(number as nat),
        1 <= step < 0x1000,
        number < step * 0x20_0000_0000_0000,
{
    let mut rest: u64 = number;
    let mut step: u64 = 1;
    while rest >= 0x20_0000_0000_0000
        invariant
            1 <= step < 0x1000,
            step * kept_step(rest as nat) == kept_step(number as nat),
            rest * step <= number < (rest + 1) * step,
            number <= u64::MAX,
        decreases rest,
    {
        proof {
            let before = step as int;
            let half = (rest / 2) as int;
            assert(before * 0x20_0000_0000_0000 <= rest * before) by (nonlinear_arith)
                requires
                    rest >= 0x20_0000_0000_0000,
                    before >= 1,
            ;
            assert(before < 0x800) by (nonlinear_arith)
                requires
                    before * 0x20_0000_0000_0000 <= 0xffff_ffff_ffff_ffff,
            ;
            assert(half * (2 * before) <= rest * before) by (nonlinear_arith)
                requires
                    2 * half <= rest,
                    before >= 1,
            ;
            assert((rest + 1) * before <= (half + 1) * (2 * before)) by (nonlinear_arith)
                requires
                    rest + 1 <= 2 * half + 2,
                    before >= 1,
            ;
            assert(before * (2 * kept_step(half as nat)) == (2 * before) * kept_step(
                half as nat,
            )) by (nonlinear_arith);
        }
        rest = rest / 2;
        step = step * 2;
    }
    proof {
        assert((rest + 1) * step <= step * 0x20_0000_0000_0000) by (nonlinear_arith)
            requires
                rest + 1 <= 0x20_0000_0000_0000,
                step >= 1,
        ;
        assert(step * kept_step(rest as nat) == step) by (nonlinear_arith)
            requires
                kept_step(rest as nat) == 1,
        ;
    }
    step
}

fn round_steps(number: u128, step: u128) -> (steps: u128)
    requires
        0 < step <= 0x100_0000_0000,
        number <= 0xffff_ffff_ffff_ffff_ffff,
    ensures
        steps == rounded_steps(number as nat, step as nat),
        steps <= number / step + 1,
{
    let quotient = number / step;
    let rest = number % step;
    proof {
        assert(number / step <= number) by (nonlinear_arith)
            requires
                step >= 1,
        ;
    }
    if 2 * rest > step || (2 * rest == step && quotient % 2 == 1) {
        quotient + 1
    } else {
        quotient
    }
}

fn print_tenths(tenths: u64) -> (text: String)
    ensures
        text@ == tenths_text(tenths as nat),
{
    let whole = print_u64(tenths / 10);
    let part = print_u64(tenths % 10);
    concat3(&whole, ".", &part)
}

/// Prints a size.
pub fn format_bytes(bytes: u64) -> (text: String)
    ensures
        text@ == size_text(bytes),
{
    let step = find_step(bytes);
    let steps = round_steps(bytes as u128, step as u128);
    proof {
        assert(bytes as u128 / step as u128 <= 0x20_0000_0000_0000) by (nonlinear_arith)
            requires
                bytes < step * 0x20_0000_0000_0000,
                step >= 1,
        ;
        assert(steps * step <= 0x20_0000_0000_0001 * 0x1000) by (nonlinear_arith)
            requires
                0 <= steps <= 0x20_0000_0000_0001,
                1 <= step < 0x1000,
        ;
    }
    let amount: u128 = steps * (step as u128);
    let (unit, name, size): (u8, &'static str, u128) = if amount >= 0x100_0000_0000 {
        (4, " TB", 0x100_0000_0000)
    } else if amount >= 0x4000_0000 {
        (3, " GB", 0x4000_0000)
    } else if amount >= 0x10_0000 {
        (2, " MB", 0x10_0000)
    } else if amount >= 0x400 {
        (1, " KB", 0x400)
    } else {
        (0, " B", 1)
    };
    if unit == 0 {
        let digits = print_u64(bytes);
        return concat(&digits, name);
    }
    let tenths = round_steps(10 * amount, size);
    let digits = print_tenths(tenths as u64);
    concat(&digits, name)
}

// ---------------------------------------------------------------------------
// Dates
// ---------------------------------------------------------------------------

/// How many days lie before the first of January 1970, counted from the first of
/// January of the year 0.
pub const DAYS_BEFORE_1970: u64 = 719528;

/// Whether a year has a leap day.
pub open spec fn is_leap(year: nat) -> bool {
    year % 4 == 0 && (year % 100 != 0 || year % 400 == 0)
}

/// How many days a year has.
pub open spec fn year_days(year: nat) -> nat {
    if is_leap(year) {
        366
    } else {
        365
    }
}

/// How many days a month has, January being the first.
pub open spec fn month_days(year: nat, month: nat) -> nat {
    if month == 2 {
        if is_leap(year) {
            29
        } else {
            28
        }
    } else if month == 4 || month == 6 || month == 9 || month == 11 {
        30
    } else {
        31
    }
}

/// A day as a year and the number of days in it that are over, counted off from
/// the beginning of a year.
pub open spec fn year_of(days: nat, year: nat) -> (nat, nat)
    decreases days,
{
    if days < year_days(year) {
        (year, days)
    } else {
        year_of((days - year_days(year)) as nat, year + 1)
    }
}

/// A day of a year as a month and the number of days in it that are over, counted
/// off from the beginning of a month.
pub open spec fn month_of(days: nat, year: nat, month: nat) -> (nat, nat)
    decreases 12 - month,
{
    if month >= 12 || days < month_days(year, month) {
        (month, days)
    } else {
        month_of((days - month_days(year, month)) as nat, year, month + 1)
    }
}

/// A number with at least some digits.
pub open spec fn padded(number: nat, width: nat) -> Seq<char> {
    let digits = decimal(number);
    if digits.len() < width {
        Seq::new((width - digits.len()) as nat, |i: int| '0') + digits
    } else {
        digits
    }
}

/// The date of a day, counted from the first of January of the year 0.
pub open spec fn date_text(days: nat) -> Seq<char> {
    let (year, in_year) = year_of(days, 0);
    let (month, in_month) = month_of(in_year, year, 1);
    padded(year, 4) + "-"@ + padded(month, 2) + "-"@ + padded(in_month + 1, 2)
}

/// The day of a moment, counted from the first of January of the year 0.
pub open spec fn day_of(time: i64) -> int {
    time as int / 86400 + DAYS_BEFORE_1970
}

/// The date in universal time at which something was modified, where that is
/// known and not before the year 0.
pub open spec fn modified_text(seconds: Option<i64>) -> Seq<char> {
    match seconds {
        Some(time) => if day_of(time) >= 0 {
            date_text(day_of(time) as nat)
        } else {
            "unknown"@
        },
        None => "unknown"@,
    }
}

fn leap(year: u64) -> (result: bool)
    ensures
        result == is_leap(year as nat),
{
    year % 4 == 0 && (year % 100 != 0 || year % 400 == 0)
}

pub proof fn lemma_years(days: nat, year: nat, count: nat)
    requires
        days >= days_in_years(year, count),
    ensures
        year_of(days, year) == year_of((days - days_in_years(year, count)) as nat, year + count),
    decreases count,
{
    if count > 0 {
        lemma_years(days, year, (count - 1) as nat);
    }
}

/// How many days some years have together.
pub open spec fn days_in_years(year: nat, count: nat) -> nat
    decreases count,
{
    if count == 0 {
        0
    } else {
        days_in_years(year, (count - 1) as nat) + year_days((year + count - 1) as nat)
    }
}

pub proof fn lemma_days_in_years(count: nat)
    ensures
        days_in_years(0, count) == 365 * count + (count + 3) / 4 - (count + 99) / 100 + (count
            + 399) / 400,
    decreases count,
{
    if count > 0 {
        lemma_days_in_years((count - 1) as nat);
        let year = (count - 1) as nat;
        assert((year + 4) / 4 - (year + 3) / 4 == if year % 4 == 0 {
            1int
        } else {
            0
        });
        assert((year + 100) / 100 - (year + 99) / 100 == if year % 100 == 0 {
            1int
        } else {
            0
        });
        assert((year + 400) / 400 - (year + 399) / 400 == if year % 400 == 0 {
            1int
        } else {
            0
        });
        assert(year % 100 == 0 ==> year % 4 == 0);
        assert(year % 400 == 0 ==> year % 100 == 0);
    }
}

fn find_year(days: u64) -> (found: (u64, u64))
    requires
        days <= 0xffff_ffff_ffff,
    ensures
        (found.0 as nat, found.1 as nat) == year_of(days as nat, 0),
        found.0 <= days / 146097 * 400 + 400,
        found.1 < 366,
{
    let cycles = days / 146097;
    let mut year: u64 = cycles * 400;
    let mut rest: u64 = days % 146097;
    proof {
        lemma_days_in_years(year as nat);
        lemma_days_in_years((year + 400) as nat);
        assert(days_in_years(0, year as nat) == 146097 * cycles);
        lemma_years(days as nat, 0, year as nat);
    }
    let ghost start = year as nat;
    while rest >= 366 || (rest == 365 && !leap(year))
        invariant
            cycles == days / 146097,
            start == cycles * 400,
            start <= year,
            rest < 146097,
            days <= 0xffff_ffff_ffff,
            days_in_years(0, start) == 146097 * cycles,
            days_in_years(0, year as nat) + rest == days,
            year_of(days as nat, 0) == year_of(rest as nat, year as nat),
            year <= start + 400,
        decreases rest,
    {
        proof {
            lemma_days_in_years(year as nat);
            lemma_days_in_years((start + 400) as nat);
            assert(days_in_years(0, (start + 400) as nat) == 146097 * cycles + 146097);
            lemma_days_in_years((year + 1) as nat);
        }
        let length: u64 = if leap(year) {
            366
        } else {
            365
        };
        rest = rest - length;
        year = year + 1;
    }
    (year, rest)
}

fn find_month(days: u64, year: u64) -> (found: (u64, u64))
    ensures
        (found.0 as nat, found.1 as nat) == month_of(days as nat, year as nat, 1),
        found.1 <= days,
{
    let mut month: u64 = 1;
    let mut rest: u64 = days;
    while month < 12
        invariant
            1 <= month <= 12,
            rest <= days,
            month_of(rest as nat, year as nat, month as nat) == month_of(
                days as nat,
                year as nat,
                1,
            ),
        decreases 12 - month,
    {
        let length: u64 = if month == 2 {
            if leap(year) {
                29
            } else {
                28
            }
        } else if month == 4 || month == 6 || month == 9 || month == 11 {
            30
        } else {
            31
        };
        if rest < length {
            return (month, rest);
        }
        rest = rest - length;
        month = month + 1;
    }
    (month, rest)
}

fn print_padded(number: u64, width: usize) -> (text: String)
    ensures
        text@ == padded(number as nat, width as nat),
{
    let digits = print_u64(number);
    let count: usize = to_chars(&digits).len();
    let mut text = String::new();
    let mut i: usize = count;
    while i < width
        invariant
            i >= count,
            i <= width || i == count,
            text@ == Seq::new((i - count) as nat, |k: int| '0'),
        decreases width - i,
    {
        text.push('0');
        assert(text@ =~= Seq::new((i + 1 - count) as nat, |k: int| '0'));
        i += 1;
    }
    text.append(&digits);
    assert(text@ =~= padded(number as nat, width as nat));
    text
}

/// Prints the date in universal time at which something was modified.
pub fn format_modified(seconds: Option<i64>) -> (text: String)
    ensures
        text@ == modified_text(seconds),
{
    match seconds {
        Some(time) => {
            let days: u64 = if time >= 0 {
                (time as u64) / 86400 + DAYS_BEFORE_1970
            } else {
                // The days that have begun before 1970, counted backwards.
                let back: u64 = (-(time + 1)) as u64 / 86400 + 1;
                if back > DAYS_BEFORE_1970 {
                    return "unknown".to_owned();
                }
                DAYS_BEFORE_1970 - back
            };
            let (year, in_year) = find_year(days);
            let (month, in_month) = find_month(in_year, year);
            let mut text = print_padded(year, 4);
            text.append("-");
            let middle = print_padded(month, 2);
            text.append(&middle);
            text.append("-");
            let last = print_padded(in_month + 1, 2);
            text.append(&last);
            text
        },
        None => "unknown".to_owned(),
    }
}

} // verus!
