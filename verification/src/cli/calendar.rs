//! How dates go with seconds.

use crate::cli::figures::days_in_years;
use crate::cli::figures::format_modified;
use crate::cli::figures::is_leap;
use crate::cli::figures::lemma_days_in_years;
use crate::cli::figures::lemma_years;
use crate::cli::figures::month_days;
use crate::cli::figures::month_of;
use crate::cli::figures::padded;
use crate::cli::figures::year_days;
use crate::cli::figures::year_of;
use crate::numeral::decimal;
use vstd::prelude::*;

verus! {

/// The days from the first of January of the year 0 to that of another year.
pub open spec fn days_to_year(year: nat) -> int {
    365 * year + (year + 3) / 4 - (year + 99) / 100 + (year + 399) / 400
}

/// The days from the first of January to the first of another month.
pub open spec fn days_to_month(year: nat, month: nat) -> int {
    (367 * month - 362) / 12 - (if month <= 2 {
        0int
    } else if year % 400 == 0 || (year % 4 == 0 && year % 100 != 0) {
        1
    } else {
        2
    })
}

/// How many days a month has.
pub open spec fn days_of_month(year: nat, month: nat) -> int {
    if month == 12 {
        31
    } else {
        days_to_month(year, month + 1) - days_to_month(year, month)
    }
}

/// Two digits.
pub open spec fn two_digits(number: nat) -> Seq<char> {
    seq![('0' as int + number / 10) as char, ('0' as int + number % 10) as char]
}

proof fn lemma_two_digits(number: nat)
    requires
        number < 100,
    ensures
        padded(number, 2) == two_digits(number),
{
    reveal_with_fuel(decimal, 3);
    let digits = decimal(number);
    if number < 10 {
        assert(digits =~= seq![('0' as int + number) as char]);
        assert(padded(number, 2) =~= two_digits(number));
    } else {
        assert(number / 10 < 10);
        assert(decimal(number / 10) =~= seq![('0' as int + number / 10) as char]);
        assert(digits =~= two_digits(number));
        assert(padded(number, 2) =~= digits);
    }
}

proof fn lemma_four_digits(number: nat)
    requires
        1000 <= number < 10000,
    ensures
        padded(number, 4) == decimal(number),
{
    reveal_with_fuel(decimal, 5);
}

proof fn lemma_month_step(days: nat, year: nat, month: nat)
    requires
        1 <= month < 12,
        days >= month_days(year, month),
    ensures
        month_of(days, year, month) == month_of(
            (days - month_days(year, month)) as nat,
            year,
            month + 1,
        ),
{
}

proof fn lemma_month(year: nat, start: nat, month: nat, day: nat)
    requires
        1 <= start <= month <= 12,
        day < month_days(year, month),
        days_to_month(year, start) >= 0,
    ensures
        days_to_month(year, month) - days_to_month(year, start) + day >= 0,
        month_of(
            (days_to_month(year, month) - days_to_month(year, start) + day) as nat,
            year,
            start,
        ) == (month, day),
    decreases month - start,
{
    assert(is_leap(year) == (year % 400 == 0 || (year % 4 == 0 && year % 100 != 0)));
    if start < month {
        assert(days_to_month(year, start + 1) - days_to_month(year, start) == month_days(
            year,
            start,
        ));
        lemma_month(year, start + 1, month, day);
        let days = (days_to_month(year, month) - days_to_month(year, start) + day) as nat;
        lemma_month_step(days, year, start);
    }
}

/// A moment on a day is shown as that day of the calendar, in universal time: the year in
/// four digits, the month and the day of the month in two.
pub proof fn dates_follow_the_calendar(
    year: nat,
    month: nat,
    day: nat,
    time: i64,
    text: String,
)
    requires
        1000 <= year < 10000,
        1 <= month <= 12,
        1 <= day <= days_of_month(year, month),
        time as int / 86400 == days_to_year(year) + days_to_month(year, month) + day - 1 - 719528,
        call_ensures(format_modified, (Some(time),), text),
    ensures
        text@ == decimal(year) + "-"@ + two_digits(month) + "-"@ + two_digits(day),
{
    assert(is_leap(year) == (year % 400 == 0 || (year % 4 == 0 && year % 100 != 0)));
    assert(days_of_month(year, month) == month_days(year, month));
    lemma_days_in_years(year);
    lemma_month(year, 1, month, (day - 1) as nat);
    let rest = days_to_month(year, month) + day - 1;
    assert(days_to_month(year, 1) == 0);
    assert(0 <= rest < year_days(year));
    let days = (days_to_year(year) + rest) as nat;
    assert(days_in_years(0, year) == days_to_year(year));
    lemma_years(days, 0, year);
    assert(year_of(rest as nat, year) == (year, rest as nat));
    lemma_two_digits(month);
    lemma_two_digits(day);
    lemma_four_digits(year);
}

/// Without a time, no date is shown.
pub proof fn unknown_date_is_told(text: String)
    requires
        call_ensures(format_modified, (None,), text),
    ensures
        text@ == "unknown"@,
{
}

} // verus!
