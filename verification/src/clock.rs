//! Wall-clock formatting: a zero-padded 24-hour `HH:MM` time string and a
//! `"<Weekday>, <DD> <Month>"` date string built from two fixed short-name
//! tables. Both name tables are total: an out-of-range index falls back to
//! the last table entry instead of failing.

use vstd::prelude::*;

verus! {

/// A local wall-clock reading, reduced to the plain fields the formatter uses.
pub struct ClockReading {
    pub hour: u32,
    pub minute: u32,
    pub day: u32,
    pub month: u32,
    /// ISO weekday number, Monday = 1 .. Sunday = 7.
    pub weekday: u32,
}

impl ClockReading {
    /// The ranges a real wall-clock reading always satisfies.
    pub open spec fn wf(self) -> bool {
        &&& self.hour <= 23
        &&& self.minute <= 59
        &&& 1 <= self.day <= 31
        &&& 1 <= self.month <= 12
        &&& 1 <= self.weekday <= 7
    }
}

/// Relies on chrono: `Local::now` yields the current local time;
/// `Timelike::hour` is in 0..=23 and `Timelike::minute` in 0..=59;
/// `Datelike::day` is in 1..=31, `Datelike::month` in 1..=12, and
/// `Weekday::number_from_monday` in 1..=7. Nothing more is assumed:
/// the result depends on the moment of the call.
#[verifier::external_body]
pub fn read_local_clock() -> (r: ClockReading)
    ensures
        r.wf(),
{
    let now = chrono::Local::now();
    ClockReading {
        hour: chrono::Timelike::hour(&now),
        minute: chrono::Timelike::minute(&now),
        day: chrono::Datelike::day(&now),
        month: chrono::Datelike::month(&now),
        weekday: chrono::Datelike::weekday(&now).number_from_monday(),
    }
}

/// The decimal digit character for `d`.
pub open spec fn spec_digit(d: u32) -> char
    recommends
        d <= 9,
{
    match d {
        0 => '0',
        1 => '1',
        2 => '2',
        3 => '3',
        4 => '4',
        5 => '5',
        6 => '6',
        7 => '7',
        8 => '8',
        _ => '9',
    }
}

/// A two-digit, zero-padded rendering of `n`.
pub open spec fn two_digits(n: u32) -> Seq<char>
    recommends
        n <= 99,
{
    seq![spec_digit(n / 10), spec_digit(n % 10)]
}

/// The `HH:MM` time string for the given hour and minute.
pub open spec fn spec_time_text(hour: u32, minute: u32) -> Seq<char> {
    two_digits(hour) + seq![':'] + two_digits(minute)
}

fn digit_str(d: u32) -> (s: &'static str)
    requires
        d <= 9,
    ensures
        s@ =~= seq![spec_digit(d)],
{
    proof {
        reveal_strlit("0");
        reveal_strlit("1");
        reveal_strlit("2");
        reveal_strlit("3");
        reveal_strlit("4");
        reveal_strlit("5");
        reveal_strlit("6");
        reveal_strlit("7");
        reveal_strlit("8");
        reveal_strlit("9");
    }
    match d {
        0 => "0",
        1 => "1",
        2 => "2",
        3 => "3",
        4 => "4",
        5 => "5",
        6 => "6",
        7 => "7",
        8 => "8",
        _ => "9",
    }
}

fn push_two_digits(out: &mut String, n: u32)
    requires
        n <= 99,
    ensures
        final(out)@ == old(out)@ + two_digits(n),
{
    out.append(digit_str(n / 10));
    out.append(digit_str(n % 10));
    proof {
        assert(final(out)@ =~= old(out)@ + two_digits(n));
    }
}

/// The clock line: zero-padded `HH:MM`, 24-hour.
pub fn format_time(hour: u32, minute: u32) -> (r: String)
    requires
        hour <= 23,
        minute <= 59,
    ensures
        r@ == spec_time_text(hour, minute),
        r@.len() == 5,
{
    let mut out = String::new();
    push_two_digits(&mut out, hour);
    out.append(":");
    push_two_digits(&mut out, minute);
    proof {
        reveal_strlit(":");
        assert(out@ =~= spec_time_text(hour, minute));
    }
    out
}

/// The short weekday name for ISO weekday `idx` (Monday = 1); any index
/// outside 1..=7 falls back to the last table entry.
pub open spec fn spec_weekday_name(idx: u32) -> Seq<char> {
    match idx {
        1 => "Пн"@,
        2 => "Вт"@,
        3 => "Ср"@,
        4 => "Чт"@,
        5 => "Пт"@,
        6 => "Сб"@,
        _ => "Вс"@,
    }
}

/// The short month name for month `idx` (January = 1); any index outside
/// 1..=12 falls back to the last table entry.
pub open spec fn spec_month_name(idx: u32) -> Seq<char> {
    match idx {
        1 => "янв"@,
        2 => "фев"@,
        3 => "мар"@,
        4 => "апр"@,
        5 => "мая"@,
        6 => "июн"@,
        7 => "июл"@,
        8 => "авг"@,
        9 => "сен"@,
        10 => "окт"@,
        11 => "ноя"@,
        _ => "дек"@,
    }
}

/// Short weekday names aligned with ISO weekday numbers.
pub fn weekday_ru(idx: u32) -> (r: &'static str)
    ensures
        r@ == spec_weekday_name(idx),
{
    match idx {
        1 => "Пн",
        2 => "Вт",
        3 => "Ср",
        4 => "Чт",
        5 => "Пт",
        6 => "Сб",
        _ => "Вс",
    }
}

/// Short month names aligned with calendar month numbers.
pub fn month_ru(idx: u32) -> (r: &'static str)
    ensures
        r@ == spec_month_name(idx),
{
    match idx {
        1 => "янв",
        2 => "фев",
        3 => "мар",
        4 => "апр",
        5 => "мая",
        6 => "июн",
        7 => "июл",
        8 => "авг",
        9 => "сен",
        10 => "окт",
        11 => "ноя",
        _ => "дек",
    }
}

/// The date line: weekday short name, `", "`, two-digit day, `" "`, month
/// short name.
pub open spec fn spec_date_text(weekday: u32, day: u32, month: u32) -> Seq<char> {
    spec_weekday_name(weekday) + ", "@ + two_digits(day) + " "@ + spec_month_name(month)
}

/// The date line for the given weekday, day-of-month and month numbers.
/// Out-of-range weekday or month indices fall back to the fixed default
/// table entries; the day only needs to fit in two digits.
pub fn format_date(weekday: u32, day: u32, month: u32) -> (r: String)
    requires
        day <= 99,
    ensures
        r@ == spec_date_text(weekday, day, month),
{
    let mut out = String::from_str(weekday_ru(weekday));
    out.append(", ");
    push_two_digits(&mut out, day);
    out.append(" ");
    out.append(month_ru(month));
    proof {
        assert(out@ =~= spec_date_text(weekday, day, month));
    }
    out
}

} // verus!
