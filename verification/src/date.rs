//! Calendar dates, and the calendar arithmetic `chrono` does on them.

use crate::text::{decimal, digit_char};
use chrono::{Datelike, Months, NaiveDate, TimeDelta};
use vstd::prelude::*;

verus! {

/// The first year of the calendar.
pub const FIRST_YEAR: i32 = -262_143;

/// The last year of the calendar.
pub const LAST_YEAR: i32 = 262_142;

/// How many days either way a duration can hold.
pub const MOST_DAYS: i64 = 106_751_991_167;

/// What a [`Date`] stands for: a day of the proleptic Gregorian calendar.
pub struct DateView {
    pub year: int,
    pub month: int,
    pub day: int,
}

pub open spec fn is_leap(year: int) -> bool {
    year % 4 == 0 && (year % 100 != 0 || year % 400 == 0)
}

pub open spec fn days_in_month(year: int, month: int) -> int {
    if month == 2 {
        if is_leap(year) {
            29
        } else {
            28
        }
    } else if month == 4 || month == 6 || month == 9 || month == 11 {
        30
    } else {
        31
    }
}

/// How many days of `year` come before `month`.
pub open spec fn days_before_month(year: int, month: int) -> int
    decreases month,
{
    if month <= 1 {
        0
    } else {
        days_before_month(year, month - 1) + days_in_month(year, month - 1)
    }
}

/// How many days there are from the start of year one to the start of `year`.
pub open spec fn days_before_year(year: int) -> int {
    365 * (year - 1) + (year - 1) / 4 - (year - 1) / 100 + (year - 1) / 400
}

impl DateView {
    /// A day the calendar has.
    pub open spec fn valid(self) -> bool {
        &&& FIRST_YEAR <= self.year <= LAST_YEAR
        &&& 1 <= self.month <= 12
        &&& 1 <= self.day <= days_in_month(self.year, self.month)
    }

    /// The day's place in the run of all days, the first of year one being
    /// one.
    pub open spec fn day_number(self) -> int {
        days_before_year(self.year) + days_before_month(self.year, self.month) + self.day
    }

    /// The day `months` months on, on the last day of the month where the
    /// month has no such day.
    pub open spec fn months_on(self, months: int) -> DateView {
        let count = 12 * self.year + (self.month - 1) + months;
        let year = count / 12;
        let month = count % 12 + 1;
        DateView {
            year,
            month,
            day: if self.day <= days_in_month(year, month) {
                self.day
            } else {
                days_in_month(year, month)
            },
        }
    }

    pub open spec fn first() -> DateView {
        DateView { year: FIRST_YEAR as int, month: 1, day: 1 }
    }

    pub open spec fn last() -> DateView {
        DateView { year: LAST_YEAR as int, month: 12, day: 31 }
    }

    /// Whether the day `days` days on is one the calendar has.
    pub open spec fn reaches(self, days: int) -> bool {
        DateView::first().day_number() <= self.day_number() + days
            <= DateView::last().day_number()
    }

    /// The day `days` days on.
    pub open spec fn days_on(self, days: int) -> DateView {
        nth_day(self.day_number() + days)
    }

    /// The date written `YYYY-MM-DD`. A year that does not fit four digits
    /// is written with its sign and as many as it needs.
    pub open spec fn iso(self) -> Seq<char> {
        year_text(self.year).push('-') + seq![
            digit_char(self.month / 10),
            digit_char(self.month % 10),
            '-',
            digit_char(self.day / 10),
            digit_char(self.day % 10),
        ]
    }
}

/// The day that has a number.
pub open spec fn nth_day(number: int) -> DateView {
    choose|date: DateView| #[trigger] date.valid() && date.day_number() == number
}

pub open spec fn four_digits(n: int) -> Seq<char> {
    seq![
        digit_char(n / 1000),
        digit_char(n / 100 % 10),
        digit_char(n / 10 % 10),
        digit_char(n % 10),
    ]
}

pub open spec fn year_text(year: int) -> Seq<char> {
    if 0 <= year <= 9999 {
        four_digits(year)
    } else {
        let size = if year < 0 {
            -year
        } else {
            year
        };
        seq![
            if year < 0 {
                '-'
            } else {
                '+'
            },
        ] + (if size <= 9999 {
            four_digits(size)
        } else {
            decimal(size)
        })
    }
}

/// A calendar date.
#[derive(Copy, Clone, Debug, PartialEq, Eq, Structural)]
pub struct Date {
    year: i32,
    month: u32,
    day: u32,
}

impl View for Date {
    type V = DateView;

    closed spec fn view(&self) -> DateView {
        DateView { year: self.year as int, month: self.month as int, day: self.day as int }
    }
}

/// `NaiveDate::from_ymd_opt` makes a date of a year, a month and a day
/// exactly when the calendar has that day.
#[verifier::external_body]
fn calendar_day(year: i32, month: u32, day: u32) -> (date: Option<Date>)
    ensures
        match date {
            Some(date) => date@ == (DateView {
                year: year as int,
                month: month as int,
                day: day as int,
            }) && date@.valid(),
            None => !(DateView {
                year: year as int,
                month: month as int,
                day: day as int,
            }).valid(),
        },
{
    let date = NaiveDate::from_ymd_opt(year, month, day)?;
    Some(Date { year: date.year(), month: date.month(), day: date.day() })
}

/// `NaiveDate::checked_add_signed` moves a date by a number of days, forwards
/// or back, and gives nothing where the calendar runs out. `TimeDelta::days`
/// makes the duration, which holds no more than [`MOST_DAYS`].
#[verifier::external_body]
fn days_on(date: Date, days: i64) -> (moved: Option<Date>)
    requires
        date@.valid(),
        -MOST_DAYS <= days <= MOST_DAYS,
    ensures
        match moved {
            Some(to) => to@.valid() && to@.day_number() == date@.day_number() + days,
            None => !date@.reaches(days as int),
        },
{
    let from = NaiveDate::from_ymd_opt(date.year, date.month, date.day)?;
    let to = from.checked_add_signed(TimeDelta::days(days))?;
    Some(Date { year: to.year(), month: to.month(), day: to.day() })
}

/// `NaiveDate::checked_add_months` moves a date forwards by months, onto the
/// last day of a month too short for it, and gives nothing where the calendar
/// runs out.
#[verifier::external_body]
fn later_month(date: Date, months: u32) -> (moved: Option<Date>)
    requires
        date@.valid(),
    ensures
        match moved {
            Some(to) => to@.valid() && to@ == date@.months_on(months as int),
            None => !date@.months_on(months as int).valid(),
        },
{
    let from = NaiveDate::from_ymd_opt(date.year, date.month, date.day)?;
    let to = from.checked_add_months(Months::new(months))?;
    Some(Date { year: to.year(), month: to.month(), day: to.day() })
}

/// `NaiveDate::checked_sub_months` moves a date back by months, onto the last
/// day of a month too short for it, and gives nothing where the calendar runs
/// out.
#[verifier::external_body]
fn earlier_month(date: Date, months: u32) -> (moved: Option<Date>)
    requires
        date@.valid(),
    ensures
        match moved {
            Some(to) => to@.valid() && to@ == date@.months_on(-(months as int)),
            None => !date@.months_on(-(months as int)).valid(),
        },
{
    let from = NaiveDate::from_ymd_opt(date.year, date.month, date.day)?;
    let to = from.checked_sub_months(Months::new(months))?;
    Some(Date { year: to.year(), month: to.month(), day: to.day() })
}

/// `NaiveDate::signed_duration_since` is how far apart two dates are, which
/// `TimeDelta::num_days` counts in days.
#[verifier::external_body]
fn days_apart(date: Date, since: Date) -> (days: i64)
    requires
        date@.valid(),
        since@.valid(),
    ensures
        days == date@.day_number() - since@.day_number(),
{
    let to = NaiveDate::from_ymd_opt(date.year, date.month, date.day);
    let from = NaiveDate::from_ymd_opt(since.year, since.month, since.day);
    let to = to.expect("a date is on the calendar");
    to.signed_duration_since(from.expect("a date is on the calendar")).num_days()
}

/// `NaiveDate::format` with `%Y-%m-%d` writes a date as [`DateView::iso`]
/// says.
#[verifier::external_body]
fn written(date: Date) -> (text: String)
    requires
        date@.valid(),
    ensures
        text@ == date@.iso(),
{
    let date = NaiveDate::from_ymd_opt(date.year, date.month, date.day);
    date.expect("a date is on the calendar").format("%Y-%m-%d").to_string()
}

/// What `NaiveDate::parse_from_str` reads a text as under `%Y-%m-%d`: a date,
/// or the words for what was wrong with it.
pub uninterp spec fn iso_reading(text: Seq<char>) -> Result<(int, int, int), Seq<char>>;

/// `NaiveDate::parse_from_str` reads a date under `%Y-%m-%d`.
///
/// Which texts it takes is its own affair, and [`iso_reading`] names what
/// comes back. Three things are known of it: a date it is handed as
/// [`DateView::iso`] writes it is that date, an empty text is no date, and
/// neither is one with a slash in it.
#[verifier::external_body]
fn read(text: &str) -> (read: Result<Date, String>)
    ensures
        match read {
            Ok(date) => date@.valid() && iso_reading(text@) == Ok::<(int, int, int), Seq<char>>(
                (date@.year, date@.month, date@.day),
            ),
            Err(why) => iso_reading(text@) == Err::<(int, int, int), Seq<char>>(why@),
        },
        forall|date: DateView|
            #![trigger date.iso()]
            date.valid() && text@ == date.iso() ==> read is Ok && read->Ok_0@ == date,
        text@.len() == 0 ==> read is Err,
        text@.contains('/') ==> read is Err,
{
    match NaiveDate::parse_from_str(text, "%Y-%m-%d") {
        Ok(date) => Ok(Date { year: date.year(), month: date.month(), day: date.day() }),
        Err(why) => Err(why.to_string()),
    }
}

impl Date {
    #[verifier::type_invariant]
    spec fn on_the_calendar(self) -> bool {
        self@.valid()
    }

    /// The date of a year, a month and a day, where the calendar has it.
    pub fn from_ymd(year: i32, month: u32, day: u32) -> (date: Option<Date>)
        ensures
            match date {
                Some(date) => date@ == (DateView {
                    year: year as int,
                    month: month as int,
                    day: day as int,
                }) && date@.valid(),
                None => !(DateView {
                    year: year as int,
                    month: month as int,
                    day: day as int,
                }).valid(),
            },
    {
        calendar_day(year, month, day)
    }

    pub fn year(self) -> (year: i32)
        ensures
            year == self@.year,
            self@.valid(),
    {
        proof {
            use_type_invariant(&self);
        }
        self.year
    }

    pub fn month(self) -> (month: u32)
        ensures
            month == self@.month,
            self@.valid(),
    {
        proof {
            use_type_invariant(&self);
        }
        self.month
    }

    pub fn day(self) -> (day: u32)
        ensures
            day == self@.day,
            self@.valid(),
    {
        proof {
            use_type_invariant(&self);
        }
        self.day
    }

    /// Whether this is a day before `other`.
    pub fn is_before(self, other: Date) -> (earlier: bool)
        ensures
            earlier == before(self@, other@),
    {
        self.year < other.year || (self.year == other.year && (self.month < other.month || (
        self.month == other.month && self.day < other.day)))
    }

    /// The date `days` days on, or back where it is negative. `None` where
    /// the calendar runs out.
    pub fn add_days(self, days: i64) -> (moved: Option<Date>)
        requires
            -MOST_DAYS <= days <= MOST_DAYS,
        ensures
            self@.valid(),
            match moved {
                Some(to) => {
                    &&& self@.reaches(days as int)
                    &&& to@ == self@.days_on(days as int)
                    &&& to@.valid()
                    &&& to@.day_number() == self@.day_number() + days
                },
                None => !self@.reaches(days as int),
            },
    {
        proof {
            use_type_invariant(&self);
        }
        let moved = days_on(self, days);
        proof {
            if let Some(to) = moved {
                the_calendar_has_its_ends(to@);
                a_day_is_its_number(to@, nth_day(to@.day_number()));
            }
        }
        moved
    }

    /// The date `months` months on, held to the length of the month it lands
    /// in. `None` where the calendar runs out.
    pub fn add_months(self, months: u32) -> (moved: Option<Date>)
        ensures
            self@.valid(),
            match moved {
                Some(to) => to@.valid() && to@ == self@.months_on(months as int),
                None => !self@.months_on(months as int).valid(),
            },
    {
        proof {
            use_type_invariant(&self);
        }
        later_month(self, months)
    }

    /// The date `months` months back, held to the length of the month it
    /// lands in. `None` where the calendar runs out.
    pub fn sub_months(self, months: u32) -> (moved: Option<Date>)
        ensures
            self@.valid(),
            match moved {
                Some(to) => to@.valid() && to@ == self@.months_on(-(months as int)),
                None => !self@.months_on(-(months as int)).valid(),
            },
    {
        proof {
            use_type_invariant(&self);
        }
        earlier_month(self, months)
    }

    /// How many days this date is past `since`.
    pub fn days_since(self, since: Date) -> (days: i64)
        ensures
            days == self@.day_number() - since@.day_number(),
            -MOST_DAYS <= days <= MOST_DAYS,
            self@.valid(),
            since@.valid(),
    {
        proof {
            use_type_invariant(&self);
            use_type_invariant(&since);
            the_calendar_has_its_ends(self@);
            the_calendar_has_its_ends(since@);
            lemma_month_within_year(DateView::last().year, DateView::last().month);
            lemma_month_within_year(DateView::first().year, DateView::first().month);
        }
        days_apart(self, since)
    }

    /// The date written the way a field holds it, which is the way it is
    /// typed.
    pub fn iso(self) -> (text: String)
        ensures
            text@ == self@.iso(),
            self@.valid(),
    {
        proof {
            use_type_invariant(&self);
        }
        written(self)
    }

    /// Read a date in the format dates are stored in, or say what was wrong
    /// with it.
    pub fn read_iso(text: &str) -> (reading: Result<Date, String>)
        ensures
            match reading {
                Ok(date) => date@.valid() && iso_reading(text@) == Ok::<
                    (int, int, int),
                    Seq<char>,
                >((date@.year, date@.month, date@.day)),
                Err(why) => iso_reading(text@) == Err::<(int, int, int), Seq<char>>(why@),
            },
            forall|date: DateView|
                #![trigger date.iso()]
                date.valid() && text@ == date.iso() ==> reading is Ok && reading->Ok_0@ == date,
            text@.len() == 0 ==> reading is Err,
            text@.contains('/') ==> reading is Err,
    {
        read(text)
    }
}

proof fn lemma_year_length(year: int)
    ensures
        days_before_year(year + 1) == days_before_year(year) + (if is_leap(year) {
            366int
        } else {
            365int
        }),
{
    assert(year / 4 == (year - 1) / 4 + (if year % 4 == 0 {
        1int
    } else {
        0int
    })) by (nonlinear_arith);
    assert(year / 100 == (year - 1) / 100 + (if year % 100 == 0 {
        1int
    } else {
        0int
    })) by (nonlinear_arith);
    assert(year / 400 == (year - 1) / 400 + (if year % 400 == 0 {
        1int
    } else {
        0int
    })) by (nonlinear_arith);
    assert(year % 400 == 0 ==> year % 100 == 0) by (nonlinear_arith);
    assert(year % 100 == 0 ==> year % 4 == 0) by (nonlinear_arith);
}

proof fn lemma_month_within_year(year: int, month: int)
    requires
        1 <= month <= 12,
    ensures
        0 <= days_before_month(year, month),
        days_before_month(year, month) + days_in_month(year, month) <= (if is_leap(year) {
            366int
        } else {
            365int
        }),
{
    reveal_with_fuel(days_before_month, 13);
}

proof fn lemma_months_in_order(year: int, earlier: int, later: int)
    requires
        1 <= earlier < later <= 12,
    ensures
        days_before_month(year, earlier) + days_in_month(year, earlier) <= days_before_month(
            year,
            later,
        ),
    decreases later - earlier,
{
    if earlier + 1 < later {
        lemma_months_in_order(year, earlier, later - 1);
    }
}

proof fn lemma_years_in_order(earlier: int, later: int)
    requires
        earlier <= later,
    ensures
        days_before_year(earlier) <= days_before_year(later),
    decreases later - earlier,
{
    if earlier < later {
        lemma_years_in_order(earlier, later - 1);
        lemma_year_length(later - 1);
    }
}

/// Whether `earlier` is a day before `later` by year, month and day.
pub open spec fn before(earlier: DateView, later: DateView) -> bool {
    earlier.year < later.year || (earlier.year == later.year && (earlier.month < later.month || (
    earlier.month == later.month && earlier.day < later.day)))
}

/// A day earlier in the calendar has the smaller number.
pub proof fn earlier_days_count_less(earlier: DateView, later: DateView)
    requires
        earlier.valid(),
        later.valid(),
        before(earlier, later),
    ensures
        earlier.day_number() < later.day_number(),
{
    lemma_month_within_year(earlier.year, earlier.month);
    lemma_month_within_year(later.year, later.month);
    if earlier.year < later.year {
        lemma_year_length(earlier.year);
        lemma_years_in_order(earlier.year + 1, later.year);
    } else if earlier.month < later.month {
        lemma_months_in_order(earlier.year, earlier.month, later.month);
    }
}

/// No two days of the calendar share a number.
pub proof fn a_day_is_its_number(one: DateView, other: DateView)
    requires
        one.valid(),
        other.valid(),
        one.day_number() == other.day_number(),
    ensures
        one == other,
{
    if before(one, other) {
        earlier_days_count_less(one, other);
    } else if before(other, one) {
        earlier_days_count_less(other, one);
    }
}

/// Every day lies between the first of the calendar and the last.
pub proof fn the_calendar_has_its_ends(date: DateView)
    requires
        date.valid(),
    ensures
        DateView::first().valid(),
        DateView::last().valid(),
        DateView::first().day_number() <= date.day_number() <= DateView::last().day_number(),
{
    if date != DateView::first() {
        earlier_days_count_less(DateView::first(), date);
    }
    if date != DateView::last() {
        earlier_days_count_less(date, DateView::last());
    }
}

/// The day after `date`.
spec fn tomorrow(date: DateView) -> DateView {
    if date.day < days_in_month(date.year, date.month) {
        DateView { day: date.day + 1, ..date }
    } else if date.month < 12 {
        DateView { month: date.month + 1, day: 1, ..date }
    } else {
        DateView { year: date.year + 1, month: 1, day: 1 }
    }
}

/// Every number from the first day's to the last day's is a day's.
pub proof fn every_number_is_a_day(number: int)
    requires
        DateView::first().day_number() <= number <= DateView::last().day_number(),
    ensures
        nth_day(number).valid(),
        nth_day(number).day_number() == number,
    decreases number - DateView::first().day_number(),
{
    if number == DateView::first().day_number() {
        assert(DateView::first().valid());
    } else {
        every_number_is_a_day(number - 1);
        let date = nth_day(number - 1);
        let next = tomorrow(date);
        lemma_year_length(date.year);
        reveal_with_fuel(days_before_month, 13);
        assert(next.day_number() == number);
        if date.year == LAST_YEAR && date.month == 12 && date.day == 31 {
            assert(date == DateView::last());
        }
        assert(next.valid());
    }
}

/// Moving a date by some days and back again returns to it.
pub proof fn days_on_and_back(date: DateView, days: int)
    requires
        date.valid(),
        date.reaches(days),
    ensures
        date.days_on(days).valid(),
        date.days_on(days).reaches(-days),
        date.days_on(days).days_on(-days) == date,
{
    every_number_is_a_day(date.day_number() + days);
    the_calendar_has_its_ends(date);
    every_number_is_a_day(date.day_number());
    a_day_is_its_number(date, nth_day(date.day_number()));
}

/// A written date holds digits, dashes and a sign, and nothing else.
pub open spec fn is_date_char(c: char) -> bool {
    crate::text::is_digit(c) || c == '-' || c == '+'
}

/// A written date is not empty, and holds no slash and no white space.
pub proof fn a_written_date_is_digits_and_dashes(date: DateView)
    requires
        date.valid(),
    ensures
        date.iso().len() > 0,
        forall|i: int| 0 <= i < date.iso().len() ==> is_date_char(#[trigger] date.iso()[i]),
{
    let size = if date.year < 0 {
        -date.year
    } else {
        date.year
    };
    crate::text::a_written_number_reads_back(size);
    let year = year_text(date.year);
    assert forall|i: int| 0 <= i < year.len() implies is_date_char(#[trigger] year[i]) by {
        if !(0 <= date.year <= 9999) && size > 9999 && i > 0 {
            assert(year[i] == decimal(size)[i - 1]);
            assert(crate::text::is_digit(decimal(size)[i - 1]));
        }
    }
    assert forall|i: int| 0 <= i < date.iso().len() implies is_date_char(
        #[trigger] date.iso()[i],
    ) by {
        if i < year.len() {
            assert(date.iso()[i] == year[i]);
        }
    }
}

/// The months have their lengths: thirty days hath September, April, June and
/// November, and February has one more day in a leap year.
pub proof fn each_month_has_its_length(year: int)
    ensures
        days_in_month(year, 1) == 31,
        days_in_month(year, 3) == 31,
        days_in_month(year, 4) == 30,
        days_in_month(year, 5) == 31,
        days_in_month(year, 6) == 30,
        days_in_month(year, 7) == 31,
        days_in_month(year, 8) == 31,
        days_in_month(year, 9) == 30,
        days_in_month(year, 10) == 31,
        days_in_month(year, 11) == 30,
        days_in_month(year, 12) == 31,
        year % 4 != 0 ==> days_in_month(year, 2) == 28,
        year % 4 == 0 && year % 100 != 0 ==> days_in_month(year, 2) == 29,
        year % 100 == 0 && year % 400 != 0 ==> days_in_month(year, 2) == 28,
        year % 400 == 0 ==> days_in_month(year, 2) == 29,
{
    assert(year % 400 == 0 ==> year % 100 == 0) by (nonlinear_arith);
    assert(year % 100 == 0 ==> year % 4 == 0) by (nonlinear_arith);
}

/// Each day counts one more than the day before it, within a month, over the
/// end of one and over the end of a year, and the count starts with the first
/// day of the first year.
pub proof fn each_day_counts_one_more(date: DateView)
    requires
        1 <= date.month <= 12,
    ensures
        (DateView { year: 1, month: 1, day: 1 }).day_number() == 1,
        (DateView { day: date.day + 1, ..date }).day_number() == date.day_number() + 1,
        date.month < 12 && date.day == days_in_month(date.year, date.month) ==> (DateView {
            month: date.month + 1,
            day: 1,
            ..date
        }).day_number() == date.day_number() + 1,
        date.month == 12 && date.day == 31 ==> (DateView {
            year: date.year + 1,
            month: 1,
            day: 1,
        }).day_number() == date.day_number() + 1,
{
    lemma_year_length(date.year);
    reveal_with_fuel(days_before_month, 13);
}

/// A date some months on is in the month that many after, on the same day of
/// it, or on its last where it is too short to have that day.
pub proof fn months_on_lands_in_the_month_meant(date: DateView, months: int)
    requires
        date.valid(),
    ensures
        ({
            let to = date.months_on(months);
            let length = days_in_month(to.year, to.month);
            &&& 1 <= to.month <= 12
            &&& 12 * to.year + to.month == 12 * date.year + date.month + months
            &&& (date.day <= length ==> to.day == date.day)
            &&& (date.day > length ==> to.day == length)
        }),
{
}

/// A date some days on is the day whose number is that many more.
pub proof fn days_on_counts_the_days(date: DateView, days: int)
    requires
        date.valid(),
        date.reaches(days),
    ensures
        date.days_on(days).valid(),
        date.days_on(days).day_number() == date.day_number() + days,
{
    every_number_is_a_day(date.day_number() + days);
}

/// A written date is its year, its month and its day in that order, in four,
/// two and two digits, with dashes between.
pub proof fn a_date_is_written_year_month_day(date: DateView)
    requires
        date.valid(),
        0 <= date.year <= 9999,
    ensures
        date.iso().len() == 10,
        crate::text::all_digits(date.iso().subrange(0, 4)),
        crate::text::number(date.iso().subrange(0, 4)) == date.year,
        date.iso()[4] == '-',
        crate::text::all_digits(date.iso().subrange(5, 7)),
        crate::text::number(date.iso().subrange(5, 7)) == date.month,
        date.iso()[7] == '-',
        crate::text::all_digits(date.iso().subrange(8, 10)),
        crate::text::number(date.iso().subrange(8, 10)) == date.day,
{
    let text = date.iso();
    let year = text.subrange(0, 4);
    let month = text.subrange(5, 7);
    let day = text.subrange(8, 10);
    assert(year =~= four_digits(date.year));
    assert(month =~= seq![digit_char(date.month / 10), digit_char(date.month % 10)]);
    assert(day =~= seq![digit_char(date.day / 10), digit_char(date.day % 10)]);
    reveal_with_fuel(crate::text::number, 5);
    assert(year.drop_last().drop_last().drop_last().drop_last() =~= Seq::<char>::empty());
    assert(month.drop_last().drop_last() =~= Seq::<char>::empty());
    assert(day.drop_last().drop_last() =~= Seq::<char>::empty());
    assert(year.drop_last().drop_last().drop_last().last() == year[0]);
    assert(year.drop_last().drop_last().last() == year[1]);
    assert(year.drop_last().last() == year[2]);
    assert(month.drop_last().last() == month[0]);
    assert(day.drop_last().last() == day[0]);
}

} // verus!
