//! How far one keypress moves what it is pressed on.

use crate::date::{days_on_and_back, Date, DateView, MOST_DAYS};
use crate::key::KeyEvent;
use vstd::prelude::*;

verus! {

/// How many days a week step counts.
pub const WEEK: i64 = 7;

/// What a [`Step`]'s amount counts.
///
/// A month is not a number of days, so the unit travels with the amount
/// instead of being flattened into days, where it would have to guess which
/// month it was about to land in.
#[derive(Copy, Clone, Debug, PartialEq, Eq, Structural)]
pub enum Unit {
    Days,
    Months,
}

/// How far one keypress moves what it is pressed on: a day, a week with
/// `Shift`, or a month on the brackets.
///
/// A selector has no week and no month to move, so it reads the direction and
/// ignores the size.
#[derive(Copy, Clone, Debug, PartialEq, Eq, Structural)]
pub struct Step {
    amount: i64,
    unit: Unit,
}

/// What a [`Step`] stands for.
pub struct StepView {
    pub amount: int,
    pub unit: Unit,
}

impl StepView {
    pub open spec fn of_days(amount: int) -> StepView {
        StepView { amount, unit: Unit::Days }
    }

    pub open spec fn of_months(amount: int) -> StepView {
        StepView { amount, unit: Unit::Months }
    }

    /// The date `from` steps to, or none where the calendar runs out.
    pub open spec fn from(self, from: DateView) -> Option<DateView> {
        match self.unit {
            Unit::Days => if from.reaches(self.amount) {
                Some(from.days_on(self.amount))
            } else {
                None
            },
            Unit::Months => if from.months_on(self.amount).valid() {
                Some(from.months_on(self.amount))
            } else {
                None
            },
        }
    }

    /// Which way: back, nowhere, or on.
    pub open spec fn direction(self) -> int {
        if self.amount < 0 {
            -1
        } else if self.amount > 0 {
            1
        } else {
            0
        }
    }
}

impl View for Step {
    type V = StepView;

    closed spec fn view(&self) -> StepView {
        StepView { amount: self.amount as int, unit: self.unit }
    }
}

impl Step {
    #[verifier::type_invariant]
    spec fn a_duration_holds_it(self) -> bool {
        self.unit is Days ==> -MOST_DAYS <= self.amount <= MOST_DAYS
    }

    /// `→`.
    pub fn next() -> (step: Step)
        ensures
            step@ == StepView::of_days(1),
    {
        Step::days(1)
    }

    /// `←`.
    pub fn previous() -> (step: Step)
        ensures
            step@ == StepView::of_days(-1),
    {
        Step::days(-1)
    }

    /// `Shift` with `→`.
    pub fn next_week() -> (step: Step)
        ensures
            step@ == StepView::of_days(WEEK as int),
    {
        Step::days(WEEK)
    }

    /// `Shift` with `←`.
    pub fn previous_week() -> (step: Step)
        ensures
            step@ == StepView::of_days(-WEEK),
    {
        Step::days(-WEEK)
    }

    /// `]`.
    pub fn next_month() -> (step: Step)
        ensures
            step@ == StepView::of_months(1),
    {
        Step::months(1)
    }

    /// `[`.
    pub fn previous_month() -> (step: Step)
        ensures
            step@ == StepView::of_months(-1),
    {
        Step::months(-1)
    }

    pub fn days(amount: i64) -> (step: Step)
        requires
            -MOST_DAYS <= amount <= MOST_DAYS,
        ensures
            step@ == StepView::of_days(amount as int),
    {
        Step { amount, unit: Unit::Days }
    }

    pub fn months(amount: i64) -> (step: Step)
        ensures
            step@ == StepView::of_months(amount as int),
    {
        Step { amount, unit: Unit::Months }
    }

    /// The date `from` steps to, or `None` where the calendar runs out.
    ///
    /// A month step holds the day to the month it lands in: the 31st of a
    /// month stepping onto a thirty-day one has nowhere else to go, and
    /// stepping back from there does not return to the 31st.
    pub fn apply(self, from: Date) -> (to: Option<Date>)
        ensures
            match to {
                Some(to) => self@.from(from@) == Some(to@) && to@.valid(),
                None => self@.from(from@) is None,
            },
    {
        proof {
            use_type_invariant(&self);
        }
        match self.unit {
            Unit::Days => from.add_days(self.amount),
            Unit::Months => {
                let wide: i128 = self.amount as i128;
                let size: i128 = if wide < 0 {
                    -wide
                } else {
                    wide
                };
                let year: i32 = from.year();
                if size > u32::MAX as i128 {
                    // Further off than the calendar runs from any year.
                    proof {
                        assert(year == from@.year);
                        assert(!from@.months_on(self.amount as int).valid());
                    }
                    return None;
                }
                if self.amount < 0 {
                    from.sub_months(size as u32)
                } else {
                    from.add_months(size as u32)
                }
            },
        }
    }

    /// Which way, which is all a selector takes.
    pub fn direction(self) -> (way: isize)
        ensures
            way == self@.direction(),
    {
        if self.amount < 0 {
            -1
        } else if self.amount > 0 {
            1
        } else {
            0
        }
    }
}

/// Which step an arrow press stands for: `week` while `Shift` is held, `day`
/// otherwise.
///
/// Every handler that answers an arrow reads the modifier through this, so
/// `Shift` cannot come to mean a week in one place and nothing in another.
pub fn week_step(key: KeyEvent, week: Step, day: Step) -> (step: Step)
    ensures
        step == (if key.modifiers.shift {
            week
        } else {
            day
        }),
{
    if key.modifiers.shift {
        week
    } else {
        day
    }
}

/// Stepping a date some days one way and as many the other returns to it.
pub proof fn a_day_step_is_undone_by_its_opposite(date: DateView, amount: int)
    requires
        date.valid(),
        StepView::of_days(amount).from(date) is Some,
    ensures
        StepView::of_days(-amount).from(StepView::of_days(amount).from(date)->0) == Some(date),
{
    days_on_and_back(date, amount);
}

/// A week step is seven day steps.
pub proof fn a_week_is_seven_days(date: DateView)
    requires
        date.valid(),
        StepView::of_days(WEEK as int).from(date) is Some,
    ensures
        ({
            let day = StepView::of_days(1);
            let one = day.from(date)->0;
            let two = day.from(one)->0;
            let three = day.from(two)->0;
            let four = day.from(three)->0;
            let five = day.from(four)->0;
            let six = day.from(five)->0;
            day.from(six) == StepView::of_days(WEEK as int).from(date)
        }),
{
    crate::date::the_calendar_has_its_ends(date);
    crate::date::every_number_is_a_day(date.day_number() + 1);
    crate::date::every_number_is_a_day(date.day_number() + 2);
    crate::date::every_number_is_a_day(date.day_number() + 3);
    crate::date::every_number_is_a_day(date.day_number() + 4);
    crate::date::every_number_is_a_day(date.day_number() + 5);
    crate::date::every_number_is_a_day(date.day_number() + 6);
}

/// A month step keeps the day wherever the month it lands in has it, and a
/// step on from a day every month has is undone by the step back.
pub proof fn a_month_step_keeps_a_day_every_month_has(date: DateView, amount: int)
    requires
        date.valid(),
        date.day <= 28,
        StepView::of_months(amount).from(date) is Some,
    ensures
        (StepView::of_months(amount).from(date)->0).day == date.day,
        StepView::of_months(-amount).from(StepView::of_months(amount).from(date)->0) == Some(date),
{
}

/// A day step lands on the day that many days on, and is refused only where
/// the calendar has no such day; a month step lands in the month that many
/// months on, and is refused only where the calendar has no such month.
pub proof fn a_step_lands_as_far_as_it_says(date: DateView, amount: int)
    requires
        date.valid(),
    ensures
        match StepView::of_days(amount).from(date) {
            Some(to) => to.valid() && to.day_number() == date.day_number() + amount,
            None => forall|to: DateView|
                #![trigger to.valid()]
                to.valid() ==> to.day_number() != date.day_number() + amount,
        },
        match StepView::of_months(amount).from(date) {
            Some(to) => to.valid() && 12 * to.year + to.month == 12 * date.year + date.month
                + amount && (to.day == date.day || (to.day < date.day && to.day
                == crate::date::days_in_month(to.year, to.month))),
            None => forall|to: DateView|
                #![trigger to.valid()]
                to.valid() ==> 12 * to.year + to.month != 12 * date.year + date.month + amount,
        },
        amount < 0 ==> StepView::of_days(amount).direction() == -1 && StepView::of_months(
            amount,
        ).direction() == -1,
        amount > 0 ==> StepView::of_days(amount).direction() == 1 && StepView::of_months(
            amount,
        ).direction() == 1,
{
    if date.reaches(amount) {
        crate::date::days_on_counts_the_days(date, amount);
    } else {
        assert forall|to: DateView| #[trigger] to.valid() implies to.day_number()
            != date.day_number() + amount by {
            crate::date::the_calendar_has_its_ends(to);
        }
    }
}

} // verus!
