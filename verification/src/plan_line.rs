//! The lines the plan splits a paycheck into.

use vstd::prelude::*;
use vstd::string::*;

verus! {

/// One line of the plan.
#[derive(Copy, Clone, Debug, PartialEq, Eq, Structural)]
pub enum Line {
    Bills,
    CurrentHousing,
    Roth,
    EmergencyFund,
    MomAndDad,
    FutureHousing,
    Retirement,
    Investment,
    /// What is left over, spread across the goals no other line names.
    Goals,
}

/// What kind of thing a line's money lands in.
#[derive(Copy, Clone, Debug, PartialEq, Eq, Structural)]
pub enum Destination {
    /// A goal the owner points the line at.
    Goal,
    /// An account, whatever goals it holds.
    Account,
    /// Every goal no other line names.
    Spread,
}

impl Line {
    /// The line's own word for itself.
    pub open spec fn word(self) -> Seq<char> {
        match self {
            Line::Bills => "Bills"@,
            Line::CurrentHousing => "Housing"@,
            Line::Roth => "Roth"@,
            Line::EmergencyFund => "Emergency Fund"@,
            Line::MomAndDad => "Mom & Dad"@,
            Line::FutureHousing => "Future Housing"@,
            Line::Retirement => "Retirement"@,
            Line::Investment => "Investment"@,
            Line::Goals => "Goals"@,
        }
    }

    /// Where the line's money lands.
    pub open spec fn lands_in(self) -> Destination {
        match self {
            Line::Retirement | Line::Investment => Destination::Account,
            Line::Goals => Destination::Spread,
            _ => Destination::Goal,
        }
    }

    pub fn label(self) -> (label: &'static str)
        ensures
            label@ == self.word(),
    {
        match self {
            Line::Bills => "Bills",
            Line::CurrentHousing => "Housing",
            Line::Roth => "Roth",
            Line::EmergencyFund => "Emergency Fund",
            Line::MomAndDad => "Mom & Dad",
            Line::FutureHousing => "Future Housing",
            Line::Retirement => "Retirement",
            Line::Investment => "Investment",
            Line::Goals => "Goals",
        }
    }

    pub fn destination(self) -> (destination: Destination)
        ensures
            destination == self.lands_in(),
    {
        match self {
            Line::Retirement | Line::Investment => Destination::Account,
            Line::Goals => Destination::Spread,
            _ => Destination::Goal,
        }
    }
}

/// Only the two lines that save outside the goals name an account, only what
/// is left over is spread, and every other line lands on a goal.
pub proof fn each_line_lands_where_its_money_goes(line: Line)
    ensures
        line.lands_in() is Account <==> line is Retirement || line is Investment,
        line.lands_in() is Spread <==> line is Goals,
        line.lands_in() is Goal <==> line is Bills || line is CurrentHousing || line is Roth
            || line is EmergencyFund || line is MomAndDad || line is FutureHousing,
{
}

/// No two lines go by one word, so a status line that names one names only
/// it.
pub proof fn each_line_has_a_word_of_its_own(one: Line, other: Line)
    requires
        one != other,
    ensures
        one.word() != other.word(),
{
    reveal_strlit("Bills");
    reveal_strlit("Housing");
    reveal_strlit("Roth");
    reveal_strlit("Emergency Fund");
    reveal_strlit("Mom & Dad");
    reveal_strlit("Future Housing");
    reveal_strlit("Retirement");
    reveal_strlit("Investment");
    reveal_strlit("Goals");
    assert(one.word().len() != other.word().len() || one.word()[0] != other.word()[0]);
}

} // verus!
