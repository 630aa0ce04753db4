//! What a form wrote, and what the status line says of it.

use crate::date::{Date, DateView};
use crate::ids::GoalId;
use crate::ledger::{describe, described};
use crate::money::Cents;
use crate::picker::{created_status, created_words};
use crate::planning::{bill_status, priced_words, saved_status, saved_words};
use crate::recurring::Extended;
use crate::said::{self, PieceView, Said};
use crate::savings::{
    allocated_status, allocated_words, closed_status, moved_status, moved_words, posted_status,
    posted_words,
};
use vstd::prelude::*;
use vstd::string::*;

verus! {

/// A write that was made. `edited` tells a row rewritten from one added.
#[derive(Debug)]
#[allow(inconsistent_fields)]
pub enum Written {
    Txn { edited: bool, description: String, cents: Cents, date: Date },
    /// Both legs of a transfer or of a card payment.
    Transfer { description: String, cents: Cents, date: Date },
    Allocation { cents: Cents },
    /// An allocation rewritten from its goal's history.
    Correction { cents: Cents },
    Goal { edited: bool, name: String },
    GoalTransfer { cents: Cents },
    /// A goal ended, its value moved to another or back to the pot.
    CloseOut { to: Option<GoalId> },
    /// A constant of the plan.
    Constant { label: String },
    Bill { label: String, cents: Cents },
    RecurringTxn { edited: bool, description: String },
    RecurringGoal { edited: bool, name: String },
    Account { edited: bool, name: String },
    Holding { edited: bool, ticker: String, balance: Cents },
    /// A worksheet, posted over so many goals.
    Posting { total: Cents, goals: usize },
    /// So many goals made from the catalog.
    Goals { created: usize },
    /// A rule's rows written again, as the report says.
    Regenerated { description: String, report: String },
    RegeneratedEvery { report: String },
    Extended { description: String, extended: Extended },
    Paycheck { description: String },
}

/// Whether a row was rewritten or added.
pub open spec fn verb(edited: bool) -> Seq<char> {
    if edited {
        "updated "@
    } else {
        "added "@
    }
}

fn write_verb(edited: bool) -> (text: &'static str)
    ensures
        text@ == verb(edited),
{
    if edited {
        "updated "
    } else {
        "added "
    }
}

/// What was moved, how much, and for which day.
///
/// The day is named whatever it is: a row can be written without a keystroke
/// ever visiting its date, and this is the only place the day it landed on
/// appears.
pub open spec fn dated_words(description: Seq<char>, cents: Cents, date: DateView) -> Seq<
    PieceView,
> {
    described(description) + said::words(" "@) + said::amount(cents) + said::words(" on "@)
        + said::words(date.iso())
}

fn write_dated(description: &str, cents: Cents, date: Date) -> (said: Said)
    ensures
        said@ == dated_words(description@, cents, date@),
{
    describe(description).words(" ").amount(cents).words(" on ").words(&date.iso())
}

impl Written {
    /// The words a write is reported in.
    pub open spec fn words(self) -> Seq<PieceView> {
        match self {
            Written::Txn { edited, description, cents, date } => said::words(verb(edited))
                + dated_words(description@, cents, date@),
            Written::Transfer { description, cents, date } => dated_words(
                description@,
                cents,
                date@,
            ),
            Written::Allocation { cents } => allocated_words(cents),
            Written::Correction { cents } => said::words("allocation saved · "@) + said::amount(
                cents,
            ),
            Written::Goal { edited, name } => said::words(
                if edited {
                    "updated "@
                } else {
                    "created "@
                },
            ) + said::name(name@),
            Written::GoalTransfer { cents } => moved_words(cents),
            Written::CloseOut { to } => said::words(
                if to is Some {
                    "closed, value moved · U undoes the last batch, not this"@
                } else {
                    "closed, value returned to unallocated · U undoes the last batch, not this"@
                },
            ),
            Written::Constant { label } => saved_words(label@),
            Written::Bill { label, cents } => priced_words(label@, " "@, cents),
            Written::RecurringTxn { edited, description } => said::words(verb(edited))
                + said::name(description@) + said::words(" · g generates its rows"@),
            Written::RecurringGoal { edited, name } => said::words(verb(edited)) + said::name(
                name@,
            ),
            Written::Account { edited, name } => said::name(name@) + said::words(
                if edited {
                    " saved"@
                } else {
                    " added"@
                },
            ),
            Written::Holding { edited, ticker, balance } => said::words(verb(edited)) + said::name(
                ticker@,
            ) + said::words(" "@) + said::whole_amount(balance),
            Written::Posting { total, goals } => posted_words(total, goals as int),
            Written::Goals { created } => created_words(created as int),
            Written::Regenerated { description, report } => said::name(description@) + said::words(
                ": "@,
            ) + said::words(report@),
            Written::RegeneratedEvery { report } => said::words("every recurring transaction: "@)
                + said::words(report@),
            Written::Extended { description, extended } => extended.words(description@),
            Written::Paycheck { description } => said::name(description@) + said::words(
                " is now the paycheck transaction"@,
            ),
        }
    }

    /// The day the next row is entered for: that of a row added, and of a
    /// transfer, both of whose legs are new rows.
    ///
    /// Not that of a row edited, which is a correction rather than a statement
    /// about the day being worked on.
    pub open spec fn entered(self) -> Option<DateView> {
        match self {
            Written::Txn { edited: false, date, .. } => Some(date@),
            Written::Transfer { date, .. } => Some(date@),
            _ => None,
        }
    }

    /// The day the next row is entered for, where this write says so.
    pub fn entry_date(&self) -> (date: Option<Date>)
        ensures
            match date {
                Some(date) => self.entered() == Some(date@),
                None => self.entered() is None,
            },
    {
        match self {
            Written::Txn { edited, date, .. } => if *edited {
                None
            } else {
                Some(*date)
            },
            Written::Transfer { date, .. } => Some(*date),
            _ => None,
        }
    }

    /// What the status line says of the write.
    pub fn status(&self) -> (status: Said)
        ensures
            status@ == self.words(),
    {
        match self {
            Written::Txn { edited, description, cents, date } => Said::of(
                write_verb(*edited),
            ).join(&write_dated(description, *cents, *date)),
            Written::Transfer { description, cents, date } => write_dated(
                description,
                *cents,
                *date,
            ),
            Written::Allocation { cents } => allocated_status(*cents),
            Written::Correction { cents } => Said::of("allocation saved · ").amount(*cents),
            Written::Goal { edited, name } => if *edited {
                Said::of("updated ").name(name)
            } else {
                Said::of("created ").name(name)
            },
            Written::GoalTransfer { cents } => moved_status(*cents),
            Written::CloseOut { to } => Said::of(closed_status(*to)),
            Written::Constant { label } => saved_status(label),
            Written::Bill { label, cents } => bill_status(label, *cents),
            Written::RecurringTxn { edited, description } => Said::of(write_verb(*edited)).name(
                description,
            ).words(" · g generates its rows"),
            Written::RecurringGoal { edited, name } => Said::of(write_verb(*edited)).name(name),
            Written::Account { edited, name } => if *edited {
                Said::of_name(name).words(" saved")
            } else {
                Said::of_name(name).words(" added")
            },
            Written::Holding { edited, ticker, balance } => Said::of(write_verb(*edited)).name(
                ticker,
            ).words(" ").whole_amount(*balance),
            Written::Posting { total, goals } => posted_status(*total, *goals),
            Written::Goals { created } => created_status(*created),
            Written::Regenerated { description, report } => Said::of_name(description).words(
                ": ",
            ).words(report),
            Written::RegeneratedEvery { report } => Said::of(
                "every recurring transaction: ",
            ).words(report),
            Written::Extended { description, extended } => extended.status(description),
            Written::Paycheck { description } => Said::of_name(description).words(
                " is now the paycheck transaction",
            ),
        }
    }
}

/// A row entered into a ledger says the day it was entered on; a row edited
/// stays where the cursor was, and so does everything that is no ledger row.
pub proof fn only_a_new_row_moves_the_ledger(written: Written)
    ensures
        written matches Written::Txn { edited, date, .. } ==> written.entered() == (if edited {
            None
        } else {
            Some(date@)
        }),
        written matches Written::Transfer { date, .. } ==> written.entered() == Some(date@),
        !(written is Txn) && !(written is Transfer) ==> written.entered() is None,
{
}

/// What was edited is told from what was added.
pub proof fn an_edit_is_told_from_an_addition()
    ensures
        verb(true) == "updated "@,
        verb(false) == "added "@,
{
}

} // verus!
