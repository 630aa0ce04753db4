//! The writes that are asked about before they are made.

use crate::date::{Date, DateView};
use crate::ids::{
    AllocationId, BatchId, BillId, GoalId, HoldingId, RecurringGoalId, RecurringTxnId, TxnId,
};
use crate::money::{sum, sums_fit, Cents};
use crate::posting::{amounts, shares_total};
use crate::said::{self, PieceView, Said};
use crate::text::{decimal, write_number};
use vstd::prelude::*;
use vstd::string::*;

verus! {

/// A write waiting for a `y`.
#[derive(Copy, Clone, Debug, PartialEq, Eq, Structural)]
pub enum Confirm {
    DeleteTxn(TxnId),
    DeleteBill(BillId),
    DeleteHolding(HoldingId),
    DeleteRecurringTxn(RecurringTxnId),
    DeleteRecurringGoal(RecurringGoalId),
    DeleteAllocation(AllocationId),
    UndoBatch(BatchId),
}

impl Confirm {
    /// What a cancel says.
    pub open spec fn refusal(self) -> Seq<char> {
        if self is UndoBatch {
            "undo cancelled"@
        } else {
            "delete cancelled"@
        }
    }

    pub fn cancelled(self) -> (status: &'static str)
        ensures
            status@ == self.refusal(),
    {
        match self {
            Confirm::UndoBatch(_) => "undo cancelled",
            _ => "delete cancelled",
        }
    }
}

/// The words a posting is asked about in: what it was, when, and what it came
/// to.
pub open spec fn batch_words(kind: Seq<char>, date: DateView, goals: int, all: Cents) -> Seq<
    PieceView,
> {
    said::words(kind) + said::words(" "@) + said::words(date.iso()) + said::words(" · "@)
        + said::words(decimal(goals)) + said::words(" goals · "@) + said::amount(all)
}

/// A posting as the question about undoing it names it.
pub fn batch_label(kind: &str, date: Date, goals: usize, all: Cents) -> (label: Said)
    ensures
        label@ == batch_words(kind@, date@, goals as int, all),
{
    Said::of(kind).words(" ").words(&date.iso()).words(" · ").words(
        &write_number(goals as u64),
    ).words(" goals · ").amount(all)
}

/// A posting as it was written: one batch, and what it gave each goal.
#[derive(Debug)]
pub struct Batch {
    pub id: BatchId,
    pub kind: String,
    pub date: Date,
    pub shares: Vec<(GoalId, Cents)>,
}

/// The question about undoing the last posting, and a refusal where there is
/// none.
pub fn undo_question(batch: &Option<Batch>) -> (question: Result<(Confirm, Said), &'static str>)
    requires
        batch matches Some(batch) ==> sums_fit(amounts(batch.shares@)),
    ensures
        match (batch, question) {
            (Some(batch), Ok((action, label))) => {
                &&& action == Confirm::UndoBatch(batch.id)
                &&& label@ == batch_words(
                    batch.kind@,
                    batch.date@,
                    batch.shares@.len() as int,
                    Cents(sum(amounts(batch.shares@)) as i64),
                )
            },
            (None, Err(why)) => why@ == "nothing to undo"@,
            _ => false,
        },
{
    match batch {
        Some(batch) => match shares_total(&batch.shares) {
            Some(all) => Ok(
                (
                    Confirm::UndoBatch(batch.id),
                    batch_label(batch.kind.as_str(), batch.date, batch.shares.len(), all),
                ),
            ),
            None => Err("nothing to undo"),
        },
        None => Err("nothing to undo"),
    }
}

/// What is refused is named for what was asked: an undo, or a deletion.
pub proof fn a_refusal_names_what_was_asked(action: Confirm)
    ensures
        action is UndoBatch ==> action.refusal() == "undo cancelled"@,
        !(action is UndoBatch) ==> action.refusal() == "delete cancelled"@,
{
}

/// A batch is asked about by its kind, its date, how many goals it holds and
/// what it comes to.
pub proof fn a_batch_is_asked_about_in_full(
    kind: Seq<char>,
    date: DateView,
    goals: int,
    all: Cents,
)
    ensures
        batch_words(kind, date, goals, all) == said::words(kind) + said::words(" "@) + said::words(
            date.iso(),
        ) + said::words(" · "@) + said::words(decimal(goals)) + said::words(" goals · "@)
            + said::amount(all),
{
}

} // verus!
