//! The identities rows are known by.

use vstd::prelude::*;

verus! {

/// An account's row id.
#[derive(Copy, Clone, Debug, PartialEq, Eq, Structural)]
pub struct AccountId(pub i64);

/// A savings goal's row id.
#[derive(Copy, Clone, Debug, PartialEq, Eq, Structural)]
pub struct GoalId(pub i64);

/// A ledger row's id.
#[derive(Copy, Clone, Debug, PartialEq, Eq, Structural)]
pub struct TxnId(pub i64);

/// A bill's row id.
#[derive(Copy, Clone, Debug, PartialEq, Eq, Structural)]
pub struct BillId(pub i64);

/// A holding's row id.
#[derive(Copy, Clone, Debug, PartialEq, Eq, Structural)]
pub struct HoldingId(pub i64);

/// A recurring transaction's row id.
#[derive(Copy, Clone, Debug, PartialEq, Eq, Structural)]
pub struct RecurringTxnId(pub i64);

/// A recurring goal's row id.
#[derive(Copy, Clone, Debug, PartialEq, Eq, Structural)]
pub struct RecurringGoalId(pub i64);

/// The row id of one allocation to a goal.
#[derive(Copy, Clone, Debug, PartialEq, Eq, Structural)]
pub struct AllocationId(pub i64);

/// The id a posting's allocations share.
#[derive(Copy, Clone, Debug, PartialEq, Eq, Structural)]
pub struct BatchId(pub i64);

} // verus!
