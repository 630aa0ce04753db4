//! What may be open above a screen, and what is asked of the outside.

use crate::confirm::Confirm;
use crate::destination::{Chooser, ChooserView};
use crate::form::{Form, FormFields, FormView};
use crate::history::{History, HistoryView};
use crate::ids::{
    AccountId, AllocationId, BillId, GoalId, HoldingId, RecurringGoalId, RecurringTxnId, TxnId,
};
use crate::ledger::Kind;
use crate::money::Cents;
use crate::payday::{TransferConfirm, TransfersView};
use crate::picker::{Picker, PickerView};
use crate::plan_line::Line;
use crate::planning::Target;
use crate::said::{PieceView, Said};
use crate::screen::{Move, Topic};
use crate::search::Search;
use crate::value_form::{ValueForm, ValueFormView};
use crate::worksheet::{Sheet, SheetOp, SheetView};
use vstd::prelude::*;
use vstd::string::*;

verus! {

/// What a form writes.
#[derive(Copy, Clone, Debug, PartialEq, Eq, Structural)]
pub enum Purpose {
    Txn(Option<TxnId>),
    Transfer,
    Payment,
    Allocation(GoalId),
    Goal(Option<GoalId>),
    CloseOut(GoalId),
    GoalTransfer(GoalId),
    Bill(Option<BillId>),
    RecurringTxn(Option<RecurringTxnId>),
    RecurringGoal(Option<RecurringGoalId>),
    Account(Option<AccountId>),
    Holding(Option<HoldingId>),
    /// The owner's date of birth, which the fund targets are worked out from.
    BirthDate,
}

/// What is open above the screen, taking every key.
#[derive(Debug)]
#[allow(inconsistent_fields)]
pub enum Modal {
    /// A question, and what it is about.
    Confirm { action: Confirm, label: Said },
    Form { purpose: Purpose, form: Form },
    /// A constant of the plan being typed.
    Value { target: Target, form: ValueForm },
    /// What a statement says an account holds.
    Reconcile { account: AccountId, form: ValueForm },
    Worksheet(Sheet),
    Picker(Picker),
    Destination(Chooser),
    /// A panel of lines under a title.
    Details(&'static str, Vec<String>),
    Transfers(TransferConfirm),
    History(History),
}

/// What a [`Modal`] stands for.
#[allow(inconsistent_fields)]
pub enum ModalView {
    Confirm { action: Confirm, label: Seq<PieceView> },
    Form { purpose: Purpose, form: FormView },
    Value { target: Target, form: ValueFormView },
    Reconcile { account: AccountId, form: ValueFormView },
    Worksheet(SheetView),
    Picker(PickerView),
    Destination(ChooserView),
    Details(Seq<char>, Seq<String>),
    Transfers(TransfersView),
    History(HistoryView),
}

impl ModalView {
    /// Everything inside holds together.
    pub open spec fn valid(self) -> bool {
        match self {
            ModalView::Form { form, .. } => form.valid(),
            ModalView::Worksheet(sheet) => sheet.lines.settled(),
            ModalView::Picker(picker) => picker.valid(),
            ModalView::Destination(chooser) => chooser.list.settled(),
            ModalView::History(history) => history.valid(),
            _ => true,
        }
    }

    /// What the live keys are about.
    pub open spec fn topic(self) -> Topic {
        match self {
            ModalView::Confirm { .. } => Topic::Confirm,
            ModalView::Form { form, .. } => if form.description is Some {
                Topic::SuggestForm
            } else {
                Topic::Form
            },
            ModalView::Value { .. } => Topic::Form,
            ModalView::Reconcile { .. } => Topic::Form,
            ModalView::Worksheet(sheet) => sheet.topic(),
            ModalView::Picker(_) => Topic::Picker,
            ModalView::Destination(chooser) => if chooser.list.search.open {
                Topic::DestinationSearch
            } else {
                Topic::Destination
            },
            ModalView::Details(_, _) => Topic::Details,
            ModalView::Transfers(_) => Topic::PlanTransfers,
            ModalView::History(history) => history.topic(),
        }
    }
}

impl View for Modal {
    type V = ModalView;

    open spec fn view(&self) -> ModalView {
        match self {
            Modal::Confirm { action, label } => ModalView::Confirm {
                action: *action,
                label: label@,
            },
            Modal::Form { purpose, form } => ModalView::Form { purpose: *purpose, form: form@ },
            Modal::Value { target, form } => ModalView::Value { target: *target, form: form@ },
            Modal::Reconcile { account, form } => ModalView::Reconcile {
                account: *account,
                form: form@,
            },
            Modal::Worksheet(sheet) => ModalView::Worksheet(sheet@),
            Modal::Picker(picker) => ModalView::Picker(picker@),
            Modal::Destination(chooser) => ModalView::Destination(chooser@),
            Modal::Details(title, lines) => ModalView::Details(title@, lines@),
            Modal::Transfers(confirm) => ModalView::Transfers(confirm@),
            Modal::History(history) => ModalView::History(history@),
        }
    }
}

impl Modal {
    /// What the live keys are about.
    pub fn topic(&self) -> (topic: Topic)
        ensures
            topic == self@.topic(),
    {
        match self {
            Modal::Confirm { .. } => Topic::Confirm,
            Modal::Form { form, .. } => if form.suggests() {
                Topic::SuggestForm
            } else {
                Topic::Form
            },
            Modal::Value { .. } => Topic::Form,
            Modal::Reconcile { .. } => Topic::Form,
            Modal::Worksheet(sheet) => sheet.topic(),
            Modal::Picker(_) => Topic::Picker,
            Modal::Destination(chooser) => if chooser.is_searching() {
                Topic::DestinationSearch
            } else {
                Topic::Destination
            },
            Modal::Details(_, _) => Topic::Details,
            Modal::Transfers(_) => Topic::PlanTransfers,
            Modal::History(history) => history.topic(),
        }
    }
}

/// Where the ledgers' cursors go once their rows have been read again.
#[derive(Copy, Clone, Debug, PartialEq, Eq, Structural)]
pub enum Anchor {
    /// They stay at their index, which is what a write wants.
    Keep,
    /// The ledger on screen goes back to today: its old index means nothing
    /// against rows nobody has seen.
    Active,
    /// Both do.
    Both,
}

/// What is to be opened, once what it shows has been read.
#[derive(Copy, Clone, Debug, PartialEq, Eq, Structural)]
pub enum Opening {
    /// A new ledger row, on the account the ledger is narrowed to.
    Txn { kind: Kind, account: Option<AccountId> },
    TxnEdit(TxnId),
    Transfer,
    Payment,
    Allocation(GoalId),
    Payday(AccountId),
    Interest(AccountId),
    GoalTransfer { goal: GoalId, container: AccountId },
    GoalEdit(GoalId),
    CloseOut { goal: GoalId, container: AccountId },
    NewGoal(AccountId),
    Undo,
    History { goal: GoalId, container: AccountId },
    HistoryEdit(AllocationId),
    Bill(Option<BillId>),
    BillDelete(BillId),
    Destination(Line),
    Transfers,
    Holding { editing: Option<HoldingId>, account: Option<AccountId> },
    RecurringTxn(Option<RecurringTxnId>),
    RecurringGoal(Option<RecurringGoalId>),
    RecurringGoalDelete(RecurringGoalId),
    /// The picker, over the catalog entries of a month or of all.
    Seed { container: AccountId, month: Option<i64> },
    Account(Option<AccountId>),
    /// The prompt for a date of birth that is not on record.
    BirthDate,
    /// The worksheet at the head of the queue.
    NextSheet,
}

/// What a key asks of the outside: something only the store, the network or
/// the clock can answer.
#[derive(Copy, Clone, Debug, PartialEq, Eq, Structural)]
pub enum Request {
    Nothing,
    /// Read everything again.
    Reload(Anchor),
    /// Read again what is quoted at the scrubbed date.
    Reprice,
    /// Look for what the text under the caret may complete to.
    Suggest,
    Open(Opening),
    /// Write what is open.
    Commit,
    /// Make the write that was confirmed.
    Write(Confirm),
    /// Point a line of the plan at a goal, or at none.
    Point(Line, Option<GoalId>),
    Reorder { goal: GoalId, container: AccountId, way: Move },
    Favorite { goal: GoalId, favorite: bool },
    Pin(Cents),
    Unpin,
    /// Read which tickers any holding names.
    Tickers,
    Regenerate(RecurringTxnId),
    RegenerateEvery,
    Extend(RecurringTxnId),
    MakePaycheck(RecurringTxnId),
    /// Carry out a key on the figures of the open worksheet.
    Operate(SheetOp),
}

} // verus!
