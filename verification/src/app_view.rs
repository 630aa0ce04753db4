//! What the application stands for, and what every key leaves of it.
//!
//! A key is answered from the top down: the help panel, the keys that open
//! it, whatever is open above the screen, the box open over the screen, the
//! app-wide keys, and last the screen's own.

use crate::accounts::{accounts_pressed, AccountRow, AccountsVerb};
use crate::autocomplete::PopupView;
use crate::date::{Date, DateView};
use crate::destination::{Choice, ChooserView};
use crate::form::FormView;
use crate::form_keys::{arrow_step, form_pressed, FormVerb};
use crate::funds::{compositions, refresh_reply, Class, FundRow, FundsVerb, FundsView, Mix};
use crate::help::HelpView;
use crate::history::{HistoryRow, HistoryVerb, HistoryView, ModeView};
use crate::ids::{AccountId, GoalId};
use crate::key::{KeyCode, KeyEvent};
use crate::label::{name_among, Account};
use crate::ledger::{ids_of, reconciled, Kind, LedgerRow, LedgerVerb, LedgerView};
use crate::modal::{Anchor, ModalView, Opening, Purpose, Request};
use crate::money::{BasisPoints, Cents};
use crate::payday::{PrefillView, TransfersVerb, TransfersView};
use crate::picker::{PickerVerb, PickerView};
use crate::planning::{
    pointed_words, unpointable, value_form_of, Editable, Plan, PlanningVerb, PlanningView, Target,
};
use crate::recurring::{
    txns_pressed, MonthFilter, RecurringGoalRow, RecurringGoalVerb, RecurringGoalsView, RecurringTxnRow,
    RecurringTxnVerb,
};
use crate::said::{self, PieceView};
use crate::savings::{SavingsRow, SavingsVerb, SavingsView};
use crate::screen::{Screen, Topic};
use crate::search::{raw, ListingView, SearchView, SpanView, Unfiltered};
use crate::text::{decimal, quoted};
use crate::value_form::{slot_text, ValueFormView};
use crate::written::Written;
use crate::worksheet::{shared, BatchKind, SheetLine, SheetVerb, SheetView};
use crate::confirm::Confirm;
use crate::cursor::{is_scroll, Viewport};
use crate::field::DateFieldView;
use vstd::prelude::*;
use vstd::string::*;

verus! {

/// How long a status message holds the footer, in milliseconds.
///
/// Long enough to read a count or a parse error, short enough that the keys
/// are back before the next thing is typed.
pub const STATUS_TTL: u64 = 4000;

/// What the application stands for.
pub struct AppView {
    pub today: DateView,
    /// The date the middle column of the overview is derived from.
    pub baseline: DateView,
    /// The same date as it has been scrubbed to. Nothing stores it.
    pub adhoc: DateView,
    /// The date the last row added was written for.
    pub entry_date: Option<DateView>,
    pub screen: Screen,
    pub cash: LedgerView,
    pub credit: LedgerView,
    pub savings: SavingsView,
    pub planning: PlanningView,
    pub funds: FundsView,
    pub recurring_txns: ListingView<RecurringTxnRow>,
    pub recurring_goals: RecurringGoalsView,
    pub accounts: ListingView<AccountRow>,
    pub popup: PopupView,
    pub modal: Option<ModalView>,
    /// Worksheets waiting to open, in order.
    pub queue: Seq<PrefillView>,
    pub help: Option<HelpView>,
    pub status: Seq<PieceView>,
    /// When the message stops being shown.
    pub until: Option<int>,
    pub quit: bool,
    /// Whether there is a contact to give to whoever publishes what funds are
    /// made of.
    pub contact: bool,
    /// Tickers to refresh once the screen has been drawn.
    pub deferred: Option<Seq<String>>,
}

/// A count of days with its sign in front, either way.
pub open spec fn signed_days(days: int) -> Seq<char> {
    if days < 0 {
        "-"@ + decimal(-days)
    } else {
        "+"@ + decimal(days)
    }
}

/// What scrubbing to a drift says.
pub open spec fn drift_words(drift: int) -> Seq<char> {
    if drift == 0 {
        "back to Paycheck-Eve"@
    } else {
        "scrubbed "@ + signed_days(drift) + "d"@
    }
}

impl AppView {
    /// The two ledgers are the two kinds', every list draws what its filters
    /// leave, and what is open holds together.
    pub open spec fn valid(self) -> bool {
        &&& self.cash.kind is Cash
        &&& self.cash.list.settled()
        &&& self.credit.kind is Credit
        &&& self.credit.list.settled()
        &&& self.savings.list.settled()
        &&& self.planning.list.settled()
        &&& self.funds.list.settled()
        &&& self.recurring_txns.settled()
        &&& self.recurring_goals.list.settled()
        &&& self.accounts.settled()
        &&& (self.modal matches Some(modal) ==> modal.valid())
    }

    pub open spec fn said(self, status: Seq<PieceView>) -> AppView {
        AppView { status, ..self }
    }

    /// Something said in the application's own words alone.
    pub open spec fn told(self, status: Seq<char>) -> AppView {
        self.said(said::words(status))
    }

    /// What a key that acts on a row says when there is none.
    pub open spec fn nothing_selected(self) -> AppView {
        self.told("nothing selected"@)
    }

    pub open spec fn opened(self, modal: ModalView) -> AppView {
        AppView { modal: Some(modal), ..self }
    }

    /// What is open, with what a key left of it and of the suggestions.
    pub open spec fn held(self, modal: ModalView, popup: PopupView) -> AppView {
        AppView { modal: Some(modal), popup, ..self }
    }

    /// What is open taken up, to be put back as its key leaves it.
    pub open spec fn taken(self) -> AppView {
        AppView { modal: None, ..self }
    }

    pub open spec fn closed(self) -> AppView {
        AppView { modal: None, popup: PopupView::closed(), ..self }
    }

    /// Which of the two ledgers is on screen.
    pub open spec fn ledger(self) -> LedgerView {
        if self.screen is Credit {
            self.credit
        } else {
            self.cash
        }
    }

    pub open spec fn with_ledger(self, ledger: LedgerView) -> AppView {
        if self.screen is Credit {
            AppView { credit: ledger, ..self }
        } else {
            AppView { cash: ledger, ..self }
        }
    }

    pub open spec fn kind(self) -> Kind {
        if self.screen is Credit {
            Kind::Credit
        } else {
            Kind::Cash
        }
    }

    /// The box over the screen, while one is open.
    pub open spec fn open_box(self) -> Option<SearchView> {
        let search = match self.screen {
            Screen::Cash | Screen::Credit => Some(self.ledger().list.search),
            Screen::Savings => Some(self.savings.list.search),
            Screen::Funds => Some(self.funds.list.search),
            Screen::RecurringGoals => Some(self.recurring_goals.list.search),
            _ => None,
        };
        match search {
            Some(search) => if search.open {
                Some(search)
            } else {
                None
            },
            None => None,
        }
    }

    /// What the live keys are about: whatever is open wins over the screen it
    /// is drawn on, because it takes every key, and a box open over the screen
    /// wins over the screen's own operators.
    pub open spec fn topic(self) -> Topic {
        match self.modal {
            Some(modal) => modal.topic(),
            None => {
                let searching = self.open_box() is Some;
                match self.screen {
                    Screen::Overview => Topic::Overview,
                    Screen::Cash | Screen::Credit => if searching {
                        Topic::LedgerSearch
                    } else {
                        Topic::Ledger
                    },
                    Screen::Savings => if searching {
                        Topic::SavingsSearch
                    } else {
                        Topic::Savings
                    },
                    Screen::Planning => Topic::Planning,
                    Screen::Funds => if searching {
                        Topic::FundsSearch
                    } else {
                        Topic::Funds
                    },
                    Screen::RecurringGoals => if searching {
                        Topic::RecurringGoalsSearch
                    } else {
                        Topic::RecurringGoals
                    },
                    Screen::RecurringTxns => Topic::RecurringTxns,
                    Screen::Accounts => Topic::Accounts,
                }
            },
        }
    }

    /// How far the view has been scrubbed from the date it was derived from.
    pub open spec fn drift(self) -> int {
        self.adhoc.day_number() - self.baseline.day_number()
    }

    /// Both ledgers on the month the one on screen is on.
    pub open spec fn synced(self) -> AppView {
        let window = self.ledger().window;
        AppView {
            cash: LedgerView { window, ..self.cash },
            credit: LedgerView { window, ..self.credit },
            ..self
        }
    }

    /// What the overview's arrows leave: the date scrubbed a day, or a week
    /// with `Shift` held.
    pub open spec fn overview_pressed(self, key: KeyEvent) -> (AppView, Request) {
        if key.code is Left || key.code is Right {
            match arrow_step(key).from(self.adhoc) {
                Some(to) => {
                    let moved = AppView { adhoc: to, ..self };
                    (moved.told(drift_words(moved.drift())), Request::Reprice)
                },
                None => (
                    self.told("the ad-hoc date ran off the end of the calendar"@),
                    Request::Nothing,
                ),
            }
        } else {
            (self, Request::Nothing)
        }
    }

    pub open spec fn ledger_pressed(self, key: KeyEvent) -> (AppView, Request) {
        let (ledger, verb) = self.ledger().pressed(key, self.today);
        let app = self.with_ledger(ledger);
        match verb {
            LedgerVerb::Answered => (app, Request::Nothing),
            LedgerVerb::SyncMonth => (app.synced(), Request::Reload(Anchor::Both)),
            LedgerVerb::Anchor => (app, Request::Reload(Anchor::Active)),
            LedgerVerb::Reconcile => match ledger.account() {
                Some(id) => (
                    app.opened(
                        ModalView::Reconcile { account: id, form: ledger.reconcile_form(id) },
                    ),
                    Request::Nothing,
                ),
                None => (app.told("reconcile needs an account filter"@), Request::Nothing),
            },
            LedgerVerb::Add => (
                app,
                Request::Open(Opening::Txn { kind: self.kind(), account: ledger.account() }),
            ),
            LedgerVerb::Transfer => (app, Request::Open(Opening::Transfer)),
            LedgerVerb::Payment => (app, Request::Open(Opening::Payment)),
            LedgerVerb::Edit => match ledger.list.chosen() {
                Some(row) => (app, Request::Open(Opening::TxnEdit(row.id))),
                None => (app.nothing_selected(), Request::Nothing),
            },
            LedgerVerb::Delete => match ledger.list.chosen() {
                Some(row) => (
                    app.opened(
                        ModalView::Confirm {
                            action: Confirm::DeleteTxn(row.id),
                            label: row.summary(),
                        },
                    ),
                    Request::Nothing,
                ),
                None => (app.nothing_selected(), Request::Nothing),
            },
        }
    }

    pub open spec fn savings_verb(self, verb: SavingsVerb) -> (AppView, Request) {
        let chosen = self.savings.list.chosen();
        let container = self.savings.default_container();
        match verb {
            SavingsVerb::Answered => (self, Request::Nothing),
            SavingsVerb::Undo => (self, Request::Open(Opening::Undo)),
            SavingsVerb::Payday => match container {
                Some(id) => (self, Request::Open(Opening::Payday(id))),
                None => (self.told("no container holds goals yet"@), Request::Nothing),
            },
            SavingsVerb::Interest => match container {
                Some(id) => (self, Request::Open(Opening::Interest(id))),
                None => (self.told("no container holds goals yet"@), Request::Nothing),
            },
            SavingsVerb::NewGoal => match container {
                Some(id) => (self, Request::Open(Opening::NewGoal(id))),
                None => (self.told("no container holds goals yet"@), Request::Nothing),
            },
            SavingsVerb::Move(way) => match self.savings.moving() {
                Ok((goal, container)) => (self, Request::Reorder { goal, container, way }),
                Err(why) => (self.said(why), Request::Nothing),
            },
            _ => match chosen {
                None => (self.nothing_selected(), Request::Nothing),
                Some(row) => (
                    self,
                    match verb {
                        SavingsVerb::Allocate => Request::Open(Opening::Allocation(row.goal)),
                        SavingsVerb::Transfer => Request::Open(
                            Opening::GoalTransfer { goal: row.goal, container: row.container },
                        ),
                        SavingsVerb::Edit => Request::Open(Opening::GoalEdit(row.goal)),
                        SavingsVerb::CloseOut => Request::Open(
                            Opening::CloseOut { goal: row.goal, container: row.container },
                        ),
                        SavingsVerb::Favorite => Request::Favorite {
                            goal: row.goal,
                            favorite: !row.favorite,
                        },
                        _ => Request::Open(
                            Opening::History { goal: row.goal, container: row.container },
                        ),
                    },
                ),
            },
        }
    }

    pub open spec fn savings_pressed(self, key: KeyEvent) -> (AppView, Request) {
        let (savings, verb) = self.savings.pressed(key);
        AppView { savings, ..self }.savings_verb(verb)
    }

    pub open spec fn planning_verb(self, verb: PlanningVerb) -> (AppView, Request) {
        match verb {
            PlanningVerb::Answered => (self, Request::Nothing),
            PlanningVerb::AddBill => (self, Request::Open(Opening::Bill(None))),
            PlanningVerb::Transfers => (self, Request::Open(Opening::Transfers)),
            PlanningVerb::EditValue => match self.planning.list.chosen() {
                None => (self.nothing_selected(), Request::Nothing),
                Some(row) => match row.editable {
                    Editable::Constant(target) => (
                        self.opened(
                            ModalView::Value { target, form: value_form_of(row, target) },
                        ),
                        Request::Nothing,
                    ),
                    Editable::Destination(line) => (
                        self,
                        Request::Open(Opening::Destination(line)),
                    ),
                },
            },
            PlanningVerb::EditBill => match self.planning.bill() {
                Some(id) => (self, Request::Open(Opening::Bill(Some(id)))),
                None => (self.told("only a bill has fields to edit"@), Request::Nothing),
            },
            PlanningVerb::DeleteBill => match self.planning.bill() {
                Some(id) => (self, Request::Open(Opening::BillDelete(id))),
                None => (self.told("only a bill can be deleted"@), Request::Nothing),
            },
            PlanningVerb::Pin => if self.planning.message is Some || !crate::money::fits(
                self.planning.floor(),
            ) {
                (self.told("nothing to pin"@), Request::Nothing)
            } else {
                (
                    self.said(self.planning.pin_words()),
                    Request::Pin(Cents(self.planning.floor() as i64)),
                )
            },
            PlanningVerb::Unpin => if self.planning.pinned {
                (self.told("unpinned"@), Request::Unpin)
            } else {
                (self.told("nothing pinned"@), Request::Nothing)
            },
            PlanningVerb::Details => if self.planning.detail.len() == 0 {
                (
                    self.told("the transfers resolve; nothing to explain"@),
                    Request::Nothing,
                )
            } else {
                (
                    self.opened(
                        ModalView::Details("Transfers unresolved"@, self.planning.detail),
                    ),
                    Request::Nothing,
                )
            },
        }
    }

    pub open spec fn planning_pressed(self, key: KeyEvent) -> (AppView, Request) {
        let (planning, verb) = self.planning.pressed(key);
        AppView { planning, ..self }.planning_verb(verb)
    }

    /// A refresh of `tickers` announced, and left for after the draw where
    /// there is anything to fetch.
    pub open spec fn announced(self, tickers: Seq<String>) -> AppView {
        let (words, fetch) = refresh_reply(self.contact, tickers);
        AppView {
            deferred: if fetch {
                Some(tickers)
            } else {
                self.deferred
            },
            ..self.said(words)
        }
    }

    pub open spec fn funds_verb(self, verb: FundsVerb) -> (AppView, Request) {
        match verb {
            FundsVerb::Answered => (self, Request::Nothing),
            FundsVerb::RefreshEvery => (self, Request::Tickers),
            FundsVerb::Add => (
                self,
                Request::Open(
                    Opening::Holding { editing: None, account: self.funds.account() },
                ),
            ),
            _ => match self.funds.list.chosen() {
                None => (self.nothing_selected(), Request::Nothing),
                Some(row) => match verb {
                    FundsVerb::Edit => (
                        self,
                        Request::Open(
                            Opening::Holding {
                                editing: Some(row.id),
                                account: self.funds.account(),
                            },
                        ),
                    ),
                    FundsVerb::Delete => (
                        self.opened(
                            ModalView::Confirm {
                                action: Confirm::DeleteHolding(row.id),
                                label: row.summary(),
                            },
                        ),
                        Request::Nothing,
                    ),
                    _ => (self.announced(seq![row.ticker]), Request::Nothing),
                },
            },
        }
    }

    pub open spec fn funds_pressed(self, key: KeyEvent) -> (AppView, Request) {
        let (funds, verb) = self.funds.pressed(key);
        AppView { funds, ..self }.funds_verb(verb)
    }

    pub open spec fn recurring_txn_pressed(self, key: KeyEvent) -> (AppView, Request) {
        let (list, verb) = txns_pressed(self.recurring_txns, key);
        let app = AppView { recurring_txns: list, ..self };
        match verb {
            RecurringTxnVerb::Answered => (app, Request::Nothing),
            RecurringTxnVerb::Add => (app, Request::Open(Opening::RecurringTxn(None))),
            RecurringTxnVerb::RegenerateEvery => (app, Request::RegenerateEvery),
            _ => match list.chosen() {
                None => (app.nothing_selected(), Request::Nothing),
                Some(row) => match verb {
                    RecurringTxnVerb::Edit => (
                        app,
                        Request::Open(Opening::RecurringTxn(Some(row.id))),
                    ),
                    RecurringTxnVerb::Delete => (
                        app.opened(
                            ModalView::Confirm {
                                action: Confirm::DeleteRecurringTxn(row.id),
                                label: row.release(),
                            },
                        ),
                        Request::Nothing,
                    ),
                    RecurringTxnVerb::Regenerate => (app, Request::Regenerate(row.id)),
                    RecurringTxnVerb::Extend => (app, Request::Extend(row.id)),
                    _ => (app, Request::MakePaycheck(row.id)),
                },
            },
        }
    }

    pub open spec fn recurring_goal_pressed(self, key: KeyEvent) -> (AppView, Request) {
        let (goals, verb) = self.recurring_goals.pressed(key);
        let app = AppView { recurring_goals: goals, ..self };
        match verb {
            RecurringGoalVerb::Answered => (app, Request::Nothing),
            RecurringGoalVerb::Add => (app, Request::Open(Opening::RecurringGoal(None))),
            RecurringGoalVerb::Seed => match app.savings.default_container() {
                Some(container) => (
                    app,
                    Request::Open(Opening::Seed { container, month: goals.month() }),
                ),
                None => (app.told("no container holds goals yet"@), Request::Nothing),
            },
            RecurringGoalVerb::Edit => match goals.list.chosen() {
                Some(row) => (app, Request::Open(Opening::RecurringGoal(Some(row.id)))),
                None => (app.nothing_selected(), Request::Nothing),
            },
            RecurringGoalVerb::Delete => match goals.list.chosen() {
                Some(row) => (app, Request::Open(Opening::RecurringGoalDelete(row.id))),
                None => (app.nothing_selected(), Request::Nothing),
            },
        }
    }

    pub open spec fn accounts_pressed(self, key: KeyEvent) -> (AppView, Request) {
        let (list, verb) = accounts_pressed(self.accounts, key);
        let app = AppView { accounts: list, ..self };
        match verb {
            AccountsVerb::Answered => (app, Request::Nothing),
            AccountsVerb::Add => (app, Request::Open(Opening::Account(None))),
            AccountsVerb::Edit => match list.chosen() {
                Some(row) => (
                    app,
                    Request::Open(Opening::Account(Some(row.record.account.id))),
                ),
                None => (app.nothing_selected(), Request::Nothing),
            },
        }
    }

    /// The screen's own keys.
    pub open spec fn screen_pressed(self, key: KeyEvent) -> (AppView, Request) {
        match self.screen {
            Screen::Overview => self.overview_pressed(key),
            Screen::Cash | Screen::Credit => self.ledger_pressed(key),
            Screen::Savings => self.savings_pressed(key),
            Screen::Planning => self.planning_pressed(key),
            Screen::Funds => self.funds_pressed(key),
            Screen::RecurringTxns => self.recurring_txn_pressed(key),
            Screen::RecurringGoals => self.recurring_goal_pressed(key),
            Screen::Accounts => self.accounts_pressed(key),
        }
    }

    /// Every key while a box is open over the screen.
    pub open spec fn box_pressed(self, key: KeyEvent) -> AppView {
        match self.screen {
            Screen::Cash | Screen::Credit => self.with_ledger(
                self.ledger().with_list(self.ledger().list.box_pressed(key)),
            ),
            Screen::Savings => AppView {
                savings: self.savings.with_list(self.savings.list.box_pressed(key)),
                ..self
            },
            Screen::Funds => AppView {
                funds: self.funds.with_list(self.funds.list.box_pressed(key)),
                ..self
            },
            Screen::RecurringGoals => AppView {
                recurring_goals: self.recurring_goals.with_list(
                    self.recurring_goals.list.box_pressed(key),
                ),
                ..self
            },
            _ => self,
        }
    }

    /// What is left of a form and what is asked for, once its keys have been
    /// answered. Suggestions are asked for wherever the description holds
    /// anything, and dropped wherever it does not.
    pub open spec fn form_answered(
        self,
        modal: ModalView,
        shape: FormView,
        popup: PopupView,
        verb: FormVerb,
    ) -> (AppView, Request) {
        match verb {
            FormVerb::Answered => (self.held(modal, popup), Request::Nothing),
            FormVerb::Close => (self.closed(), Request::Nothing),
            FormVerb::Commit => (self.held(modal, popup), Request::Commit),
            FormVerb::Suggest => if shape.asks() {
                (self.held(modal, popup), Request::Suggest)
            } else {
                (self.held(modal, PopupView::closed()), Request::Nothing)
            },
        }
    }

    /// What a reconciliation leaves once it has been typed: the target on the
    /// ledger on screen, or the form with why it was refused.
    pub open spec fn reconciled(self, account: AccountId, form: ValueFormView) -> AppView {
        match reconciled(self.ledger(), account, slot_text(form.slot)) {
            Ok((ledger, words)) => self.with_ledger(ledger).closed().said(words),
            Err(why) => self.held(
                ModalView::Reconcile { account, form },
                self.popup,
            ).said(why.said()),
        }
    }

    /// The destination list kept open on what a key left of it.
    pub open spec fn choosing(self, chooser: ChooserView, list: ListingView<Choice>) -> AppView {
        self.held(ModalView::Destination(ChooserView { list, ..chooser }), self.popup)
    }

    /// `Enter` on the destination list: the line is pointed at what is under
    /// the cursor.
    pub open spec fn destination_chosen(self, chooser: ChooserView) -> (AppView, Request) {
        let same = self.choosing(chooser, chooser.list);
        if !(chooser.line.lands_in() is Goal) {
            (same.told(unpointable(chooser.line)), Request::Nothing)
        } else {
            match chooser.list.chosen() {
                Some(choice) => (
                    same,
                    Request::Point(chooser.line, pointed_words(chooser.line, choice).0),
                ),
                None => (same.nothing_selected(), Request::Nothing),
            }
        }
    }

    /// Every key while the destination list is open.
    pub open spec fn destination_pressed(self, chooser: ChooserView, key: KeyEvent) -> (
        AppView,
        Request,
    ) {
        let list = chooser.list;
        if list.search.open {
            (self.choosing(chooser, list.box_pressed(key)), Request::Nothing)
        } else if key.code is Enter {
            self.destination_chosen(chooser)
        } else if is_scroll(key.code) {
            (self.choosing(chooser, list.scrolled(key.code)), Request::Nothing)
        } else if key.code is Esc {
            if list.search.needle().len() == 0 {
                (self.closed(), Request::Nothing)
            } else {
                (self.choosing(chooser, list.needle_escaped()), Request::Nothing)
            }
        } else if key.code == KeyCode::Char('/') {
            (
                self.choosing(chooser, list.with_search(list.search.begun())),
                Request::Nothing,
            )
        } else {
            (self.choosing(chooser, list), Request::Nothing)
        }
    }

    /// A sheet thrown away: the next in the queue opens, where one waits.
    pub open spec fn sheet_cancelled(self) -> (AppView, Request) {
        (
            self.closed().told("cancelled"@),
            if self.queue.len() > 0 {
                Request::Open(Opening::NextSheet)
            } else {
                Request::Nothing
            },
        )
    }

    /// A question answered: any key but `y` cancels it.
    pub open spec fn confirm_pressed(self, action: Confirm, label: Seq<PieceView>, key: KeyEvent) -> (
        AppView,
        Request,
    ) {
        if key.code == KeyCode::Char('y') {
            (
                self.held(ModalView::Confirm { action, label }, self.popup),
                Request::Write(action),
            )
        } else {
            (self.closed().told(action.refusal()), Request::Nothing)
        }
    }

    pub open spec fn form_modal_pressed(self, purpose: Purpose, form: FormView, key: KeyEvent) -> (
        AppView,
        Request,
    ) {
        let pressed = form_pressed(form, self.popup, key);
        self.form_answered(
            ModalView::Form { purpose, form: pressed.shape },
            pressed.shape,
            pressed.popup,
            pressed.verb,
        )
    }

    pub open spec fn value_pressed(self, target: Target, form: ValueFormView, key: KeyEvent) -> (
        AppView,
        Request,
    ) {
        let pressed = form_pressed(form.shape(), self.popup, key);
        self.form_answered(
            ModalView::Value { target, form: form.shaped(pressed.shape) },
            pressed.shape,
            pressed.popup,
            pressed.verb,
        )
    }

    pub open spec fn reconcile_pressed(
        self,
        account: AccountId,
        form: ValueFormView,
        key: KeyEvent,
    ) -> (AppView, Request) {
        let pressed = form_pressed(form.shape(), self.popup, key);
        let after = form.shaped(pressed.shape);
        if pressed.verb == FormVerb::Commit {
            (
                AppView { popup: pressed.popup, ..self }.reconciled(account, after),
                Request::Nothing,
            )
        } else {
            self.form_answered(
                ModalView::Reconcile { account, form: after },
                pressed.shape,
                pressed.popup,
                pressed.verb,
            )
        }
    }

    pub open spec fn worksheet_pressed(self, sheet: SheetView, key: KeyEvent) -> (
        AppView,
        Request,
    ) {
        let (after, verb) = sheet.pressed(key);
        let kept = self.held(ModalView::Worksheet(after), self.popup);
        match verb {
            SheetVerb::Answered => (kept, Request::Nothing),
            SheetVerb::Cancel => self.sheet_cancelled(),
            SheetVerb::Commit => (kept, Request::Commit),
            SheetVerb::Operate(op) => (kept, Request::Operate(op)),
        }
    }

    pub open spec fn picker_pressed(self, picker: PickerView, key: KeyEvent) -> (
        AppView,
        Request,
    ) {
        let (after, verb) = picker.pressed(key);
        let kept = self.held(ModalView::Picker(after), self.popup);
        match verb {
            PickerVerb::Answered => (kept, Request::Nothing),
            PickerVerb::Close => (self.closed(), Request::Nothing),
            PickerVerb::Commit => if after.chosen().len() == 0 {
                (kept.nothing_selected(), Request::Nothing)
            } else {
                (kept, Request::Commit)
            },
        }
    }

    pub open spec fn details_pressed(
        self,
        title: Seq<char>,
        lines: Seq<String>,
        key: KeyEvent,
    ) -> (AppView, Request) {
        if key.code is Esc {
            (self.closed(), Request::Nothing)
        } else {
            (self.held(ModalView::Details(title, lines), self.popup), Request::Nothing)
        }
    }

    pub open spec fn transfers_pressed(self, confirm: TransfersView, key: KeyEvent) -> (
        AppView,
        Request,
    ) {
        let (after, verb) = confirm.pressed(key);
        let kept = self.held(ModalView::Transfers(after), self.popup);
        match verb {
            TransfersVerb::Answered => (kept, Request::Nothing),
            TransfersVerb::Cancel => (self.closed().told("cancelled"@), Request::Nothing),
            TransfersVerb::Commit => (kept, Request::Commit),
        }
    }

    pub open spec fn history_pressed(self, history: HistoryView, key: KeyEvent) -> (
        AppView,
        Request,
    ) {
        let (after, popup, verb) = history.pressed(self.popup, key);
        let kept = self.held(ModalView::History(after), popup);
        match verb {
            HistoryVerb::Answered => (kept, Request::Nothing),
            HistoryVerb::Close => (self.closed(), Request::Nothing),
            HistoryVerb::BeginEdit(id) => (kept, Request::Open(Opening::HistoryEdit(id))),
            HistoryVerb::NothingSelected => (kept.nothing_selected(), Request::Nothing),
            HistoryVerb::CommitEdit => (kept, Request::Commit),
            HistoryVerb::Suggest => if after.asks() {
                (kept, Request::Suggest)
            } else {
                (
                    self.held(ModalView::History(after), PopupView::closed()),
                    Request::Nothing,
                )
            },
            HistoryVerb::Confirmed(action) => (kept, Request::Write(action)),
            HistoryVerb::Cancelled(action) => (kept.told(action.refusal()), Request::Nothing),
        }
    }

    /// Every key while something is open above the screen.
    pub open spec fn modal_pressed(self, modal: ModalView, key: KeyEvent) -> (AppView, Request) {
        match modal {
            ModalView::Confirm { action, label } => self.confirm_pressed(action, label, key),
            ModalView::Form { purpose, form } => self.form_modal_pressed(purpose, form, key),
            ModalView::Value { target, form } => self.value_pressed(target, form, key),
            ModalView::Reconcile { account, form } => self.reconcile_pressed(account, form, key),
            ModalView::Worksheet(sheet) => self.worksheet_pressed(sheet, key),
            ModalView::Picker(picker) => self.picker_pressed(picker, key),
            ModalView::Destination(chooser) => self.destination_pressed(chooser, key),
            ModalView::Details(title, lines) => self.details_pressed(title, lines, key),
            ModalView::Transfers(confirm) => self.transfers_pressed(confirm, key),
            ModalView::History(history) => self.history_pressed(history, key),
        }
    }

    /// The keys that mean the same on every screen: `q`, and the digits.
    ///
    /// One digit does more than switch: entering the funds with no date of
    /// birth on record raises the prompt for it.
    pub open spec fn app_wide(self, code: KeyCode) -> Option<(AppView, Request)> {
        match code {
            KeyCode::Char(c) => if c == 'q' {
                Some((AppView { quit: true, ..self }, Request::Nothing))
            } else {
                match Screen::reached_by(c) {
                    Some(screen) => Some(
                        (
                            AppView { screen, ..self },
                            if screen is Funds && self.funds.needs_birth_date {
                                Request::Open(Opening::BirthDate)
                            } else {
                                Request::Nothing
                            },
                        ),
                    ),
                    None => None,
                }
            },
            _ => None,
        }
    }

    /// Whether a key opens the help panel: `F1` anywhere, and a question mark
    /// wherever it is not a character.
    pub open spec fn opens_help(self, code: KeyCode) -> bool {
        code == KeyCode::F(1) || (code == KeyCode::Char('?') && !self.topic().typed_into())
    }

    /// Whether a key is a modified character with no caret to edit at, which
    /// is dropped rather than read as the letter it arrives as.
    pub open spec fn drops(self, key: KeyEvent) -> bool {
        key.is_char() && !key.bare() && !self.topic().edited()
    }

    /// What any key leaves of the application, and what it asks for.
    pub open spec fn dispatched(self, key: KeyEvent) -> (AppView, Request) {
        match self.help {
            Some(help) => (AppView { help: help.pressed(key), ..self }, Request::Nothing),
            None => if self.opens_help(key.code) {
                (
                    AppView {
                        help: Some(
                            HelpView { topic: self.topic(), offset: 0, lines: 0, page: 0 },
                        ),
                        ..self
                    },
                    Request::Nothing,
                )
            } else if self.drops(key) {
                (self, Request::Nothing)
            } else {
                match self.modal {
                    Some(modal) => self.taken().modal_pressed(modal, key),
                    None => if self.open_box() is Some {
                        (self.box_pressed(key), Request::Nothing)
                    } else {
                        match self.app_wide(key.code) {
                            Some(answer) => answer,
                            None => self.screen_pressed(key),
                        }
                    },
                }
            },
        }
    }

    /// The clock of the message being shown. One under something open keeps
    /// the footer until a key takes it away: it is there to qualify a question
    /// that has not been answered.
    pub open spec fn timed(self, now: int) -> AppView {
        AppView {
            until: if self.status.len() > 0 && self.modal is None {
                Some(deadline(now))
            } else {
                None
            },
            ..self
        }
    }

    /// What a key press leaves: the last message gone, the key answered, and
    /// the clock of whatever it said started.
    pub open spec fn keyed(self, key: KeyEvent, now: int) -> (AppView, Request) {
        let (app, request) = self.said(Seq::empty()).dispatched(key);
        (app.timed(now), request)
    }

    /// Whether the message being shown has outlived its time.
    pub open spec fn outlived(self, now: int) -> bool {
        self.until matches Some(until) && now >= until
    }

    /// The message gone, where it has outlived its time.
    pub open spec fn expired(self, now: int) -> AppView {
        if self.outlived(now) {
            AppView { status: Seq::empty(), until: None, ..self }
        } else {
            self
        }
    }
}

/// Everything the screens show, read again.
#[derive(Debug)]
pub struct Loaded {
    pub baseline: Date,
    pub cash: LedgerData,
    pub credit: LedgerData,
    /// The first and the last month either ledger has rows in.
    pub range: Option<(i64, i64)>,
    pub accounts: Vec<Account>,
    pub account_rows: Vec<AccountRow>,
    pub goals: Vec<SavingsRow>,
    /// The months the goals fall due in.
    pub months: Vec<i64>,
    /// What each container has unallocated.
    pub excess: Vec<(AccountId, Cents)>,
    /// The plan, or why there is none.
    pub plan: Result<Plan, String>,
    pub fund_accounts: Vec<Account>,
    pub holdings: Vec<FundRow>,
    /// What each fund is made of.
    pub mixes: Vec<Mix>,
    /// What each class of a portfolio should come to.
    pub targets: Vec<(Class, BasisPoints)>,
    pub needs_birth_date: bool,
    pub recurring_txns: Vec<RecurringTxnRow>,
    pub recurring_goals: Vec<RecurringGoalRow>,
}

impl AppView {
    /// The application before anything has been read: every list empty, no
    /// filter set, nothing open, on the overview.
    pub open spec fn blank(today: DateView, baseline: DateView, contact: bool) -> AppView {
        AppView {
            today,
            baseline,
            adhoc: baseline,
            entry_date: None,
            screen: Screen::Overview,
            cash: LedgerView::blank(Kind::Cash, today),
            credit: LedgerView::blank(Kind::Credit, today),
            savings: SavingsView::blank(),
            planning: PlanningView::blank(),
            funds: FundsView::blank(),
            recurring_txns: ListingView::fresh(Seq::empty(), Unfiltered),
            recurring_goals: RecurringGoalsView {
                this_month: today.month as i64,
                list: ListingView::fresh(Seq::empty(), MonthFilter { month: None }),
            },
            accounts: ListingView::fresh(Seq::empty(), Unfiltered),
            popup: PopupView::closed(),
            modal: None,
            queue: Seq::empty(),
            help: None,
            status: Seq::empty(),
            until: None,
            quit: false,
            contact,
            deferred: None,
        }
    }
}

/// What one ledger shows.
#[derive(Debug)]
pub struct LedgerData {
    pub accounts: Vec<Account>,
    pub rows: Vec<LedgerRow>,
    /// The balance of the account it is narrowed to, or of every account of
    /// its kind.
    pub total: Cents,
}

impl LedgerView {
    /// The ledger over what was read again.
    pub open spec fn relisted(self, data: LedgerData, range: Option<(i64, i64)>) -> LedgerView {
        LedgerView {
            accounts: data.accounts@,
            dial: self.dial.over(ids_of(data.accounts@)),
            range,
            list: self.list.refilled(data.rows@),
            total: data.total,
            ..self
        }
    }
}

impl PlanningView {
    /// The screen over a plan, or over why there is none.
    pub open spec fn replanned(self, plan: Result<Plan, String>) -> PlanningView {
        match plan {
            Ok(plan) => PlanningView {
                list: self.list.refilled(plan.rows@),
                message: None,
                pinned: plan.pinned,
                excess: plan.excess,
                detail: plan.detail@,
                asked: plan.asked,
            },
            Err(why) => PlanningView { message: Some(why@), ..self },
        }
    }
}

impl AppView {
    /// Every screen over what was read again.
    pub open spec fn relisted(self, loaded: Loaded) -> AppView {
        AppView {
            cash: self.cash.relisted(loaded.cash, loaded.range),
            credit: self.credit.relisted(loaded.credit, loaded.range),
            savings: SavingsView { accounts: loaded.accounts@, ..self.savings }.refilled(
                loaded.goals@,
                loaded.months@,
                loaded.excess@,
            ),
            planning: self.planning.replanned(loaded.plan),
            funds: FundsView {
                compositions: compositions(loaded.mixes@),
                targets: loaded.targets@,
                needs_birth_date: loaded.needs_birth_date,
                ..self.funds
            }.refilled(loaded.fund_accounts@, loaded.holdings@),
            recurring_txns: self.recurring_txns.refilled(loaded.recurring_txns@),
            recurring_goals: self.recurring_goals.with_list(
                self.recurring_goals.list.refilled(loaded.recurring_goals@),
            ),
            accounts: self.accounts.refilled(loaded.account_rows@),
            ..self
        }
    }

    /// The ledgers' cursors where `anchor` puts them.
    pub open spec fn anchored(self, anchor: Anchor) -> AppView {
        match anchor {
            Anchor::Keep => self,
            Anchor::Active => self.with_ledger(self.ledger().anchored(self.today)),
            Anchor::Both => AppView {
                cash: self.cash.anchored(self.today),
                credit: self.credit.anchored(self.today),
                ..self
            },
        }
    }

    /// The date scrubbed as far from a new baseline as it was from the old.
    pub open spec fn rebased(self, baseline: DateView) -> Option<AppView> {
        if baseline.reaches(self.drift()) {
            Some(AppView { adhoc: baseline.days_on(self.drift()), baseline, ..self })
        } else {
            None
        }
    }

    /// The next worksheet, where one waits and nothing else is open.
    pub open spec fn next_request(self) -> Request {
        if self.queue.len() > 0 && self.modal is None {
            Request::Open(Opening::NextSheet)
        } else {
            Request::Nothing
        }
    }

    /// What reading everything again leaves, and what is asked for next.
    pub open spec fn reloaded(self, loaded: Loaded, anchor: Anchor, now: int) -> (
        AppView,
        Request,
    ) {
        match self.rebased(loaded.baseline@) {
            Some(app) => {
                let after = app.relisted(loaded).anchored(anchor).timed(now);
                (after, after.next_request())
            },
            None => (
                AppView { baseline: loaded.baseline@, ..self }.failed(
                    "the ad-hoc date ran off the end of the calendar"@,
                    now,
                ),
                Request::Nothing,
            ),
        }
    }

    /// A read that failed: the message, and no worksheet left to open over
    /// screens that were not read again.
    pub open spec fn failed(self, why: Seq<char>, now: int) -> AppView {
        AppView { queue: Seq::empty(), ..self }.told(why).timed(now)
    }

    /// What is open closed once it has been written, or the history back on
    /// its list.
    pub open spec fn put_away(self) -> AppView {
        match self.modal {
            Some(ModalView::History(history)) => self.opened(
                ModalView::History(history.in_mode(ModeView::List)),
            ),
            _ => self.closed(),
        }
    }

    /// What a write leaves: what was open put away, and the words that report
    /// it.
    pub open spec fn wrote(self, status: Seq<PieceView>, now: int) -> AppView {
        self.put_away().said(status).timed(now)
    }

    /// What a write that was made leaves, and the day the next row is entered
    /// for.
    pub open spec fn recorded(self, what: Written, now: int) -> AppView {
        AppView {
            entry_date: match what.entered() {
                Some(date) => Some(date),
                None => self.entry_date,
            },
            ..self.wrote(what.words(), now)
        }
    }

    /// What the destination list writes: the line, the goal, and the words
    /// that report it.
    pub open spec fn pointing(self) -> Option<(Option<GoalId>, Seq<PieceView>)> {
        match self.modal {
            Some(ModalView::Destination(chooser)) => match chooser.list.chosen() {
                Some(choice) => Some(pointed_words(chooser.line, choice)),
                None => None,
            },
            _ => None,
        }
    }

    /// The worksheet at the head of the queue on screen, dated as its transfer
    /// was: what was transferred is its pot, and each of `lines` is down for
    /// its goal's share of it.
    pub open spec fn next_opened(self, lines: Seq<SheetLine>) -> AppView {
        if self.queue.len() > 0 {
            AppView { queue: self.queue.drop_first(), ..self }.opened(
                ModalView::Worksheet(
                    SheetView::opened(
                        BatchKind::Paycheck,
                        self.queue[0].container,
                        name_among(self.savings.accounts, self.queue[0].container),
                        DateFieldView::on(self.today, self.queue[0].date),
                        self.queue[0].pot,
                        shared(lines, self.queue[0].shares),
                    ),
                ),
            )
        } else {
            self
        }
    }

    /// The plan quoted at the scrubbed date, and nothing else read again.
    pub open spec fn repriced(self, plan: Result<Plan, String>) -> AppView {
        AppView { planning: self.planning.replanned(plan), ..self }
    }

    /// The worksheet with other figures in it, where one is open.
    pub open spec fn figured(self, amount: Cents, shares: Seq<(GoalId, Cents)>) -> AppView {
        match self.modal {
            Some(ModalView::Worksheet(sheet)) => self.opened(
                ModalView::Worksheet(sheet.figured(amount, shares)),
            ),
            _ => self,
        }
    }

    /// The editor open over the row it rewrites, where the history is open.
    pub open spec fn editing(self, form: FormView) -> AppView {
        match self.modal {
            Some(ModalView::History(history)) => self.opened(
                ModalView::History(history.in_mode(ModeView::Editing(form))),
            ),
            _ => self,
        }
    }

    /// The history of the goal under the cursor, opened over its rows.
    pub open spec fn history_opened(self, rows: Seq<HistoryRow>) -> AppView {
        match self.savings.list.chosen() {
            Some(row) => self.opened(
                ModalView::History(
                    HistoryView::opened(
                        row.goal,
                        row.name@,
                        row.container,
                        name_among(self.savings.accounts, row.container),
                        rows,
                    ),
                ),
            ),
            None => self.nothing_selected(),
        }
    }

    /// The history over other rows, where it is open.
    pub open spec fn history_refilled(self, rows: Seq<HistoryRow>) -> AppView {
        match self.modal {
            Some(ModalView::History(history)) => self.opened(
                ModalView::History(history.refilled(rows)),
            ),
            _ => self,
        }
    }

    /// The list of what is open after a draw fitted a page of it.
    pub open spec fn modal_drawn_in(self, viewport: Viewport) -> AppView {
        AppView {
            modal: match self.modal {
                Some(ModalView::Worksheet(sheet)) => Some(
                    ModalView::Worksheet(
                        SheetView { lines: sheet.lines.drawn_in(viewport), ..sheet },
                    ),
                ),
                Some(ModalView::Picker(picker)) => Some(
                    ModalView::Picker(
                        PickerView { cursor: picker.cursor.drawn_in(viewport), ..picker },
                    ),
                ),
                Some(ModalView::Destination(chooser)) => Some(
                    ModalView::Destination(
                        ChooserView { list: chooser.list.drawn_in(viewport), ..chooser },
                    ),
                ),
                Some(ModalView::History(history)) => Some(
                    ModalView::History(
                        HistoryView { cursor: history.cursor.drawn_in(viewport), ..history },
                    ),
                ),
                other => other,
            },
            ..self
        }
    }

    /// The list on screen after a draw fitted a page of it.
    pub open spec fn drawn_in(self, viewport: Viewport) -> AppView {
        match self.screen {
            Screen::Overview => self,
            Screen::Cash | Screen::Credit => self.with_ledger(
                self.ledger().with_list(self.ledger().list.drawn_in(viewport)),
            ),
            Screen::Savings => AppView {
                savings: self.savings.with_list(self.savings.list.drawn_in(viewport)),
                ..self
            },
            Screen::Planning => AppView {
                planning: self.planning.with_list(self.planning.list.drawn_in(viewport)),
                ..self
            },
            Screen::Funds => AppView {
                funds: self.funds.with_list(self.funds.list.drawn_in(viewport)),
                ..self
            },
            Screen::RecurringTxns => AppView {
                recurring_txns: self.recurring_txns.drawn_in(viewport),
                ..self
            },
            Screen::RecurringGoals => AppView {
                recurring_goals: self.recurring_goals.with_list(
                    self.recurring_goals.list.drawn_in(viewport),
                ),
                ..self
            },
            Screen::Accounts => AppView {
                accounts: self.accounts.drawn_in(viewport),
                ..self
            },
        }
    }

    /// The day the next row added is written for.
    pub open spec fn entry_day(self) -> DateView {
        match self.entry_date {
            Some(date) => date,
            None => self.today,
        }
    }
}

/// When a message said at `now` stops being shown.
pub open spec fn deadline(now: int) -> int {
    if now + STATUS_TTL > u64::MAX {
        u64::MAX as int
    } else {
        now + STATUS_TTL
    }
}

/// What the footer says.
pub enum FooterView {
    /// A message, which borrows the whole line.
    Status(Seq<PieceView>),
    /// The box open over the screen.
    Search(Seq<SpanView>),
    /// The screen's keys, without the one it would refuse, and with a word on
    /// what is missing where something is.
    Keys { topic: Topic, without: Option<char>, needs_birth_date: bool },
}

/// The footer of an open box: the needle with the caret on it, and what the
/// two keys leaving the box do.
pub open spec fn search_footer(search: SearchView) -> Seq<SpanView> {
    (seq![raw("/"@)] + search.spans()).push(raw("  · Enter to keep · Esc to clear"@))
}

impl AppView {
    pub open spec fn footer(self) -> FooterView {
        if self.status.len() > 0 {
            FooterView::Status(self.status)
        } else {
            match self.open_box() {
                Some(search) => FooterView::Search(search_footer(search)),
                None => FooterView::Keys {
                    topic: self.screen_topic(),
                    without: if self.screen is Credit {
                        Some('t')
                    } else if self.screen is Planning && !self.planning.pinned {
                        Some('P')
                    } else {
                        None
                    },
                    needs_birth_date: self.screen is Funds && self.funds.needs_birth_date,
                },
            }
        }
    }

    /// The screen's own keys, whatever is open above it.
    pub open spec fn screen_topic(self) -> Topic {
        match self.screen {
            Screen::Overview => Topic::Overview,
            Screen::Cash | Screen::Credit => Topic::Ledger,
            Screen::Savings => Topic::Savings,
            Screen::Planning => Topic::Planning,
            Screen::Funds => Topic::Funds,
            Screen::RecurringGoals => Topic::RecurringGoals,
            Screen::RecurringTxns => Topic::RecurringTxns,
            Screen::Accounts => Topic::Accounts,
        }
    }

    /// Whether the app-wide keys are drawn: only where they are answered, and
    /// never beside a message.
    pub open spec fn chrome(self) -> bool {
        self.help is None && self.topic().is_screen() && self.status.len() == 0
    }
}

proof fn lemma_ledger_valid(app: AppView, key: KeyEvent)
    requires
        app.valid(),
    ensures
        app.ledger_pressed(key).0.valid(),
{
    crate::ledger::a_ledger_stays_settled(app.ledger(), key, app.today);
}

proof fn lemma_savings_valid(app: AppView, key: KeyEvent)
    requires
        app.valid(),
    ensures
        app.savings_pressed(key).0.valid(),
{
    crate::savings::the_savings_stay_settled(app.savings, key);
}

proof fn lemma_planning_valid(app: AppView, key: KeyEvent)
    requires
        app.valid(),
    ensures
        app.planning_pressed(key).0.valid(),
{
    crate::planning::the_planning_stays_settled(app.planning, key);
}

proof fn lemma_funds_valid(app: AppView, key: KeyEvent)
    requires
        app.valid(),
    ensures
        app.funds_pressed(key).0.valid(),
{
    crate::funds::the_funds_stay_settled(app.funds, key);
}

proof fn lemma_recurring_txns_valid(app: AppView, key: KeyEvent)
    requires
        app.valid(),
    ensures
        app.recurring_txn_pressed(key).0.valid(),
{
}

proof fn lemma_recurring_goals_valid(app: AppView, key: KeyEvent)
    requires
        app.valid(),
    ensures
        app.recurring_goal_pressed(key).0.valid(),
{
    crate::recurring::the_catalog_stays_settled(app.recurring_goals, key);
}

proof fn lemma_accounts_valid(app: AppView, key: KeyEvent)
    requires
        app.valid(),
    ensures
        app.accounts_pressed(key).0.valid(),
{
}

proof fn lemma_box_valid(app: AppView, key: KeyEvent)
    requires
        app.valid(),
    ensures
        app.box_pressed(key).valid(),
{
}

proof fn lemma_screen_valid(app: AppView, key: KeyEvent)
    requires
        app.valid(),
    ensures
        app.screen_pressed(key).0.valid(),
{
    match app.screen {
        Screen::Overview => {},
        Screen::Cash | Screen::Credit => lemma_ledger_valid(app, key),
        Screen::Savings => lemma_savings_valid(app, key),
        Screen::Planning => lemma_planning_valid(app, key),
        Screen::Funds => lemma_funds_valid(app, key),
        Screen::RecurringTxns => lemma_recurring_txns_valid(app, key),
        Screen::RecurringGoals => lemma_recurring_goals_valid(app, key),
        Screen::Accounts => lemma_accounts_valid(app, key),
    }
}

proof fn lemma_form_valid(app: AppView, purpose: Purpose, form: FormView, key: KeyEvent)
    requires
        app.valid(),
        form.valid(),
    ensures
        app.form_modal_pressed(purpose, form, key).0.valid(),
{
    crate::form_keys::a_form_keeps_its_fields(form, app.popup, key);
}

proof fn lemma_reconcile_valid(app: AppView, account: AccountId, form: ValueFormView, key: KeyEvent)
    requires
        app.valid(),
    ensures
        app.reconcile_pressed(account, form, key).0.valid(),
{
}

proof fn lemma_sheet_valid(app: AppView, sheet: SheetView, key: KeyEvent)
    requires
        app.valid(),
        sheet.lines.settled(),
    ensures
        app.worksheet_pressed(sheet, key).0.valid(),
{
    crate::worksheet::a_sheet_stays_settled(sheet, key);
}

proof fn lemma_picker_valid(app: AppView, picker: PickerView, key: KeyEvent)
    requires
        app.valid(),
        picker.valid(),
    ensures
        app.picker_pressed(picker, key).0.valid(),
{
}

proof fn lemma_destination_valid(app: AppView, chooser: ChooserView, key: KeyEvent)
    requires
        app.valid(),
        chooser.list.settled(),
    ensures
        app.destination_pressed(chooser, key).0.valid(),
{
}

proof fn lemma_history_valid(app: AppView, history: HistoryView, key: KeyEvent)
    requires
        app.valid(),
        history.valid(),
    ensures
        app.history_pressed(history, key).0.valid(),
{
    crate::history::a_history_stays_valid(history, app.popup, key);
}

proof fn lemma_modal_valid(app: AppView, modal: ModalView, key: KeyEvent)
    requires
        app.valid(),
        modal.valid(),
    ensures
        app.modal_pressed(modal, key).0.valid(),
{
    match modal {
        ModalView::Form { purpose, form } => lemma_form_valid(app, purpose, form, key),
        ModalView::Reconcile { account, form } => lemma_reconcile_valid(app, account, form, key),
        ModalView::Worksheet(sheet) => lemma_sheet_valid(app, sheet, key),
        ModalView::Picker(picker) => lemma_picker_valid(app, picker, key),
        ModalView::Destination(chooser) => lemma_destination_valid(app, chooser, key),
        ModalView::History(history) => lemma_history_valid(app, history, key),
        _ => {},
    }
}

/// Whatever key is pressed wherever, every list draws what its filters leave
/// with its cursor among the rows drawn, and whatever is open holds together.
pub proof fn every_key_keeps_the_app_whole(app: AppView, key: KeyEvent)
    requires
        app.valid(),
    ensures
        app.dispatched(key).0.valid(),
{
    if let Some(modal) = app.modal {
        lemma_modal_valid(app.taken(), modal, key);
    } else if app.open_box() is Some {
        lemma_box_valid(app, key);
    } else if app.app_wide(key.code) is None {
        lemma_screen_valid(app, key);
    }
}

pub(crate) proof fn lemma_relisted_valid(app: AppView, loaded: Loaded)
    requires
        app.valid(),
    ensures
        app.relisted(loaded).valid(),
{
}

proof fn lemma_anchored_valid(app: AppView, anchor: Anchor)
    requires
        app.valid(),
    ensures
        app.anchored(anchor).valid(),
{
    crate::ledger::an_anchored_ledger_is_settled(app.cash, app.today);
    crate::ledger::an_anchored_ledger_is_settled(app.credit, app.today);
}

/// Reading everything again keeps every list drawing what its filters leave,
/// with its cursor among the rows drawn.
pub proof fn a_reload_keeps_the_app_whole(
    app: AppView,
    loaded: Loaded,
    anchor: Anchor,
    now: int,
)
    requires
        app.valid(),
    ensures
        app.reloaded(loaded, anchor, now).0.valid(),
{
    if let Some(rebased) = app.rebased(loaded.baseline@) {
        lemma_relisted_valid(rebased, loaded);
        lemma_anchored_valid(rebased.relisted(loaded), anchor);
    }
}

} // verus!
