//! The application: which screen is showing, what was last read, what is open
//! above it, and the dispatch that decides which of them a keystroke reaches.
//!
//! What only the outside can answer is handed to it as a [`Request`], and its
//! reply comes back through one of the functions below.

use crate::accounts::{accounts_key, AccountRow, AccountsVerb};
use crate::app_view::{
    drift_words, search_footer, AppView, FooterView, LedgerData, Loaded, STATUS_TTL,
};
use crate::autocomplete::{Autocomplete, PopupView, Suggestion};
use crate::confirm::Confirm;
use crate::cursor::Viewport;
use crate::date::{Date, MOST_DAYS};
use crate::fault::Fault;
use crate::destination::Chooser;
use crate::field::{DateField, DateFieldView};
use crate::form::{Form, FormFields};
use crate::form_keys::{form_key, FormVerb};
use crate::funds::{announce_refresh, refresh_status, Funds, FundsVerb, Refreshed};
use crate::help::{Help, HelpView};
use crate::history::{History, HistoryRow, HistoryVerb};
use crate::ids::{AccountId, GoalId};
use crate::key::{is_bare, KeyCode, KeyEvent};
use crate::label::Account;
use crate::ledger::{Kind, Ledger, LedgerVerb};
use crate::modal::{Anchor, Modal, ModalView, Opening, Purpose, Request};
use crate::money::Cents;
use crate::payday::{
    comes_to, prefills_view, wrote_status, wrote_words, Payday, PaydayFault, Prefill, Spread,
    TransferConfirm, TransfersVerb,
};
use crate::picker::{Picker, PickerVerb};
use crate::plan_line::{Destination, Line};
use crate::planning::{
    point, unpointable_status, value_form, Editable, Plan, Planning, PlanningVerb, Target,
};
use crate::recurring::{
    recurring_txn_key, RecurringGoalVerb, RecurringGoals, RecurringTxnRow, RecurringTxnVerb,
};
use crate::said::{self, spoken, Said};
use crate::savings::{Savings, SavingsVerb};
use crate::screen::{Screen, Topic};
use crate::search::{raw, search_key, spans_of, Listing, Search, SearchBox, Span, Unfiltered};
use crate::step::{week_step, Step};
use crate::text::write_number;
use crate::value_form::ValueForm;
use crate::worksheet::{
    posts, share_lines, BatchKind, PostFault, Posting, Sheet, SheetLine, SheetVerb,
};
use crate::written::Written;
use vstd::prelude::*;
use vstd::string::*;

verus! {

/// The whole application.
#[derive(Debug)]
pub struct App {
    today: Date,
    baseline: Date,
    adhoc: Date,
    entry_date: Option<Date>,
    screen: Screen,
    cash: Ledger,
    credit: Ledger,
    savings: Savings,
    planning: Planning,
    funds: Funds,
    recurring_txns: Listing<RecurringTxnRow>,
    recurring_goals: RecurringGoals,
    accounts: Listing<AccountRow>,
    popup: Autocomplete,
    modal: Option<Modal>,
    queue: Vec<Prefill>,
    help: Option<Help>,
    status: Said,
    until: Option<u64>,
    quit: bool,
    contact: bool,
    deferred: Option<Vec<String>>,
}

impl View for App {
    type V = AppView;

    closed spec fn view(&self) -> AppView {
        AppView {
            today: self.today@,
            baseline: self.baseline@,
            adhoc: self.adhoc@,
            entry_date: match self.entry_date {
                Some(date) => Some(date@),
                None => None,
            },
            screen: self.screen,
            cash: self.cash@,
            credit: self.credit@,
            savings: self.savings@,
            planning: self.planning@,
            funds: self.funds@,
            recurring_txns: self.recurring_txns@,
            recurring_goals: self.recurring_goals@,
            accounts: self.accounts@,
            popup: self.popup@,
            modal: match self.modal {
                Some(modal) => Some(modal@),
                None => None,
            },
            queue: prefills_view(self.queue@),
            help: match self.help {
                Some(help) => Some(help@),
                None => None,
            },
            status: self.status@,
            until: match self.until {
                Some(until) => Some(until as int),
                None => None,
            },
            quit: self.quit,
            contact: self.contact,
            deferred: match self.deferred {
                Some(tickers) => Some(tickers@),
                None => None,
            },
        }
    }
}

impl App {
    fn say(&mut self, status: &str)
        ensures
            final(self)@ == old(self)@.told(status@),
    {
        self.status = Said::of(status);
    }

    fn nothing_selected(&mut self)
        ensures
            final(self)@ == old(self)@.nothing_selected(),
    {
        self.say("nothing selected");
    }

    fn open(&mut self, modal: Modal)
        ensures
            final(self)@ == old(self)@.opened(modal@),
    {
        self.modal = Some(modal);
    }

    fn close_modal(&mut self)
        ensures
            final(self)@ == old(self)@.closed(),
    {
        self.modal = None;
        self.popup.clear();
    }

    /// The ledger on screen.
    pub fn ledger(&self) -> (ledger: &Ledger)
        ensures
            ledger@ == self@.ledger(),
    {
        match self.screen {
            Screen::Credit => &self.credit,
            _ => &self.cash,
        }
    }

    fn ledger_mut(&mut self) -> (ledger: &mut Ledger)
        ensures
            ledger@ == old(self)@.ledger(),
            final(self)@ == old(self)@.with_ledger(final(ledger)@),
    {
        match self.screen {
            Screen::Credit => &mut self.credit,
            _ => &mut self.cash,
        }
    }

    fn kind(&self) -> (kind: Kind)
        ensures
            kind == self@.kind(),
    {
        match self.screen {
            Screen::Credit => Kind::Credit,
            _ => Kind::Cash,
        }
    }

    /// Put both ledgers on the month the one on screen just stepped to.
    ///
    /// The brackets are one control over a month the two share, so switching
    /// between them compares the same weeks.
    fn sync_month(&mut self)
        ensures
            final(self)@ == old(self)@.synced(),
    {
        let window: i64 = self.ledger().window();
        self.cash.set_window(window);
        self.credit.set_window(window);
    }

    fn ledger_key(&mut self, key: KeyEvent) -> (request: Request)
        requires
            old(self)@.valid(),
        ensures
            (final(self)@, request) == old(self)@.ledger_pressed(key),
    {
        let today = self.today;
        let kind = self.kind();
        proof {
            crate::ledger::a_ledger_stays_settled(self@.ledger(), key, today@);
        }
        let verb = self.ledger_mut().ledger_key(key, today);
        match verb {
            LedgerVerb::Answered => Request::Nothing,
            LedgerVerb::SyncMonth => {
                self.sync_month();
                Request::Reload(Anchor::Both)
            },
            LedgerVerb::Anchor => Request::Reload(Anchor::Active),
            LedgerVerb::Reconcile => {
                match self.ledger().open_reconcile() {
                    Some((account, form)) => self.open(Modal::Reconcile { account, form }),
                    None => self.say("reconcile needs an account filter"),
                }
                Request::Nothing
            },
            LedgerVerb::Add => {
                let account = self.ledger().selected_account();
                Request::Open(Opening::Txn { kind, account })
            },
            LedgerVerb::Transfer => Request::Open(Opening::Transfer),
            LedgerVerb::Payment => Request::Open(Opening::Payment),
            LedgerVerb::Edit => {
                let id = match self.ledger().selected() {
                    Some(row) => row.id,
                    None => {
                        self.nothing_selected();
                        return Request::Nothing;
                    },
                };
                Request::Open(Opening::TxnEdit(id))
            },
            LedgerVerb::Delete => {
                let (action, label) = match self.ledger().selected() {
                    Some(row) => (Confirm::DeleteTxn(row.id), row.label()),
                    None => {
                        self.nothing_selected();
                        return Request::Nothing;
                    },
                };
                self.open(Modal::Confirm { action, label });
                Request::Nothing
            },
        }
    }

    /// The goal under the cursor and where it sits.
    fn selected_goal(&self) -> (goal: Option<(GoalId, AccountId, bool)>)
        requires
            self@.savings.list.settled(),
        ensures
            match goal {
                Some((goal, container, favorite)) => self@.savings.list.chosen() matches Some(row)
                    && row.goal == goal && row.container == container && row.favorite == favorite,
                None => self@.savings.list.chosen() is None,
            },
    {
        match self.savings.selected() {
            Some(row) => Some((row.goal, row.container, row.favorite)),
            None => None,
        }
    }

    /// The container the savings are narrowed to, or a word that there is
    /// none.
    fn container_or_say(&mut self) -> (container: Option<AccountId>)
        ensures
            container == old(self)@.savings.default_container(),
            container is Some ==> final(self)@ == old(self)@,
            container is None ==> final(self)@ == old(self)@.told(
                "no container holds goals yet"@,
            ),
    {
        let container = self.savings.default_container();
        if container.is_none() {
            self.say("no container holds goals yet");
        }
        container
    }

    fn savings_key(&mut self, key: KeyEvent) -> (request: Request)
        requires
            old(self)@.valid(),
        ensures
            (final(self)@, request) == old(self)@.savings_pressed(key),
    {
        proof {
            crate::savings::the_savings_stay_settled(self@.savings, key);
        }
        match self.savings.savings_key(key) {
            SavingsVerb::Answered => Request::Nothing,
            SavingsVerb::Undo => Request::Open(Opening::Undo),
            SavingsVerb::Payday => match self.container_or_say() {
                Some(id) => Request::Open(Opening::Payday(id)),
                None => Request::Nothing,
            },
            SavingsVerb::Interest => match self.container_or_say() {
                Some(id) => Request::Open(Opening::Interest(id)),
                None => Request::Nothing,
            },
            SavingsVerb::NewGoal => match self.container_or_say() {
                Some(id) => Request::Open(Opening::NewGoal(id)),
                None => Request::Nothing,
            },
            SavingsVerb::Move(way) => match self.savings.moving() {
                Ok((goal, container)) => Request::Reorder { goal, container, way },
                Err(why) => {
                    self.status = why;
                    Request::Nothing
                },
            },
            verb => match self.selected_goal() {
                None => {
                    self.nothing_selected();
                    Request::Nothing
                },
                Some((goal, container, favorite)) => match verb {
                    SavingsVerb::Allocate => Request::Open(Opening::Allocation(goal)),
                    SavingsVerb::Transfer => Request::Open(
                        Opening::GoalTransfer { goal, container },
                    ),
                    SavingsVerb::Edit => Request::Open(Opening::GoalEdit(goal)),
                    SavingsVerb::CloseOut => Request::Open(
                        Opening::CloseOut { goal, container },
                    ),
                    SavingsVerb::Favorite => Request::Favorite { goal, favorite: !favorite },
                    _ => Request::Open(Opening::History { goal, container }),
                },
            },
        }
    }

    /// `e` on the plan: a constant is typed into a one-field form, a
    /// destination is chosen from the goals that exist.
    fn open_value_edit(&mut self) -> (request: Request)
        requires
            old(self)@.planning.list.settled(),
        ensures
            (final(self)@, request) == old(self)@.planning_verb(PlanningVerb::EditValue),
    {
        let opened = match self.planning.selected() {
            None => None,
            Some(row) => match row.editable {
                Editable::Destination(line) => return Request::Open(Opening::Destination(line)),
                Editable::Constant(target) => Some((target, value_form(row, target))),
            },
        };
        match opened {
            None => self.nothing_selected(),
            Some((target, form)) => self.open(Modal::Value { target, form }),
        }
        Request::Nothing
    }

    fn planning_key(&mut self, key: KeyEvent) -> (request: Request)
        requires
            old(self)@.valid(),
        ensures
            (final(self)@, request) == old(self)@.planning_pressed(key),
    {
        proof {
            crate::planning::the_planning_stays_settled(self@.planning, key);
        }
        match self.planning.planning_key(key) {
            PlanningVerb::Answered => Request::Nothing,
            PlanningVerb::AddBill => Request::Open(Opening::Bill(None)),
            PlanningVerb::Transfers => Request::Open(Opening::Transfers),
            PlanningVerb::EditValue => self.open_value_edit(),
            PlanningVerb::EditBill => match self.planning.selected_bill() {
                Some(id) => Request::Open(Opening::Bill(Some(id))),
                None => {
                    self.say("only a bill has fields to edit");
                    Request::Nothing
                },
            },
            PlanningVerb::DeleteBill => match self.planning.selected_bill() {
                Some(id) => Request::Open(Opening::BillDelete(id)),
                None => {
                    self.say("only a bill can be deleted");
                    Request::Nothing
                },
            },
            PlanningVerb::Pin => match self.planning.pin() {
                Some((cents, status)) => {
                    self.status = status;
                    Request::Pin(cents)
                },
                None => {
                    self.say("nothing to pin");
                    Request::Nothing
                },
            },
            PlanningVerb::Unpin => {
                if self.planning.is_pinned() {
                    self.say("unpinned");
                    Request::Unpin
                } else {
                    self.say("nothing pinned");
                    Request::Nothing
                }
            },
            PlanningVerb::Details => {
                let lines = copy_texts(self.planning.detail());
                if lines.len() == 0 {
                    self.say("the transfers resolve; nothing to explain");
                } else {
                    self.open(Modal::Details("Transfers unresolved", lines));
                }
                Request::Nothing
            },
        }
    }

    /// Say what a refresh of `tickers` is about to do, and leave the fetch for
    /// after the draw.
    fn announce(&mut self, tickers: Vec<String>)
        ensures
            final(self)@ == old(self)@.announced(tickers@),
    {
        let (words, fetch) = announce_refresh(self.contact, &tickers);
        self.status = words;
        if fetch {
            self.deferred = Some(tickers);
        }
    }

    fn funds_key(&mut self, key: KeyEvent) -> (request: Request)
        requires
            old(self)@.valid(),
        ensures
            (final(self)@, request) == old(self)@.funds_pressed(key),
    {
        proof {
            crate::funds::the_funds_stay_settled(self@.funds, key);
        }
        match self.funds.funds_key(key) {
            FundsVerb::Answered => Request::Nothing,
            FundsVerb::RefreshEvery => Request::Tickers,
            FundsVerb::Add => {
                let account = self.funds.filter_account();
                Request::Open(Opening::Holding { editing: None, account })
            },
            verb => {
                let (id, label, ticker) = match self.funds.selected() {
                    Some(row) => (row.id, row.label(), row.ticker.clone()),
                    None => {
                        self.nothing_selected();
                        return Request::Nothing;
                    },
                };
                match verb {
                    FundsVerb::Edit => {
                        let account = self.funds.filter_account();
                        Request::Open(Opening::Holding { editing: Some(id), account })
                    },
                    FundsVerb::Delete => {
                        self.open(
                            Modal::Confirm { action: Confirm::DeleteHolding(id), label },
                        );
                        Request::Nothing
                    },
                    _ => {
                        let mut tickers: Vec<String> = Vec::new();
                        tickers.push(ticker);
                        proof {
                            assert(tickers@ =~= seq![ticker]);
                        }
                        self.announce(tickers);
                        Request::Nothing
                    },
                }
            },
        }
    }

    fn recurring_txn_key(&mut self, key: KeyEvent) -> (request: Request)
        requires
            old(self)@.valid(),
        ensures
            (final(self)@, request) == old(self)@.recurring_txn_pressed(key),
    {
        match recurring_txn_key(&mut self.recurring_txns, key) {
            RecurringTxnVerb::Answered => Request::Nothing,
            RecurringTxnVerb::Add => Request::Open(Opening::RecurringTxn(None)),
            RecurringTxnVerb::RegenerateEvery => Request::RegenerateEvery,
            verb => {
                let (id, label) = match self.recurring_txns.selected() {
                    Some(row) => (row.id, row.label()),
                    None => {
                        self.nothing_selected();
                        return Request::Nothing;
                    },
                };
                match verb {
                    RecurringTxnVerb::Edit => Request::Open(Opening::RecurringTxn(Some(id))),
                    RecurringTxnVerb::Delete => {
                        self.open(
                            Modal::Confirm { action: Confirm::DeleteRecurringTxn(id), label },
                        );
                        Request::Nothing
                    },
                    RecurringTxnVerb::Regenerate => Request::Regenerate(id),
                    RecurringTxnVerb::Extend => Request::Extend(id),
                    _ => Request::MakePaycheck(id),
                }
            },
        }
    }

    fn recurring_goal_key(&mut self, key: KeyEvent) -> (request: Request)
        requires
            old(self)@.valid(),
        ensures
            (final(self)@, request) == old(self)@.recurring_goal_pressed(key),
    {
        proof {
            crate::recurring::the_catalog_stays_settled(self@.recurring_goals, key);
        }
        match self.recurring_goals.recurring_goal_key(key) {
            RecurringGoalVerb::Answered => Request::Nothing,
            RecurringGoalVerb::Add => Request::Open(Opening::RecurringGoal(None)),
            RecurringGoalVerb::Seed => match self.container_or_say() {
                Some(container) => {
                    let month = self.recurring_goals.selected_month();
                    Request::Open(Opening::Seed { container, month })
                },
                None => Request::Nothing,
            },
            verb => {
                let id = match self.recurring_goals.selected() {
                    Some(row) => row.id,
                    None => {
                        self.nothing_selected();
                        return Request::Nothing;
                    },
                };
                match verb {
                    RecurringGoalVerb::Edit => Request::Open(Opening::RecurringGoal(Some(id))),
                    _ => Request::Open(Opening::RecurringGoalDelete(id)),
                }
            },
        }
    }

    fn accounts_key(&mut self, key: KeyEvent) -> (request: Request)
        requires
            old(self)@.valid(),
        ensures
            (final(self)@, request) == old(self)@.accounts_pressed(key),
    {
        match accounts_key(&mut self.accounts, key) {
            AccountsVerb::Answered => Request::Nothing,
            AccountsVerb::Add => Request::Open(Opening::Account(None)),
            AccountsVerb::Edit => {
                let id = match self.accounts.selected() {
                    Some(row) => row.record.account.id,
                    None => {
                        self.nothing_selected();
                        return Request::Nothing;
                    },
                };
                Request::Open(Opening::Account(Some(id)))
            },
        }
    }

    /// How far the view has been scrubbed from the date it was derived from.
    pub fn scrubbed_days(&self) -> (days: i64)
        ensures
            days == self@.drift(),
            -MOST_DAYS <= days <= MOST_DAYS,
    {
        self.adhoc.days_since(self.baseline)
    }

    /// Move the date the middle column is quoted at. Nothing stores it.
    fn scrub(&mut self, key: KeyEvent) -> (request: Request)
        requires
            key.code is Left || key.code is Right,
        ensures
            (final(self)@, request) == old(self)@.overview_pressed(key),
    {
        let step = match key.code {
            KeyCode::Left => week_step(key, Step::previous_week(), Step::previous()),
            _ => week_step(key, Step::next_week(), Step::next()),
        };
        match step.apply(self.adhoc) {
            Some(to) => {
                self.adhoc = to;
                let drift: i64 = self.scrubbed_days();
                self.say(&drift_status(drift));
                Request::Reprice
            },
            None => {
                self.say("the ad-hoc date ran off the end of the calendar");
                Request::Nothing
            },
        }
    }

    fn overview_key(&mut self, key: KeyEvent) -> (request: Request)
        ensures
            (final(self)@, request) == old(self)@.overview_pressed(key),
    {
        match key.code {
            KeyCode::Left => self.scrub(key),
            KeyCode::Right => self.scrub(key),
            _ => Request::Nothing,
        }
    }

    fn screen_key(&mut self, key: KeyEvent) -> (request: Request)
        requires
            old(self)@.valid(),
        ensures
            (final(self)@, request) == old(self)@.screen_pressed(key),
    {
        match self.screen {
            Screen::Overview => self.overview_key(key),
            Screen::Cash | Screen::Credit => self.ledger_key(key),
            Screen::Savings => self.savings_key(key),
            Screen::Planning => self.planning_key(key),
            Screen::Funds => self.funds_key(key),
            Screen::RecurringTxns => self.recurring_txn_key(key),
            Screen::RecurringGoals => self.recurring_goal_key(key),
            Screen::Accounts => self.accounts_key(key),
        }
    }
}

impl App {
    /// What is left of a form and what is asked for, once its keys have been
    /// answered.
    fn after_form(&mut self, modal: Modal, verb: FormVerb, asks: bool) -> (request: Request)
        ensures
            match verb {
                FormVerb::Answered => final(self)@ == old(self)@.opened(modal@) && request
                    == Request::Nothing,
                FormVerb::Close => final(self)@ == old(self)@.closed() && request
                    == Request::Nothing,
                FormVerb::Commit => final(self)@ == old(self)@.opened(modal@) && request
                    == Request::Commit,
                FormVerb::Suggest => if asks {
                    final(self)@ == old(self)@.opened(modal@) && request == Request::Suggest
                } else {
                    final(self)@ == old(self)@.held(modal@, PopupView::closed()) && request
                        == Request::Nothing
                },
            },
    {
        match verb {
            FormVerb::Answered => {
                self.modal = Some(modal);
                Request::Nothing
            },
            FormVerb::Close => {
                self.close_modal();
                Request::Nothing
            },
            FormVerb::Commit => {
                self.modal = Some(modal);
                Request::Commit
            },
            FormVerb::Suggest => {
                self.modal = Some(modal);
                if asks {
                    Request::Suggest
                } else {
                    self.popup.clear();
                    Request::Nothing
                }
            },
        }
    }

    /// An empty field clears the target: that is how one goes away, since
    /// `Esc` means "leave the figure alone" everywhere else.
    ///
    /// Read before the form closes, so a rejected figure keeps the form and
    /// everything typed into it.
    fn commit_reconcile(
        &mut self,
        account: AccountId,
        form: ValueForm,
    )
        requires
            old(self)@.modal is None,
        ensures
            final(self)@ == old(self)@.reconciled(account, form@),
    {
        match self.ledger_mut().reconcile(account, form.value()) {
            Ok(status) => {
                self.close_modal();
                self.status = status;
            },
            Err(why) => {
                self.modal = Some(Modal::Reconcile { account, form });
                self.status = why.said();
            },
        }
    }

    fn reconcile_key(
        &mut self,
        account: AccountId,
        form: ValueForm,
        key: KeyEvent,
    ) -> (request: Request)
        requires
            old(self)@.modal is None,
        ensures
            (final(self)@, request) == old(self)@.reconcile_pressed(account, form@, key),
    {
        let mut form = form;
        let ghost before = form@;
        let verb = form_key(&mut form, &mut self.popup, key);
        proof {
            assert(form@ == before.shaped(form.shape()));
        }
        if let FormVerb::Commit = verb {
            self.commit_reconcile(account, form);
            return Request::Nothing;
        }
        let asks = form.asks();
        self.after_form(Modal::Reconcile { account, form }, verb, asks)
    }

    fn worksheet_key(&mut self, sheet: Sheet, key: KeyEvent) -> (request: Request)
        requires
            old(self)@.modal is None,
        ensures
            (final(self)@, request) == old(self)@.worksheet_pressed(sheet@, key),
    {
        let mut sheet = sheet;
        match sheet.worksheet_key(key) {
            SheetVerb::Answered => {
                self.modal = Some(Modal::Worksheet(sheet));
                Request::Nothing
            },
            SheetVerb::Cancel => {
                self.close_modal();
                self.say("cancelled");
                self.next_sheet()
            },
            SheetVerb::Commit => {
                self.modal = Some(Modal::Worksheet(sheet));
                Request::Commit
            },
            SheetVerb::Operate(op) => {
                self.modal = Some(Modal::Worksheet(sheet));
                Request::Operate(op)
            },
        }
    }

    /// Ask for the next worksheet in the queue, where one waits.
    fn next_sheet(&self) -> (request: Request)
        ensures
            request == (if self@.queue.len() > 0 {
                Request::Open(Opening::NextSheet)
            } else {
                Request::Nothing
            }),
    {
        if self.queue.len() > 0 {
            Request::Open(Opening::NextSheet)
        } else {
            Request::Nothing
        }
    }

    /// `Enter` on the destination list.
    fn choose_destination(&mut self, chooser: Chooser) -> (request: Request)
        requires
            old(self)@.modal is None,
            chooser@.list.settled(),
        ensures
            (final(self)@, request) == old(self)@.destination_chosen(chooser@),
    {
        let line = chooser.line();
        let request = match line.destination() {
            Destination::Goal => match chooser.selected() {
                Some(choice) => Request::Point(line, point(line, choice).0),
                None => {
                    self.nothing_selected();
                    Request::Nothing
                },
            },
            _ => {
                self.say(&unpointable_status(line));
                Request::Nothing
            },
        };
        self.modal = Some(Modal::Destination(chooser));
        request
    }

    fn destination_key(&mut self, chooser: Chooser, key: KeyEvent) -> (request: Request)
        requires
            old(self)@.modal is None,
            chooser@.list.settled(),
        ensures
            (final(self)@, request) == old(self)@.destination_pressed(chooser@, key),
    {
        let mut chooser = chooser;
        if chooser.is_searching() {
            search_key(&mut chooser, key);
            self.modal = Some(Modal::Destination(chooser));
            return Request::Nothing;
        }
        if let KeyCode::Enter = key.code {
            return self.choose_destination(chooser);
        }
        if chooser.scroll(key.code) {
            self.modal = Some(Modal::Destination(chooser));
            return Request::Nothing;
        }
        match key.code {
            KeyCode::Esc => {
                if !chooser.escape_needle() {
                    self.close_modal();
                    return Request::Nothing;
                }
            },
            KeyCode::Char('/') => chooser.begin_search(),
            _ => {},
        }
        self.modal = Some(Modal::Destination(chooser));
        Request::Nothing
    }

    fn history_key(&mut self, history: History, key: KeyEvent) -> (request: Request)
        requires
            old(self)@.modal is None,
            history@.valid(),
        ensures
            (final(self)@, request) == old(self)@.history_pressed(history@, key),
    {
        let mut history = history;
        let verb = history.history_key(&mut self.popup, key);
        let asks = history.asks();
        match verb {
            HistoryVerb::Close => {
                self.close_modal();
                return Request::Nothing;
            },
            _ => {},
        }
        self.modal = Some(Modal::History(history));
        match verb {
            HistoryVerb::Answered => Request::Nothing,
            HistoryVerb::Close => Request::Nothing,
            HistoryVerb::BeginEdit(id) => Request::Open(Opening::HistoryEdit(id)),
            HistoryVerb::NothingSelected => {
                self.nothing_selected();
                Request::Nothing
            },
            HistoryVerb::CommitEdit => Request::Commit,
            HistoryVerb::Suggest => {
                if asks {
                    Request::Suggest
                } else {
                    self.popup.clear();
                    Request::Nothing
                }
            },
            HistoryVerb::Confirmed(action) => Request::Write(action),
            HistoryVerb::Cancelled(action) => {
                self.say(action.cancelled());
                Request::Nothing
            },
        }
    }

    /// Any key but `y` cancels.
    ///
    /// The write runs while the question is still up, so a refusal leaves it
    /// on screen with the reason under it.
    fn confirm_key(&mut self, action: Confirm, label: Said, key: KeyEvent) -> (request: Request)
        requires
            old(self)@.modal is None,
        ensures
            (final(self)@, request) == old(self)@.confirm_pressed(action, label@, key),
    {
        if let KeyCode::Char('y') = key.code {
            self.modal = Some(Modal::Confirm { action, label });
            Request::Write(action)
        } else {
            self.close_modal();
            self.say(action.cancelled());
            Request::Nothing
        }
    }

    fn form_modal_key(&mut self, purpose: Purpose, form: Form, key: KeyEvent) -> (request: Request)
        requires
            old(self)@.modal is None,
            form@.valid(),
        ensures
            (final(self)@, request) == old(self)@.form_modal_pressed(purpose, form@, key),
    {
        let mut form = form;
        let verb = form_key(&mut form, &mut self.popup, key);
        let asks = form.asks();
        self.after_form(Modal::Form { purpose, form }, verb, asks)
    }

    fn value_key(&mut self, target: Target, form: ValueForm, key: KeyEvent) -> (request: Request)
        requires
            old(self)@.modal is None,
        ensures
            (final(self)@, request) == old(self)@.value_pressed(target, form@, key),
    {
        let mut form = form;
        let ghost before = form@;
        let verb = form_key(&mut form, &mut self.popup, key);
        proof {
            assert(form@ == before.shaped(form.shape()));
        }
        let asks = form.asks();
        self.after_form(Modal::Value { target, form }, verb, asks)
    }

    fn picker_key(&mut self, picker: Picker, key: KeyEvent) -> (request: Request)
        requires
            old(self)@.modal is None,
            picker@.valid(),
        ensures
            (final(self)@, request) == old(self)@.picker_pressed(picker@, key),
    {
        let mut picker = picker;
        match picker.picker_key(key) {
            PickerVerb::Answered => {
                self.modal = Some(Modal::Picker(picker));
                Request::Nothing
            },
            PickerVerb::Close => {
                self.close_modal();
                Request::Nothing
            },
            PickerVerb::Commit => {
                let none = picker.chosen().len() == 0;
                self.modal = Some(Modal::Picker(picker));
                if none {
                    self.nothing_selected();
                    Request::Nothing
                } else {
                    Request::Commit
                }
            },
        }
    }

    fn transfers_key(&mut self, confirm: TransferConfirm, key: KeyEvent) -> (request: Request)
        requires
            old(self)@.modal is None,
        ensures
            (final(self)@, request) == old(self)@.transfers_pressed(confirm@, key),
    {
        let mut confirm = confirm;
        match confirm.transfers_key(key) {
            TransfersVerb::Answered => {
                self.modal = Some(Modal::Transfers(confirm));
                Request::Nothing
            },
            TransfersVerb::Cancel => {
                self.close_modal();
                self.say("cancelled");
                Request::Nothing
            },
            TransfersVerb::Commit => {
                self.modal = Some(Modal::Transfers(confirm));
                Request::Commit
            },
        }
    }

    fn details_key(
        &mut self,
        title: &'static str,
        lines: Vec<String>,
        key: KeyEvent,
    ) -> (request: Request)
        requires
            old(self)@.modal is None,
        ensures
            (final(self)@, request) == old(self)@.details_pressed(title@, lines@, key),
    {
        if let KeyCode::Esc = key.code {
            self.close_modal();
        } else {
            self.modal = Some(Modal::Details(title, lines));
        }
        Request::Nothing
    }

    /// Which handler answers the keys of what is open above the screen.
    fn modal_key(&mut self, modal: Modal, key: KeyEvent) -> (request: Request)
        requires
            old(self)@.modal is None,
            modal@.valid(),
        ensures
            (final(self)@, request) == old(self)@.modal_pressed(modal@, key),
    {
        match modal {
            Modal::Confirm { action, label } => self.confirm_key(action, label, key),
            Modal::Form { purpose, form } => self.form_modal_key(purpose, form, key),
            Modal::Value { target, form } => self.value_key(target, form, key),
            Modal::Reconcile { account, form } => self.reconcile_key(account, form, key),
            Modal::Worksheet(sheet) => self.worksheet_key(sheet, key),
            Modal::Picker(picker) => self.picker_key(picker, key),
            Modal::Destination(chooser) => self.destination_key(chooser, key),
            Modal::Details(title, lines) => self.details_key(title, lines, key),
            Modal::Transfers(confirm) => self.transfers_key(confirm, key),
            Modal::History(history) => self.history_key(history, key),
        }
    }
}

impl App {
    /// What the live keys are about.
    pub fn topic(&self) -> (topic: Topic)
        ensures
            topic == self@.topic(),
    {
        if let Some(modal) = &self.modal {
            return modal.topic();
        }
        let searching = self.is_searching();
        match self.screen {
            Screen::Overview => Topic::Overview,
            Screen::Cash | Screen::Credit => if searching {
                Topic::LedgerSearch
            } else {
                Topic::Ledger
            },
            Screen::Savings => if searching {
                Topic::SavingsSearch
            } else {
                Topic::Savings
            },
            Screen::Planning => Topic::Planning,
            Screen::Funds => if searching {
                Topic::FundsSearch
            } else {
                Topic::Funds
            },
            Screen::RecurringGoals => if searching {
                Topic::RecurringGoalsSearch
            } else {
                Topic::RecurringGoals
            },
            Screen::RecurringTxns => Topic::RecurringTxns,
            Screen::Accounts => Topic::Accounts,
        }
    }

    /// Whether a box is open over the screen.
    pub fn is_searching(&self) -> (searching: bool)
        ensures
            searching == self@.open_box() is Some,
    {
        match self.screen {
            Screen::Cash | Screen::Credit => self.ledger().list().is_searching(),
            Screen::Savings => self.savings.list().is_searching(),
            Screen::Funds => self.funds.list().is_searching(),
            Screen::RecurringGoals => self.recurring_goals.list().is_searching(),
            _ => false,
        }
    }

    /// Every key while a box is open over the screen. The boxes narrow lists
    /// already in memory, so a keystroke is the list's own refilter.
    fn box_key(&mut self, key: KeyEvent)
        ensures
            final(self)@ == old(self)@.box_pressed(key),
    {
        match self.screen {
            Screen::Cash | Screen::Credit => self.ledger_mut().box_key(key),
            Screen::Savings => self.savings.list_mut().box_key(key),
            Screen::Funds => self.funds.list_mut().box_key(key),
            Screen::RecurringGoals => self.recurring_goals.list_mut().box_key(key),
            _ => {},
        }
    }

    /// The keys that mean the same on every screen. Says whether this was one.
    fn app_wide_key(&mut self, code: KeyCode) -> (answer: Option<Request>)
        ensures
            match old(self)@.app_wide(code) {
                Some((app, request)) => answer == Some(request) && final(self)@ == app,
                None => answer is None && final(self)@ == old(self)@,
            },
    {
        match code {
            KeyCode::Char('q') => {
                self.quit = true;
                Some(Request::Nothing)
            },
            KeyCode::Char(c) => match Screen::from_key(c) {
                Some(screen) => {
                    self.screen = screen;
                    match screen {
                        Screen::Funds if self.funds.needs_birth_date() => Some(
                            Request::Open(Opening::BirthDate),
                        ),
                        _ => Some(Request::Nothing),
                    }
                },
                None => None,
            },
            _ => None,
        }
    }

    /// The help panel's keys, and the keys that open it. Says whether the key
    /// was one of them.
    fn help_key(&mut self, key: KeyEvent) -> (consumed: bool)
        ensures
            consumed == (old(self)@.help is Some || old(self)@.opens_help(key.code)),
            consumed ==> (final(self)@, Request::Nothing) == old(self)@.dispatched(key),
            !consumed ==> final(self)@ == old(self)@,
    {
        if let Some(help) = self.help {
            let mut help = help;
            self.help = if help.help_key(key) {
                Some(help)
            } else {
                None
            };
            return true;
        }
        let topic = self.topic();
        let opens = match key.code {
            KeyCode::F(1) => true,
            KeyCode::Char('?') => !topic.takes_typed_chars(),
            _ => false,
        };
        if opens {
            self.help = Some(Help::new(topic));
        }
        opens
    }

    /// Answer a key, from the top down.
    fn dispatch(&mut self, key: KeyEvent) -> (request: Request)
        requires
            old(self)@.valid(),
        ensures
            (final(self)@, request) == old(self)@.dispatched(key),
    {
        if self.help_key(key) {
            return Request::Nothing;
        }
        // `Ctrl` means editing the text under the caret, and `Alt` means
        // nothing at all -- so where there is no caret, a modified character
        // is dropped rather than read as the bare letter it arrives as.
        if let KeyCode::Char(_) = key.code {
            if !is_bare(key) && !self.topic().takes_editing_keys() {
                return Request::Nothing;
            }
        }
        if let Some(modal) = self.modal.take() {
            return self.modal_key(modal, key);
        }
        if self.is_searching() {
            self.box_key(key);
            return Request::Nothing;
        }
        match self.app_wide_key(key.code) {
            Some(request) => request,
            None => self.screen_key(key),
        }
    }

    /// Answer a key press at `now`, in milliseconds: the last message goes,
    /// the key is answered, and the clock of whatever it said starts.
    ///
    /// What the key asks of the outside comes back, and the outside's answer
    /// through one of the functions below.
    pub fn on_key(&mut self, key: KeyEvent, now: u64) -> (request: Request)
        requires
            old(self)@.valid(),
        ensures
            (final(self)@, request) == old(self)@.keyed(key, now as int),
            final(self)@.valid(),
    {
        self.status = Said::nothing();
        proof {
            crate::app_view::every_key_keeps_the_app_whole(self@, key);
        }
        let request = self.dispatch(key);
        self.start_clock(now);
        request
    }

    fn start_clock(&mut self, now: u64)
        ensures
            final(self)@ == old(self)@.timed(now as int),
    {
        self.until = if !self.status.is_empty() && self.modal.is_none() {
            Some(now.saturating_add(STATUS_TTL))
        } else {
            None
        };
    }

    /// Drop a message that has outlived its time at `now`, and say whether
    /// one was dropped: an expiry is the one thing that changes the footer
    /// with no event behind it.
    pub fn expire_status(&mut self, now: u64) -> (expired: bool)
        ensures
            expired == old(self)@.outlived(now as int),
            final(self)@ == old(self)@.expired(now as int),
    {
        let expired = match self.until {
            Some(until) => now >= until,
            None => false,
        };
        if expired {
            self.status = Said::nothing();
            self.until = None;
        }
        expired
    }

    pub fn should_quit(&self) -> (quit: bool)
        ensures
            quit == self@.quit,
    {
        self.quit
    }
}

impl App {
    /// The application as it starts: everything read, on the overview, with
    /// both ledgers on the last row dated on or before `today`.
    pub fn new(today: Date, contact: bool, loaded: Loaded) -> (app: App)
        ensures
            app@ == AppView::blank(today@, loaded.baseline@, contact).reloaded(
                loaded,
                Anchor::Both,
                0,
            ).0,
            app@.valid(),
    {
        let mut app = App::blank(today, loaded.baseline, contact);
        let _ = app.reload(loaded, Anchor::Both, 0);
        app
    }

    fn blank(today: Date, baseline: Date, contact: bool) -> (app: App)
        ensures
            app@ == AppView::blank(today@, baseline@, contact),
            app@.valid(),
    {
        let rules: Vec<RecurringTxnRow> = Vec::new();
        let accounts: Vec<AccountRow> = Vec::new();
        let queue: Vec<Prefill> = Vec::new();
        let popup = Autocomplete::default();
        let month: u32 = today.month();
        let app = App {
            today,
            baseline,
            adhoc: baseline,
            entry_date: None,
            screen: Screen::Overview,
            cash: Ledger::new(Kind::Cash, today),
            credit: Ledger::new(Kind::Credit, today),
            savings: Savings::new(),
            planning: Planning::new(),
            funds: Funds::new(),
            recurring_txns: Listing::new(rules, Unfiltered),
            recurring_goals: RecurringGoals::new(month as i64),
            accounts: Listing::new(accounts, Unfiltered),
            popup,
            modal: None,
            queue,
            help: None,
            status: Said::nothing(),
            until: None,
            quit: false,
            contact,
            deferred: None,
        };
        proof {
            assert(rules@ =~= Seq::empty());
            assert(accounts@ =~= Seq::empty());
            assert(prefills_view(queue@) =~= Seq::empty());
        }
        app
    }

    fn relist_ledgers(&mut self, cash: LedgerData, credit: LedgerData, range: Option<(i64, i64)>)
        ensures
            final(self)@ == (AppView {
                cash: old(self)@.cash.relisted(cash, range),
                credit: old(self)@.credit.relisted(credit, range),
                ..old(self)@
            }),
    {
        self.cash.set_accounts(cash.accounts);
        self.cash.set_range(range);
        self.cash.set_rows(cash.rows);
        self.cash.set_total(cash.total);
        self.credit.set_accounts(credit.accounts);
        self.credit.set_range(range);
        self.credit.set_rows(credit.rows);
        self.credit.set_total(credit.total);
    }

    fn relist(&mut self, loaded: Loaded)
        ensures
            final(self)@ == old(self)@.relisted(loaded),
    {
        self.relist_ledgers(loaded.cash, loaded.credit, loaded.range);
        self.savings.set_accounts(loaded.accounts);
        self.savings.set_goals(loaded.goals, loaded.months, loaded.excess);
        match loaded.plan {
            Ok(plan) => self.planning.set_view(plan),
            Err(why) => self.planning.set_unavailable(why),
        }
        self.funds.set_mixes(loaded.mixes);
        self.funds.set_targets(loaded.targets);
        self.funds.set_needs_birth_date(loaded.needs_birth_date);
        self.funds.set_rows(loaded.fund_accounts, loaded.holdings);
        self.recurring_txns.set_rows(loaded.recurring_txns);
        self.recurring_goals.set_rows(loaded.recurring_goals);
        self.accounts.set_rows(loaded.account_rows);
    }

    fn anchor(&mut self, anchor: Anchor)
        requires
            old(self)@.valid(),
        ensures
            final(self)@ == old(self)@.anchored(anchor),
    {
        let today = self.today;
        match anchor {
            Anchor::Keep => {},
            Anchor::Active => self.ledger_mut().select_at_or_before(today),
            Anchor::Both => {
                self.cash.select_at_or_before(today);
                self.credit.select_at_or_before(today);
            },
        }
    }

    /// Carry the scrub over to a new baseline, where the calendar has it.
    fn rebase(&mut self, baseline: Date) -> (rebased: bool)
        ensures
            match old(self)@.rebased(baseline@) {
                Some(app) => rebased && final(self)@ == app,
                None => !rebased && final(self)@ == old(self)@,
            },
    {
        let drift: i64 = self.scrubbed_days();
        match baseline.add_days(drift) {
            Some(adhoc) => {
                self.baseline = baseline;
                self.adhoc = adhoc;
                true
            },
            None => false,
        }
    }

    fn show(&mut self, loaded: Loaded, anchor: Anchor, now: u64)
        requires
            old(self)@.valid(),
        ensures
            final(self)@ == old(self)@.relisted(loaded).anchored(anchor).timed(now as int),
    {
        proof {
            crate::app_view::lemma_relisted_valid(self@, loaded);
        }
        self.relist(loaded);
        self.anchor(anchor);
        self.start_clock(now);
    }

    /// Show what was read again.
    ///
    /// The scrub is an offset from the date it was derived from, so it moves
    /// with that date rather than being silently reinterpreted against a new
    /// one.
    pub fn reload(&mut self, loaded: Loaded, anchor: Anchor, now: u64) -> (request: Request)
        requires
            old(self)@.valid(),
        ensures
            (final(self)@, request) == old(self)@.reloaded(loaded, anchor, now as int),
            final(self)@.valid(),
    {
        proof {
            crate::app_view::a_reload_keeps_the_app_whole(self@, loaded, anchor, now as int);
        }
        if self.rebase(loaded.baseline) {
            self.show(loaded, anchor, now);
            self.next_request()
        } else {
            self.baseline = loaded.baseline;
            self.fail("the ad-hoc date ran off the end of the calendar", now);
            Request::Nothing
        }
    }

    /// Ask for the next worksheet in the queue, where nothing else is open.
    fn next_request(&self) -> (request: Request)
        ensures
            request == self@.next_request(),
    {
        if self.modal.is_none() {
            self.next_sheet()
        } else {
            Request::Nothing
        }
    }

    /// Say why a read failed, and drop the worksheets that were to open over
    /// what it would have read: a queue left behind with none of them on
    /// screen is one an unrelated key could resurrect.
    pub fn fail(&mut self, why: &str, now: u64)
        ensures
            final(self)@ == old(self)@.failed(why@, now as int),
            old(self)@.valid() ==> final(self)@.valid(),
    {
        let queue: Vec<Prefill> = Vec::new();
        proof {
            assert(prefills_view(queue@) =~= Seq::empty());
        }
        self.queue = queue;
        self.say(why);
        self.start_clock(now);
    }
}

/// What the outside answers a [`Request`] with.
impl App {
    /// Open what was asked for, once what it shows has been read.
    pub fn present(&mut self, modal: Modal, now: u64)
        requires
            old(self)@.valid(),
            modal@.valid(),
        ensures
            final(self)@ == old(self)@.opened(modal@).timed(now as int),
            final(self)@.valid(),
    {
        self.open(modal);
        self.start_clock(now);
    }

    /// Say what is wrong with what was typed. Whatever is open stays open,
    /// with everything typed into it.
    pub fn refuse_fault(&mut self, fault: &Fault, now: u64)
        requires
            old(self)@.valid(),
        ensures
            final(self)@ == old(self)@.said(fault@.said()).timed(now as int),
            final(self)@.valid(),
    {
        self.status = fault.said();
        self.start_clock(now);
    }

    /// Say why what was asked for was not done. Whatever is open stays open,
    /// with everything typed into it.
    pub fn refuse(&mut self, why: &str, now: u64)
        requires
            old(self)@.valid(),
        ensures
            final(self)@ == old(self)@.told(why@).timed(now as int),
            final(self)@.valid(),
    {
        self.say(why);
        self.start_clock(now);
    }

    /// Offer what the text under the caret may complete to.
    pub fn suggest(&mut self, hits: Vec<Suggestion>)
        requires
            old(self)@.valid(),
        ensures
            final(self)@ == (AppView {
                popup: PopupView {
                    suggestions: hits@,
                    selected: 0,
                    visible: hits@.len() as int,
                },
                ..old(self)@
            }),
            final(self)@.valid(),
    {
        self.popup.set(hits);
    }

    fn put_away(&mut self)
        requires
            old(self)@.valid(),
        ensures
            final(self)@ == old(self)@.put_away(),
            final(self)@.valid(),
    {
        match self.modal.take() {
            Some(Modal::History(history)) => {
                let mut history = history;
                history.to_list();
                self.modal = Some(Modal::History(history));
            },
            _ => self.close_modal(),
        }
    }

    /// Report a write that was made in words of its own: what was open is put
    /// away, and everything is read again.
    pub fn wrote(&mut self, status: &str, now: u64) -> (request: Request)
        requires
            old(self)@.valid(),
        ensures
            final(self)@ == old(self)@.wrote(said::words(status@), now as int),
            final(self)@.valid(),
            request == Request::Reload(Anchor::Keep),
    {
        self.report(Said::of(status), now)
    }

    fn report(&mut self, status: Said, now: u64) -> (request: Request)
        requires
            old(self)@.valid(),
        ensures
            final(self)@ == old(self)@.wrote(status@, now as int),
            final(self)@.valid(),
            request == Request::Reload(Anchor::Keep),
    {
        self.put_away();
        self.status = status;
        self.start_clock(now);
        Request::Reload(Anchor::Keep)
    }

    /// Report what a form wrote: it is put away, and everything is read again.
    /// A row added says which day the next one is entered for.
    pub fn written(&mut self, what: &Written, now: u64) -> (request: Request)
        requires
            old(self)@.valid(),
        ensures
            final(self)@ == old(self)@.recorded(*what, now as int),
            final(self)@.valid(),
            request == Request::Reload(Anchor::Keep),
    {
        if let Some(date) = what.entry_date() {
            self.entry_date = Some(date);
        }
        self.report(what.status(), now)
    }

    /// Report that the line was pointed where the destination list said.
    pub fn pointed(&mut self, now: u64) -> (request: Request)
        requires
            old(self)@.valid(),
        ensures
            match old(self)@.pointing() {
                Some((_, words)) => final(self)@ == old(self)@.wrote(words, now as int)
                    && request == Request::Reload(Anchor::Keep),
                None => final(self)@ == old(self)@ && request == Request::Nothing,
            },
            final(self)@.valid(),
    {
        let status = match &self.modal {
            Some(Modal::Destination(chooser)) => match chooser.selected() {
                Some(choice) => point(chooser.line(), choice).1,
                None => return Request::Nothing,
            },
            _ => return Request::Nothing,
        };
        self.report(status, now)
    }

    /// What writing the transfers being confirmed comes to, worked out before
    /// anything is written. Nothing, where none are being confirmed.
    pub fn payday(&self, pointed: &Vec<(Line, GoalId)>, spread: &Spread) -> (payday: Option<
        Result<Payday, PaydayFault>,
    >)
        ensures
            match payday {
                Some(payday) => self@.modal matches Some(ModalView::Transfers(confirm))
                    && comes_to(payday, confirm, pointed@, *spread),
                None => !(self@.modal matches Some(ModalView::Transfers(_))),
            },
    {
        match &self.modal {
            Some(Modal::Transfers(confirm)) => Some(confirm.commit(pointed, spread)),
            _ => None,
        }
    }

    /// Report a payday that was written, and queue the worksheets it opens.
    pub fn transferred(&mut self, payday: Payday, now: u64) -> (request: Request)
        requires
            old(self)@.valid(),
        ensures
            final(self)@ == (AppView {
                queue: prefills_view(payday.prefills@),
                ..old(self)@.wrote(wrote_words(payday.rows as int, payday.all), now as int)
            }),
            final(self)@.valid(),
            request == Request::Reload(Anchor::Keep),
    {
        self.queue = payday.prefills;
        self.report(wrote_status(payday.rows, payday.all), now)
    }

    /// What posting the open worksheet comes to, worked out before anything
    /// is written. Nothing, where none is open.
    pub fn posting(&self) -> (posting: Option<Result<Posting, PostFault>>)
        ensures
            match posting {
                Some(posting) => self@.modal matches Some(ModalView::Worksheet(sheet)) && posts(
                    posting,
                    sheet,
                ),
                None => !(self@.modal matches Some(ModalView::Worksheet(_))),
            },
    {
        match &self.modal {
            Some(Modal::Worksheet(sheet)) => Some(sheet.commit()),
            _ => None,
        }
    }

    /// Quote the plan at the date the overview was scrubbed to. The ledgers,
    /// the goals and the rest do not depend on it.
    pub fn reprice(&mut self, plan: Result<Plan, String>)
        requires
            old(self)@.valid(),
        ensures
            final(self)@ == old(self)@.repriced(plan),
            final(self)@.valid(),
    {
        match plan {
            Ok(plan) => self.planning.set_view(plan),
            Err(why) => self.planning.set_unavailable(why),
        }
    }

    /// Put other figures into the open worksheet, as a key on it left them.
    pub fn figure(&mut self, amount: Cents, shares: &Vec<(GoalId, Cents)>)
        requires
            old(self)@.valid(),
        ensures
            final(self)@ == old(self)@.figured(amount, shares@),
            final(self)@.valid(),
    {
        match self.modal.take() {
            Some(Modal::Worksheet(sheet)) => {
                let mut sheet = sheet;
                sheet.figure(amount, shares);
                self.modal = Some(Modal::Worksheet(sheet));
            },
            other => self.modal = other,
        }
    }

    /// The worksheet at the head of the queue.
    pub fn next_prefill(&self) -> (prefill: Option<&Prefill>)
        ensures
            match prefill {
                Some(prefill) => self@.queue.len() > 0 && prefill@ == self@.queue[0],
                None => self@.queue.len() == 0,
            },
    {
        if self.queue.len() > 0 {
            Some(&self.queue[0])
        } else {
            None
        }
    }

    /// Open the worksheet at the head of the queue over its container's
    /// goals. It opens prefilled rather than posting directly, so the figures
    /// can be looked over before they become a batch: the pot is what was
    /// transferred, and each line its goal's share.
    pub fn open_next_sheet(&mut self, lines: Vec<SheetLine>, now: u64)
        requires
            old(self)@.valid(),
        ensures
            final(self)@ == old(self)@.next_opened(lines@).timed(now as int),
            final(self)@.valid(),
    {
        if self.queue.len() > 0 {
            let ghost queued = self.queue@;
            let head: Prefill = self.queue.remove(0);
            proof {
                assert(prefills_view(self.queue@) =~= prefills_view(queued).drop_first());
            }
            let date = DateField::on(self.today, head.date);
            let container = Account {
                id: head.container,
                name: self.savings.account_name(head.container),
            };
            let sheet = Sheet::on(
                BatchKind::Paycheck,
                container,
                date,
                head.pot,
                share_lines(&lines, &head.shares),
            );
            self.open(Modal::Worksheet(sheet));
        }
        self.start_clock(now);
    }

    /// Open the history of the goal under the cursor, over the allocations
    /// that were read for it.
    pub fn open_history(&mut self, rows: Vec<HistoryRow>, now: u64)
        requires
            old(self)@.valid(),
        ensures
            final(self)@ == old(self)@.history_opened(rows@).timed(now as int),
            final(self)@.valid(),
    {
        let named = match self.savings.selected() {
            Some(row) => Some((row.goal, row.name.clone(), row.container)),
            None => None,
        };
        match named {
            Some((goal, name, container)) => {
                let container_name = self.savings.account_name(container);
                self.open(
                    Modal::History(History::new(goal, name, container, container_name, rows)),
                );
            },
            None => {
                self.nothing_selected();
            },
        }
        self.start_clock(now);
    }

    /// Open the editor over the row it rewrites.
    pub fn edit_history(&mut self, form: Form)
        requires
            old(self)@.valid(),
            form@.valid(),
        ensures
            final(self)@ == old(self)@.editing(form@),
            final(self)@.valid(),
    {
        match self.modal.take() {
            Some(Modal::History(history)) => {
                let mut history = history;
                history.begin_edit(form);
                self.modal = Some(Modal::History(history));
            },
            other => {
                self.modal = other;
            },
        }
    }

    /// The history's own rows again, for the modal still open over the screen
    /// that has just been read again.
    pub fn reload_history(&mut self, rows: Vec<HistoryRow>)
        requires
            old(self)@.valid(),
        ensures
            final(self)@ == old(self)@.history_refilled(rows@),
            final(self)@.valid(),
    {
        match self.modal.take() {
            Some(Modal::History(history)) => {
                let mut history = history;
                history.set_rows(rows);
                self.modal = Some(Modal::History(history));
            },
            other => {
                self.modal = other;
            },
        }
    }

    /// Put the savings cursor back on a goal that was moved.
    pub fn reordered(&mut self, goal: GoalId)
        requires
            old(self)@.valid(),
        ensures
            final(self)@ == (AppView {
                savings: old(self)@.savings.on_goal(goal),
                ..old(self)@
            }),
            final(self)@.valid(),
    {
        proof {
            crate::savings::a_goal_found_is_in_the_list(self@.savings, goal);
        }
        self.savings.select_goal(goal);
    }

    /// Say what a refresh of every ticker held is about to do.
    pub fn refresh(&mut self, tickers: Vec<String>, now: u64)
        requires
            old(self)@.valid(),
        ensures
            final(self)@ == old(self)@.announced(tickers@).timed(now as int),
            final(self)@.valid(),
    {
        self.announce(tickers);
        self.start_clock(now);
    }

    /// Whether a fetch waits for the screen to be drawn.
    pub fn has_deferred(&self) -> (has: bool)
        ensures
            has == self@.deferred is Some,
    {
        self.deferred.is_some()
    }

    /// The tickers to fetch now that the screen has been drawn.
    pub fn take_deferred(&mut self) -> (tickers: Option<Vec<String>>)
        requires
            old(self)@.valid(),
        ensures
            match tickers {
                Some(tickers) => old(self)@.deferred == Some(tickers@),
                None => old(self)@.deferred is None,
            },
            final(self)@ == (AppView { deferred: None, ..old(self)@ }),
            final(self)@.valid(),
    {
        self.deferred.take()
    }

    /// Report what a refresh came to, and read everything again.
    pub fn refreshed(&mut self, refreshed: &Refreshed, now: u64) -> (request: Request)
        requires
            old(self)@.valid(),
        ensures
            final(self)@ == old(self)@.said(refreshed.words()).timed(now as int),
            final(self)@.valid(),
            request == Request::Reload(Anchor::Keep),
    {
        self.status = refresh_status(refreshed);
        self.start_clock(now);
        Request::Reload(Anchor::Keep)
    }

    /// The date every form that writes a ledger row opens on: the day the
    /// last such row was written for, and today until there is one.
    pub fn entry_field(&self) -> (field: DateField)
        ensures
            field@ == DateFieldView::on(self@.today, self@.entry_day()),
    {
        let day = match self.entry_date {
            Some(date) => date,
            None => self.today,
        };
        DateField::on(self.today, day)
    }
}

/// What the footer says.
#[derive(Debug)]
pub enum Footer {
    Status(Said),
    Search(Vec<Span>),
    Keys { topic: Topic, without: Option<char>, needs_birth_date: bool },
}

impl View for Footer {
    type V = FooterView;

    open spec fn view(&self) -> FooterView {
        match self {
            Footer::Status(status) => FooterView::Status(status@),
            Footer::Search(spans) => FooterView::Search(spans_of(spans@)),
            Footer::Keys { topic, without, needs_birth_date } => FooterView::Keys {
                topic: *topic,
                without: *without,
                needs_birth_date: *needs_birth_date,
            },
        }
    }
}

/// The footer of an open box.
fn box_footer(search: &SearchBox) -> (spans: Vec<Span>)
    ensures
        spans_of(spans@) == search_footer(search@),
{
    let mut spans: Vec<Span> = Vec::new();
    spans.push(Span::raw("/"));
    let ghost head = spans@;
    let mut typed = search.spans();
    let ghost tail = typed@;
    spans.append(&mut typed);
    spans.push(Span::raw("  · Enter to keep · Esc to clear"));
    proof {
        assert(spans_of(head) =~= seq![raw("/"@)]);
        assert(spans_of(spans@) =~= search_footer(search@));
    }
    spans
}

/// What is drawn.
impl App {
    fn open_box(&self) -> (search: Option<&SearchBox>)
        ensures
            match search {
                Some(search) => self@.open_box() == Some(search@),
                None => self@.open_box() is None,
            },
    {
        let search = match self.screen {
            Screen::Cash | Screen::Credit => self.ledger().list().search_box(),
            Screen::Savings => self.savings.list().search_box(),
            Screen::Funds => self.funds.list().search_box(),
            Screen::RecurringGoals => self.recurring_goals.list().search_box(),
            _ => return None,
        };
        if search.is_open() {
            Some(search)
        } else {
            None
        }
    }

    fn screen_topic(&self) -> (topic: Topic)
        ensures
            topic == self@.screen_topic(),
    {
        match self.screen {
            Screen::Overview => Topic::Overview,
            Screen::Cash | Screen::Credit => Topic::Ledger,
            Screen::Savings => Topic::Savings,
            Screen::Planning => Topic::Planning,
            Screen::Funds => Topic::Funds,
            Screen::RecurringGoals => Topic::RecurringGoals,
            Screen::RecurringTxns => Topic::RecurringTxns,
            Screen::Accounts => Topic::Accounts,
        }
    }

    /// The status line, the box open over the screen, or the screen's keys.
    ///
    /// A footer must not name a key its screen refuses, nor offer to clear a
    /// pin that is not there.
    pub fn footer(&self) -> (footer: Footer)
        ensures
            footer@ == self@.footer(),
    {
        if !self.status.is_empty() {
            return Footer::Status(self.status.clone());
        }
        match self.open_box() {
            Some(search) => Footer::Search(box_footer(search)),
            None => {
                let without = match self.screen {
                    Screen::Credit => Some('t'),
                    Screen::Planning => if self.planning.is_pinned() {
                        None
                    } else {
                        Some('P')
                    },
                    _ => None,
                };
                let needs_birth_date = match self.screen {
                    Screen::Funds => self.funds.needs_birth_date(),
                    _ => false,
                };
                Footer::Keys { topic: self.screen_topic(), without, needs_birth_date }
            },
        }
    }

    /// Whether the app-wide keys are drawn against the footer's right edge:
    /// only where they are answered, and never beside a message.
    pub fn footer_chrome(&self) -> (drawn: bool)
        ensures
            drawn == self@.chrome(),
    {
        self.help.is_none() && self.topic().answers_app_wide_keys()
            && self.status.is_empty()
    }

    pub fn screen(&self) -> (screen: Screen)
        ensures
            screen == self@.screen,
    {
        self.screen
    }

    /// What is being said, in one text.
    pub fn status(&self) -> (status: String)
        ensures
            status@ == spoken(self@.status),
    {
        self.status.text()
    }

    /// What is being said, its names and figures apart from its words.
    pub fn said(&self) -> (said: &Said)
        ensures
            said@ == self@.status,
    {
        &self.status
    }

    pub fn modal(&self) -> (modal: Option<&Modal>)
        ensures
            match modal {
                Some(modal) => self@.modal == Some(modal@),
                None => self@.modal is None,
            },
            self@.valid() && modal is Some ==> modal->0@.valid(),
    {
        match &self.modal {
            Some(modal) => Some(modal),
            None => None,
        }
    }

    pub fn help(&self) -> (help: Option<Help>)
        ensures
            match help {
                Some(help) => self@.help == Some(help@),
                None => self@.help is None,
            },
    {
        self.help
    }

    pub fn popup(&self) -> (popup: &Autocomplete)
        ensures
            popup@ == self@.popup,
    {
        &self.popup
    }

    pub fn cash(&self) -> (cash: &Ledger)
        ensures
            cash@ == self@.cash,
    {
        &self.cash
    }

    pub fn credit(&self) -> (credit: &Ledger)
        ensures
            credit@ == self@.credit,
    {
        &self.credit
    }

    pub fn savings(&self) -> (savings: &Savings)
        ensures
            savings@ == self@.savings,
    {
        &self.savings
    }

    pub fn planning(&self) -> (planning: &Planning)
        ensures
            planning@ == self@.planning,
    {
        &self.planning
    }

    pub fn funds(&self) -> (funds: &Funds)
        ensures
            funds@ == self@.funds,
    {
        &self.funds
    }

    pub fn recurring_txns(&self) -> (list: &Listing<RecurringTxnRow>)
        ensures
            list@ == self@.recurring_txns,
    {
        &self.recurring_txns
    }

    pub fn recurring_goals(&self) -> (goals: &RecurringGoals)
        ensures
            goals@ == self@.recurring_goals,
    {
        &self.recurring_goals
    }

    pub fn accounts(&self) -> (list: &Listing<AccountRow>)
        ensures
            list@ == self@.accounts,
    {
        &self.accounts
    }

    pub fn today(&self) -> (today: Date)
        ensures
            today@ == self@.today,
    {
        self.today
    }

    pub fn adhoc(&self) -> (adhoc: Date)
        ensures
            adhoc@ == self@.adhoc,
    {
        self.adhoc
    }

    /// Remember what a draw fitted of the list on screen, so that a page is a
    /// screenful and the next draw carries on from where this one left it.
    pub fn record_viewport(&mut self, viewport: Viewport)
        requires
            old(self)@.valid(),
        ensures
            final(self)@ == old(self)@.drawn_in(viewport),
            final(self)@.valid(),
    {
        match self.screen {
            Screen::Overview => {},
            Screen::Cash | Screen::Credit => self.ledger_mut().list_mut().record(viewport),
            Screen::Savings => self.savings.list_mut().record(viewport),
            Screen::Planning => self.planning.list_mut().record(viewport),
            Screen::Funds => self.funds.list_mut().record(viewport),
            Screen::RecurringTxns => self.recurring_txns.record(viewport),
            Screen::RecurringGoals => self.recurring_goals.list_mut().record(viewport),
            Screen::Accounts => self.accounts.record(viewport),
        }
    }

    /// Remember what a draw fitted of the list that is open, if one is.
    pub fn record_modal(&mut self, viewport: Viewport)
        requires
            old(self)@.valid(),
        ensures
            final(self)@ == old(self)@.modal_drawn_in(viewport),
            final(self)@.valid(),
    {
        match self.modal.take() {
            Some(Modal::Worksheet(sheet)) => {
                let mut sheet = sheet;
                sheet.record(viewport);
                self.modal = Some(Modal::Worksheet(sheet));
            },
            Some(Modal::Picker(picker)) => {
                let mut picker = picker;
                picker.record(viewport);
                self.modal = Some(Modal::Picker(picker));
            },
            Some(Modal::Destination(chooser)) => {
                let mut chooser = chooser;
                chooser.record(viewport);
                self.modal = Some(Modal::Destination(chooser));
            },
            Some(Modal::History(history)) => {
                let mut history = history;
                history.record(viewport);
                self.modal = Some(Modal::History(history));
            },
            other => {
                self.modal = other;
            },
        }
    }

    /// Remember how many suggestions a draw fitted, which keeps the cursor off
    /// a row it clipped away.
    pub fn record_popup(&mut self, drawn: usize)
        requires
            old(self)@.valid(),
        ensures
            final(self)@ == (AppView {
                popup: old(self)@.popup.drawn(drawn as int),
                ..old(self)@
            }),
            final(self)@.valid(),
    {
        self.popup.set_visible(drawn);
    }

    /// Remember how many lines a draw wrapped the help panel into, and how
    /// many it fitted.
    pub fn record_help(&mut self, lines: usize, page: usize)
        requires
            old(self)@.valid(),
        ensures
            final(self)@ == (AppView {
                help: match old(self)@.help {
                    Some(help) => Some(
                        HelpView { lines: lines as int, page: page as int, ..help }.scrolled(0),
                    ),
                    None => None,
                },
                ..old(self)@
            }),
            final(self)@.valid(),
    {
        if let Some(help) = self.help {
            let mut help = help;
            help.set_extent(lines, page);
            self.help = Some(help);
        }
    }
}

/// What scrubbing to a drift says.
fn drift_status(drift: i64) -> (status: String)
    ensures
        status@ == drift_words(drift as int),
{
    if drift == 0 {
        return "back to Paycheck-Eve".to_owned();
    }
    let mut status: String = "scrubbed ".to_owned();
    let wide: i128 = drift as i128;
    if wide < 0 {
        status.append("-");
        status.append(&write_number((-wide) as u64));
    } else {
        status.append("+");
        status.append(&write_number(wide as u64));
    }
    status.append("d");
    proof {
        assert(status@ =~= drift_words(drift as int));
    }
    status
}

fn copy_texts(texts: &Vec<String>) -> (copy: Vec<String>)
    ensures
        copy@ == texts@,
{
    let mut copy: Vec<String> = Vec::new();
    let mut at: usize = 0;
    while at < texts.len()
        invariant
            at <= texts@.len(),
            copy@ == texts@.take(at as int),
        decreases texts@.len() - at,
    {
        copy.push(texts[at].clone());
        at = at + 1;
        proof {
            assert(copy@ =~= texts@.take(at as int));
        }
    }
    proof {
        assert(texts@.take(at as int) =~= texts@);
    }
    copy
}

} // verus!
