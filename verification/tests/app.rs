use moneybook::accounts::{
    account_rows, account_writes, AccountRecord, AccountWrite, Containers, Defaults, KeyWrite,
    SavingsBlock, Source,
};
use moneybook::amount::{parse_amount, parse_share, parse_whole_amount, Precision};
use moneybook::app::{App, Footer};
use moneybook::app_view::{LedgerData, Loaded, STATUS_TTL};
use moneybook::autocomplete::Suggestion;
use moneybook::confirm::{undo_question, Batch, Confirm};
use moneybook::cursor::Scroll;
use moneybook::date::Date;
use moneybook::destination::{offer, Chooser, Offered};
use moneybook::fault::Fault;
use moneybook::field::{DateField, Field};
use moneybook::form::{Form, Slot};
use moneybook::funds::{fund_rows, AssetClass, Class, Holding, InvestmentAccount, Mix, Slice};
use moneybook::history::{History, HistoryRow, Mode};
use moneybook::ids::{
    AccountId, AllocationId, BatchId, BillId, GoalId, HoldingId, RecurringGoalId, RecurringTxnId,
    TxnId,
};
use moneybook::key::{KeyCode, KeyEvent, Modifiers};
use moneybook::label::Account;
use moneybook::ledger::{month_of, Kind, Ledger, LedgerRow, Quoted};
use moneybook::modal::{Modal, Opening, Purpose, Request};
use moneybook::money::{tax, write_figure, BasisPoints, Cents};
use moneybook::payday::{clash_status, Spread, TransferConfirm, TransferRow};
use moneybook::picker::{new_goals, pick_refused, Entry, PickFault, Picker};
use moneybook::plan_line::Line;
use moneybook::planning::{bill_label, Editable, Plan, PlanRow, Target};
use moneybook::recurring::{Extended, RecurringGoalRow, RecurringTxnRow};
use moneybook::said::PieceKind;
use moneybook::savings::{reorder, siblings, transfer_targets, SavingsRow};
use moneybook::screen::{Screen, Topic};
use moneybook::search::Search;
use moneybook::worksheet::{BatchKind, Focus, Sheet, SheetLine, SheetOp};
use moneybook::written::Written;

fn day(year: i32, month: u32, day: u32) -> Date {
    Date::from_ymd(year, month, day).unwrap()
}

fn today() -> Date {
    day(2026, 8, 15)
}

fn on_or_before(date: Date, limit: Date) -> bool {
    !limit.is_before(date)
}

struct Txn {
    id: TxnId,
    account: AccountId,
    date: Date,
    cents: Cents,
    description: String,
}

struct Goal {
    id: GoalId,
    name: String,
    container: AccountId,
    date: Option<Date>,
    favorite: bool,
    entry: Option<RecurringGoalId>,
    closed: bool,
    base: Cents,
    taxed: bool,
}

struct Alloc {
    id: AllocationId,
    goal: GoalId,
    date: Date,
    cents: Cents,
    note: Option<String>,
    batch: Option<BatchId>,
}

struct Rule {
    id: RecurringTxnId,
    description: String,
    cents: Cents,
}

struct Catalog {
    id: RecurringGoalId,
    name: String,
    month: i64,
    base: Cents,
    taxed: bool,
}

struct Bill {
    id: BillId,
    label: String,
    cents: Cents,
}

/// What the application would otherwise keep in a database.
struct Store {
    accounts: Vec<(AccountId, &'static str, String, Kind)>,
    txns: Vec<Txn>,
    goals: Vec<Goal>,
    allocs: Vec<Alloc>,
    batches: Vec<(BatchId, &'static str, Date)>,
    rules: Vec<Rule>,
    catalog: Vec<Catalog>,
    bills: Vec<Bill>,
    holdings: Vec<(HoldingId, AccountId, String, Cents)>,
    mixes: Vec<Mix>,
    containers: Containers,
    defaults: Defaults,
    pinned: Option<Cents>,
    pointed: Vec<(Line, GoalId)>,
    detail: Vec<String>,
    no_plan: Option<String>,
    target: Cents,
    rate: bool,
    paydays: Vec<Date>,
    birth_date: bool,
    next: i64,
}

impl Store {
    fn new() -> Store {
        Store {
            accounts: vec![],
            txns: vec![],
            goals: vec![],
            allocs: vec![],
            batches: vec![],
            rules: vec![],
            catalog: vec![],
            bills: vec![],
            holdings: vec![],
            mixes: vec![],
            containers: [None, None],
            defaults: [None, None],
            pinned: None,
            pointed: vec![],
            detail: vec![],
            no_plan: None,
            target: Cents(1_350_000),
            rate: false,
            paydays: vec![],
            birth_date: true,
            next: 1,
        }
    }

    fn id(&mut self) -> i64 {
        let id = self.next;
        self.next += 1;
        id
    }

    fn account(&mut self, code: &'static str, name: &str, kind: Kind) -> AccountId {
        let id = AccountId(self.id());
        self.accounts.push((id, code, name.to_string(), kind));
        id
    }

    fn of_kind(&self, kind: Kind) -> Vec<Account> {
        self.accounts
            .iter()
            .filter(|a| a.3 == kind)
            .map(|a| Account {
                id: a.0,
                name: a.2.clone(),
            })
            .collect()
    }

    fn all_accounts(&self) -> Vec<Account> {
        self.accounts
            .iter()
            .map(|a| Account {
                id: a.0,
                name: a.2.clone(),
            })
            .collect()
    }

    fn write(&mut self, account: AccountId, date: Date, cents: i64, what: &str) -> TxnId {
        let id = TxnId(self.id());
        self.txns.push(Txn {
            id,
            account,
            date,
            cents: Cents(cents),
            description: what.to_string(),
        });
        id
    }

    fn goal(&mut self, container: AccountId, name: &str, date: Option<Date>) -> GoalId {
        let id = GoalId(self.id());
        self.goals.push(Goal {
            id,
            name: name.to_string(),
            container,
            date,
            favorite: false,
            entry: None,
            closed: false,
            base: Cents::from_dollars(1_000),
            taxed: false,
        });
        id
    }

    fn allocate(&mut self, goal: GoalId, date: Date, cents: i64, note: Option<&str>) {
        let id = AllocationId(self.id());
        self.allocs.push(Alloc {
            id,
            goal,
            date,
            cents: Cents(cents),
            note: note.map(|n| n.to_string()),
            batch: None,
        });
    }

    fn entry(&mut self, name: &str, month: i64, dollars: i64, taxed: bool) -> RecurringGoalId {
        let id = RecurringGoalId(self.id());
        self.catalog.push(Catalog {
            id,
            name: name.to_string(),
            month,
            base: Cents::from_dollars(dollars),
            taxed,
        });
        id
    }

    fn balance(&self, account: AccountId, at: Date) -> i64 {
        self.txns
            .iter()
            .filter(|t| t.account == account && on_or_before(t.date, at))
            .map(|t| t.cents.0)
            .sum()
    }

    fn current(&self, goal: GoalId) -> i64 {
        self.allocs
            .iter()
            .filter(|a| a.goal == goal)
            .map(|a| a.cents.0)
            .sum()
    }

    /// A container's open goals: those with no date first, in their order.
    fn goals_in(&self, container: Option<AccountId>) -> Vec<&Goal> {
        let open = |g: &&Goal| !g.closed && container.map_or(true, |c| c == g.container);
        let mut goals: Vec<&Goal> = self
            .goals
            .iter()
            .filter(open)
            .filter(|g| g.date.is_none())
            .collect();
        let mut dated: Vec<&Goal> = self
            .goals
            .iter()
            .filter(open)
            .filter(|g| g.date.is_some())
            .collect();
        dated.sort_by_key(|g| g.date.unwrap().iso());
        goals.extend(dated);
        goals
    }

    fn excess(&self) -> Vec<(AccountId, Cents)> {
        self.accounts
            .iter()
            .filter(|a| !self.goals_in(Some(a.0)).is_empty())
            .map(|a| {
                let held: i64 = self
                    .goals
                    .iter()
                    .filter(|g| g.container == a.0)
                    .map(|g| self.current(g.id))
                    .sum();
                (a.0, Cents(self.balance(a.0, today()) - held))
            })
            .collect()
    }

    fn months(&self) -> Vec<i64> {
        let mut months: Vec<i64> = self
            .goals_in(None)
            .iter()
            .filter_map(|g| g.date)
            .map(month_of)
            .collect();
        months.sort();
        months.dedup();
        months
    }

    fn open_goals(&self, entry: RecurringGoalId) -> usize {
        self.goals
            .iter()
            .filter(|g| !g.closed && g.entry == Some(entry))
            .count()
    }

    fn history(&self, goal: GoalId) -> Vec<HistoryRow> {
        let mut rows: Vec<HistoryRow> = self
            .allocs
            .iter()
            .filter(|a| a.goal == goal)
            .map(|a| HistoryRow {
                id: a.id,
                date: a.date,
                cents: a.cents,
                note: a.note.clone(),
            })
            .collect();
        rows.sort_by_key(|r| r.date.iso());
        rows
    }

    fn ledger_data(&self, ledger: Option<&Ledger>, kind: Kind) -> LedgerData {
        let accounts = self.of_kind(kind);
        let window = ledger.map_or(month_of(today()), |l| l.window());
        let account = ledger.and_then(|l| l.selected_account());
        let mut rows: Vec<LedgerRow> = self
            .txns
            .iter()
            .filter(|t| accounts.iter().any(|a| a.id == t.account))
            .filter(|t| account.map_or(true, |id| id == t.account))
            .filter(|t| month_of(t.date) == window)
            .map(|t| LedgerRow {
                id: t.id,
                date: t.date,
                description: t.description.clone(),
                cents: t.cents,
            })
            .collect();
        rows.sort_by_key(|r| r.date.iso());
        let quoted = ledger.map_or(Quoted::Kind(kind), |l| l.quoted());
        let total = match quoted {
            Quoted::Account(id) => self.balance(id, today()),
            Quoted::Kind(_) => accounts.iter().map(|a| self.balance(a.id, today())).sum(),
        };
        LedgerData {
            accounts,
            rows,
            total: Cents(total),
        }
    }

    fn checking(&self) -> Option<AccountId> {
        self.accounts.iter().find(|a| a.1 == "CHK").map(|a| a.0)
    }

    fn plan(&self, adhoc: Date) -> Result<Plan, String> {
        if let Some(why) = &self.no_plan {
            return Err(why.clone());
        }
        let Some(checking) = self.checking() else {
            return Err("no account is in the Checking band".to_string());
        };
        let mut rows = vec![PlanRow {
            label: "Target".to_string(),
            edit: write_figure(self.target),
            editable: Editable::Constant(Target::Money(0)),
        }];
        for line in [
            Line::Bills,
            Line::CurrentHousing,
            Line::MomAndDad,
            Line::FutureHousing,
        ] {
            rows.push(PlanRow {
                label: line.label().to_string(),
                edit: String::new(),
                editable: Editable::Destination(line),
            });
        }
        for bill in &self.bills {
            rows.push(PlanRow {
                label: format!("  {}", bill.label),
                edit: write_figure(bill.cents),
                editable: Editable::Constant(Target::Bill(bill.id)),
            });
        }
        Ok(Plan {
            rows,
            pinned: self.pinned.is_some(),
            excess: Cents(self.balance(checking, adhoc)),
            detail: self.detail.clone(),
            asked: Cents(12_300),
        })
    }

    fn load(&self, app: Option<&App>) -> Loaded {
        let months: Vec<i64> = self.txns.iter().map(|t| month_of(t.date)).collect();
        let range = match (months.iter().min(), months.iter().max()) {
            (Some(first), Some(last)) => Some((*first, *last)),
            _ => None,
        };
        let investments: Vec<InvestmentAccount> = self
            .of_kind(Kind::Investment)
            .into_iter()
            .map(|account| InvestmentAccount {
                account,
                tax_treatment: None,
            })
            .collect();
        let holdings = self
            .holdings
            .iter()
            .map(|h| Holding {
                id: h.0,
                account: h.1,
                ticker: h.2.clone(),
                balance: h.3,
            })
            .collect();
        let records = self
            .accounts
            .iter()
            .map(|a| AccountRecord {
                account: Account {
                    id: a.0,
                    name: a.2.clone(),
                },
                code: a.1.to_string(),
                kind: a.3,
                group: String::new(),
                policy: String::new(),
            })
            .collect();
        Loaded {
            baseline: today(),
            cash: self.ledger_data(app.map(|a| a.cash()), Kind::Cash),
            credit: self.ledger_data(app.map(|a| a.credit()), Kind::Credit),
            range,
            accounts: self.all_accounts(),
            account_rows: account_rows(records, &self.containers, &self.defaults),
            goals: self
                .goals_in(None)
                .iter()
                .map(|g| SavingsRow {
                    goal: g.id,
                    name: g.name.clone(),
                    container: g.container,
                    date: g.date,
                    favorite: g.favorite,
                    current: Cents(self.current(g.id)),
                })
                .collect(),
            months: self.months(),
            excess: self.excess(),
            plan: self.plan(app.map_or(today(), |a| a.adhoc())),
            fund_accounts: self.of_kind(Kind::Investment),
            holdings: fund_rows(holdings, &self.mixes, &investments),
            mixes: self
                .mixes
                .iter()
                .map(|m| Mix {
                    ticker: m.ticker.clone(),
                    name: m.name.clone(),
                    report_date: m.report_date,
                    slices: m.slices.clone(),
                })
                .collect(),
            targets: match self.birth_date {
                true => vec![(Class::Bonds, BasisPoints(3_000))],
                false => vec![],
            },
            needs_birth_date: !self.birth_date,
            recurring_txns: self
                .rules
                .iter()
                .map(|r| RecurringTxnRow {
                    id: r.id,
                    description: r.description.clone(),
                    cents: r.cents,
                    owned: 0,
                })
                .collect(),
            recurring_goals: self
                .catalog
                .iter()
                .map(|e| RecurringGoalRow {
                    id: e.id,
                    name: e.name.clone(),
                    month: e.month,
                    base: e.base,
                })
                .collect(),
        }
    }

    fn total_goals(&self, entry: RecurringGoalId) -> usize {
        self.goals.iter().filter(|g| g.entry == Some(entry)).count()
    }
}

/// The application, the store under it and a clock.
struct Bench {
    app: App,
    store: Store,
    now: u64,
    /// What the lines of the open worksheet hold, and what was asked of them.
    ops: Vec<SheetOp>,
    asked: Vec<Request>,
    shares: Spread,
}

fn text(value: &str) -> Slot {
    Slot::Text(Field::given(value))
}

fn blank() -> Slot {
    Slot::Text(Field::prefilled(""))
}

fn selector(len: usize, index: usize) -> Slot {
    Slot::Selector {
        index,
        len,
        touched: false,
    }
}

fn typed(form: &Form, at: usize) -> String {
    match form.slot(at) {
        Slot::Text(field) => field.value().to_string(),
        Slot::Date(date) => date.value().to_string(),
        Slot::Selector { index, .. } => index.to_string(),
    }
}

fn picked(form: &Form, at: usize) -> usize {
    match form.slot(at) {
        Slot::Selector { index, .. } => *index,
        _ => panic!("not a selector"),
    }
}

fn dated(form: &Form, at: usize) -> Result<Date, Fault> {
    match form.slot(at) {
        Slot::Date(date) => date.parse(),
        _ => panic!("not a date"),
    }
}

/// The fields of a ledger row's form.
const DESCRIPTION: usize = 0;
const AMOUNT: usize = 1;
const ACCOUNT: usize = 2;
const DATE: usize = 3;

impl Bench {
    fn new(store: Store) -> Bench {
        Bench::with_contact(store, false)
    }

    fn with_contact(store: Store, contact: bool) -> Bench {
        let app = App::new(today(), contact, store.load(None));
        Bench {
            app,
            store,
            now: 0,
            ops: vec![],
            asked: vec![],
            shares: Spread {
                container: None,
                asks: vec![],
                shares: vec![],
            },
        }
    }

    fn press(&mut self, code: KeyCode) {
        self.key(KeyEvent::new(code, Modifiers::none()));
    }

    fn key(&mut self, key: KeyEvent) {
        let request = self.app.on_key(key, self.now);
        self.serve(request);
    }

    fn reload(&mut self) {
        self.serve(Request::Reload(moneybook::modal::Anchor::Keep));
    }

    fn serve(&mut self, request: Request) {
        self.asked.push(request);
        let next = self.answer(request);
        if next != Request::Nothing {
            self.serve(next);
        }
    }

    fn answer(&mut self, request: Request) -> Request {
        match request {
            Request::Nothing => Request::Nothing,
            Request::Reload(anchor) => {
                let loaded = self.store.load(Some(&self.app));
                let next = self.app.reload(loaded, anchor, self.now);
                let goal = match self.app.modal() {
                    Some(Modal::History(history)) => Some(history.goal()),
                    _ => None,
                };
                if let Some(goal) = goal {
                    self.app.reload_history(self.store.history(goal));
                }
                next
            }
            Request::Reprice => {
                self.app.reprice(self.store.plan(self.app.adhoc()));
                Request::Nothing
            }
            Request::Suggest => {
                let prefix = match self.app.modal() {
                    Some(Modal::Form { form, .. }) => typed(form, DESCRIPTION),
                    _ => String::new(),
                };
                let mut hits: Vec<Suggestion> = vec![];
                for txn in &self.store.txns {
                    if txn.description.starts_with(&prefix)
                        && !hits.iter().any(|h| h.description == txn.description)
                    {
                        hits.push(Suggestion {
                            description: txn.description.clone(),
                            account_id: txn.account,
                            cents: txn.cents,
                            uses: 1,
                        });
                    }
                }
                self.app.suggest(hits);
                Request::Nothing
            }
            Request::Open(opening) => {
                self.open(opening);
                Request::Nothing
            }
            Request::Commit => match self.commit() {
                Ok(next) => next,
                Err(why) => {
                    self.app.refuse(&why, self.now);
                    Request::Nothing
                }
            },
            Request::Write(action) => self.confirmed(action),
            Request::Point(line, goal) => {
                self.store.pointed.retain(|p| p.0 != line);
                if let Some(goal) = goal {
                    self.store.pointed.push((line, goal));
                }
                self.app.pointed(self.now)
            }
            Request::Reorder {
                goal,
                container,
                way,
            } => {
                let goals: Vec<(GoalId, Option<Date>)> = self
                    .store
                    .goals_in(Some(container))
                    .iter()
                    .map(|g| (g.id, g.date))
                    .collect();
                let undated: Vec<GoalId> =
                    goals.iter().filter(|g| g.1.is_none()).map(|g| g.0).collect();
                match reorder(&goals, goal, way) {
                    Err(why) => {
                        self.app.refuse(&why, self.now);
                        Request::Nothing
                    }
                    Ok(None) => Request::Nothing,
                    Ok(Some(to)) => {
                        let place =
                            |store: &Store, id| store.goals.iter().position(|g| g.id == id).unwrap();
                        let target = place(&self.store, undated[to]);
                        let from = place(&self.store, goal);
                        let moved = self.store.goals.remove(from);
                        self.store.goals.insert(target, moved);
                        let loaded = self.store.load(Some(&self.app));
                        let next =
                            self.app
                                .reload(loaded, moneybook::modal::Anchor::Keep, self.now);
                        self.app.reordered(goal);
                        next
                    }
                }
            }
            Request::Favorite { goal, favorite } => {
                for g in &mut self.store.goals {
                    if g.id == goal {
                        g.favorite = favorite;
                    }
                }
                Request::Reload(moneybook::modal::Anchor::Keep)
            }
            Request::Pin(cents) => {
                self.store.pinned = Some(cents);
                Request::Reload(moneybook::modal::Anchor::Keep)
            }
            Request::Unpin => {
                self.store.pinned = None;
                Request::Reload(moneybook::modal::Anchor::Keep)
            }
            Request::Tickers => {
                let mut tickers: Vec<String> = vec![];
                for held in &self.store.holdings {
                    if !tickers.contains(&held.2) {
                        tickers.push(held.2.clone());
                    }
                }
                self.app.refresh(tickers, self.now);
                Request::Nothing
            }
            Request::Regenerate(id) => {
                let description = self.rule(id);
                self.app.written(
                    &Written::Regenerated {
                        description,
                        report: "adopted 2, inserted 1".to_string(),
                    },
                    self.now,
                )
            }
            Request::RegenerateEvery => self.app.written(
                &Written::RegeneratedEvery {
                    report: "adopted 2, inserted 1".to_string(),
                },
                self.now,
            ),
            Request::Extend(id) => {
                let description = self.rule(id);
                self.app.written(
                    &Written::Extended {
                        description,
                        extended: Extended::Ends(day(2027, 1, 1)),
                    },
                    self.now,
                )
            }
            Request::MakePaycheck(id) => {
                let description = self.rule(id);
                self.app.written(&Written::Paycheck { description }, self.now)
            }
            Request::Operate(op) => {
                self.ops.push(op);
                // A digit typed over the pot begins it again, in dollars.
                let (_, shares) = figures(self);
                if let (SheetOp::Type(c), Focus::Amount) = (op, worksheet(self).focus()) {
                    if let Some(digit) = c.to_digit(10) {
                        self.app.figure(Cents::from_dollars(digit.into()), &shares);
                    }
                }
                Request::Nothing
            }
        }
    }

    fn rule(&self, id: RecurringTxnId) -> String {
        self.store
            .rules
            .iter()
            .find(|r| r.id == id)
            .unwrap()
            .description
            .clone()
    }

    fn lines(&self, container: AccountId) -> Vec<SheetLine> {
        self.store
            .goals_in(Some(container))
            .iter()
            .map(|g| SheetLine {
                goal: g.id,
                name: g.name.clone(),
                amount: Cents::zero(),
            })
            .collect()
    }

    fn present(&mut self, modal: Modal) {
        self.app.present(modal, self.now);
    }

    fn form(&mut self, purpose: Purpose, slots: Vec<Slot>, focus: usize) {
        let form = Form::new(slots, focus);
        self.present(Modal::Form { purpose, form });
    }

    fn offered(&self, goal: GoalId) -> Option<Offered> {
        let accounts = self.store.all_accounts();
        self.store
            .goals
            .iter()
            .find(|g| g.id == goal)
            .map(|g| offer(g.id, g.name.clone(), g.container, &accounts))
    }

    fn open(&mut self, opening: Opening) {
        match opening {
            Opening::Txn { kind, account } => {
                let accounts = self.store.of_kind(kind);
                if accounts.is_empty() {
                    self.app.refuse("there is no account to write to", self.now);
                    return;
                }
                let ids: Vec<AccountId> = accounts.iter().map(|a| a.id).collect();
                let index = ids.iter().position(|id| Some(*id) == account).unwrap_or(0);
                let slots = vec![
                    blank(),
                    blank(),
                    selector(ids.len(), index),
                    Slot::Date(self.app.entry_field()),
                ];
                let form = Form::new(slots, DESCRIPTION).suggesting(
                    DESCRIPTION,
                    AMOUNT,
                    ACCOUNT,
                    ids,
                );
                self.present(Modal::Form {
                    purpose: Purpose::Txn(None),
                    form,
                });
            }
            Opening::TxnEdit(id) => {
                let txn = self.store.txns.iter().find(|t| t.id == id).unwrap();
                let kind = self
                    .store
                    .accounts
                    .iter()
                    .find(|a| a.0 == txn.account)
                    .unwrap()
                    .3;
                let ids: Vec<AccountId> =
                    self.store.of_kind(kind).iter().map(|a| a.id).collect();
                let index = ids.iter().position(|a| *a == txn.account).unwrap();
                let slots = vec![
                    text(&txn.description),
                    text(&write_figure(txn.cents)),
                    selector(ids.len(), index),
                    Slot::Date(DateField::given(today(), Some(txn.date))),
                ];
                let form = Form::new(slots, DESCRIPTION).suggesting(
                    DESCRIPTION,
                    AMOUNT,
                    ACCOUNT,
                    ids,
                );
                self.present(Modal::Form {
                    purpose: Purpose::Txn(Some(id)),
                    form,
                });
            }
            Opening::Transfer | Opening::Payment => {
                let from = self.store.of_kind(Kind::Cash).len();
                let to = self.store.accounts.len();
                let slots = vec![
                    Slot::Date(self.app.entry_field()),
                    selector(from, 0),
                    selector(to, 1),
                    blank(),
                    blank(),
                ];
                let purpose = if opening == Opening::Transfer {
                    Purpose::Transfer
                } else {
                    Purpose::Payment
                };
                self.form(purpose, slots, 0);
            }
            Opening::Allocation(goal) => self.form(
                Purpose::Allocation(goal),
                vec![Slot::Date(DateField::today(today())), blank(), blank()],
                1,
            ),
            Opening::Payday(container) | Opening::Interest(container) => {
                let mut lines = self.lines(container);
                let kind = match opening {
                    Opening::Payday(_) => BatchKind::Paycheck,
                    _ => BatchKind::Interest,
                };
                // A payday opens on what each dated goal asks of a paycheck.
                for line in &mut lines {
                    let goals = &self.store.goals;
                    let dated = goals.iter().any(|g| g.id == line.goal && g.date.is_some());
                    if kind == BatchKind::Paycheck && dated {
                        line.amount = Cents(50_000);
                    }
                }
                let pot = Cents(lines.iter().map(|l| l.amount.0).sum());
                let account = Account::named(&self.store.all_accounts(), container);
                let date = DateField::today(today());
                self.present(Modal::Worksheet(Sheet::on(kind, account, date, pot, lines)));
            }
            Opening::GoalTransfer { goal, container } => {
                let others = match transfer_targets(self.open_in(container), goal) {
                    Ok(others) => others,
                    Err(why) => {
                        self.app.refuse(why, self.now);
                        return;
                    }
                };
                self.form(
                    Purpose::GoalTransfer(goal),
                    vec![
                        blank(),
                        selector(others.len(), 0),
                        Slot::Date(DateField::today(today())),
                    ],
                    0,
                );
            }
            Opening::GoalEdit(goal) => {
                let name = self
                    .store
                    .goals
                    .iter()
                    .find(|g| g.id == goal)
                    .unwrap()
                    .name
                    .clone();
                self.form(Purpose::Goal(Some(goal)), vec![text(&name)], 0);
            }
            Opening::CloseOut { goal, container } => {
                let others = self.siblings(goal, container);
                self.form(
                    Purpose::CloseOut(goal),
                    vec![
                        selector(others.len() + 1, 0),
                        Slot::Date(DateField::today(today())),
                    ],
                    0,
                );
            }
            Opening::NewGoal(_) => self.form(Purpose::Goal(None), vec![blank(), blank()], 0),
            Opening::Undo => {
                let batch = self.store.batches.last().map(|(id, kind, date)| Batch {
                    id: *id,
                    kind: kind.to_string(),
                    date: *date,
                    shares: self
                        .store
                        .allocs
                        .iter()
                        .filter(|a| a.batch == Some(*id))
                        .map(|a| (a.goal, a.cents))
                        .collect(),
                });
                match undo_question(&batch) {
                    Ok((action, label)) => self.present(Modal::Confirm { action, label }),
                    Err(why) => self.app.refuse(why, self.now),
                }
            }
            Opening::History { goal, .. } => {
                let rows = self.store.history(goal);
                self.app.open_history(rows, self.now);
            }
            Opening::HistoryEdit(id) => {
                let row = self.store.allocs.iter().find(|a| a.id == id).unwrap();
                let note = row.note.clone().unwrap_or_default();
                let form = Form::new(
                    vec![
                        Slot::Date(DateField::given(today(), Some(row.date))),
                        text(&write_figure(row.cents)),
                        text(&note),
                    ],
                    1,
                );
                self.app.edit_history(form);
            }
            Opening::Bill(editing) => {
                let label = editing
                    .and_then(|id| self.store.bills.iter().find(|b| b.id == id))
                    .map(|b| b.label.clone())
                    .unwrap_or_default();
                let amount = editing
                    .and_then(|id| self.store.bills.iter().find(|b| b.id == id))
                    .map(|b| write_figure(b.cents))
                    .unwrap_or_default();
                self.form(
                    Purpose::Bill(editing),
                    vec![text(&label), text(&amount), selector(2, 0)],
                    0,
                );
            }
            Opening::BillDelete(id) => {
                let bill = self.store.bills.iter().find(|b| b.id == id).unwrap();
                let label = bill_label(&bill.label, bill.cents);
                self.present(Modal::Confirm {
                    action: Confirm::DeleteBill(id),
                    label,
                });
            }
            Opening::Destination(line) => {
                let offered: Vec<Offered> = self
                    .store
                    .goals_in(None)
                    .iter()
                    .map(|g| self.offered(g.id).unwrap())
                    .collect();
                let current = self
                    .store
                    .pointed
                    .iter()
                    .find(|p| p.0 == line)
                    .and_then(|p| self.offered(p.1));
                let suggestion = self
                    .store
                    .goals_in(None)
                    .iter()
                    .find(|g| g.name == line.label())
                    .and_then(|g| self.offered(g.id));
                self.present(Modal::Destination(Chooser::new(
                    line, offered, current, suggestion,
                )));
            }
            Opening::Transfers => {
                let date = day(2026, 8, 18);
                let scanned = [
                    day(2026, 8, 14),
                    day(2026, 8, 17),
                    day(2026, 8, 18),
                    day(2026, 8, 19),
                    day(2026, 8, 20),
                ];
                let clashing: Vec<Date> = scanned
                    .into_iter()
                    .filter(|d| self.store.paydays.contains(d))
                    .collect();
                let rows = self.transfer_rows();
                self.present(Modal::Transfers(TransferConfirm::new(rows, today(), date)));
                if let Some(status) = clash_status(&clashing) {
                    self.app.refuse(&status, self.now);
                }
            }
            Opening::Holding { editing, account } => {
                let ids: Vec<AccountId> = self
                    .store
                    .of_kind(Kind::Investment)
                    .iter()
                    .map(|a| a.id)
                    .collect();
                let held = editing.and_then(|id| self.store.holdings.iter().find(|h| h.0 == id));
                let at = held.map(|h| h.1).or(account);
                let index = ids.iter().position(|id| Some(*id) == at).unwrap_or(0);
                let ticker = held.map(|h| h.2.clone()).unwrap_or_default();
                let balance = held.map(|h| write_figure(h.3)).unwrap_or_default();
                self.form(
                    Purpose::Holding(editing),
                    vec![selector(ids.len(), index), text(&ticker), text(&balance)],
                    1,
                );
            }
            Opening::RecurringTxn(editing) => self.form(
                Purpose::RecurringTxn(editing),
                vec![blank(), blank()],
                0,
            ),
            Opening::RecurringGoal(editing) => {
                let entry = editing.and_then(|id| self.store.catalog.iter().find(|e| e.id == id));
                let name = entry.map(|e| e.name.clone()).unwrap_or_default();
                let month = entry.map_or(0, |e| e.month as usize - 1);
                let base = entry.map(|e| write_figure(e.base)).unwrap_or_default();
                self.form(
                    Purpose::RecurringGoal(editing),
                    vec![text(&name), selector(12, month), text(&base)],
                    0,
                );
            }
            Opening::RecurringGoalDelete(id) => {
                let goals = self.store.total_goals(id);
                let row = self.store.catalog.iter().find(|e| e.id == id).unwrap();
                let label = RecurringGoalRow {
                    id,
                    name: row.name.clone(),
                    month: row.month,
                    base: row.base,
                }
                .label(goals);
                self.present(Modal::Confirm {
                    action: Confirm::DeleteRecurringGoal(id),
                    label,
                });
            }
            Opening::Seed { container, month } => {
                let entries: Vec<Entry> = self
                    .store
                    .catalog
                    .iter()
                    .map(|e| Entry {
                        id: e.id,
                        name: e.name.clone(),
                        month: e.month,
                        base: e.base,
                        taxed: e.taxed,
                        open: self.store.open_goals(e.id),
                    })
                    .collect();
                match Picker::over(entries, month, container) {
                    Ok(picker) => self.present(Modal::Picker(picker)),
                    Err(why) => self.app.refuse(why, self.now),
                }
            }
            Opening::Account(editing) => {
                let row = editing.map(|id| {
                    let block = self.store.containers.iter().position(|c| *c == Some(id));
                    let transfer = self.store.defaults[0] == Some(id);
                    let payment = self.store.defaults[1] == Some(id);
                    (
                        block.map_or(0, |b| b + 1),
                        usize::from(transfer) + 2 * usize::from(payment),
                    )
                });
                let (block, defaults) = row.unwrap_or((0, 0));
                self.form(
                    Purpose::Account(editing),
                    vec![blank(), selector(3, block), selector(4, defaults)],
                    0,
                );
            }
            Opening::BirthDate => self.form(
                Purpose::BirthDate,
                vec![Slot::Date(DateField::iso_only(""))],
                0,
            ),
            Opening::NextSheet => {
                let container = self.app.next_prefill().unwrap().container;
                let lines = self.lines(container);
                self.app.open_next_sheet(lines, self.now);
            }
        }
    }

    fn open_in(&self, container: AccountId) -> Vec<(GoalId, String)> {
        self.store
            .goals_in(Some(container))
            .iter()
            .map(|g| (g.id, g.name.clone()))
            .collect()
    }

    fn siblings(&self, goal: GoalId, container: AccountId) -> Vec<(GoalId, String)> {
        siblings(self.open_in(container), goal)
    }

    /// The movements a payday of the planning fixture makes.
    fn transfer_rows(&self) -> Vec<TransferRow> {
        let account = |code: &str| self.store.accounts.iter().find(|a| a.1 == code).unwrap().0;
        vec![
            TransferRow::Transfer {
                to: account("SAV"),
                cents: Cents(150_000),
                lines: vec![
                    (Line::Bills, Cents(100_000)),
                    (Line::CurrentHousing, Cents(50_000)),
                ],
            },
            TransferRow::Transfer {
                to: account("BKR"),
                cents: Cents(80_000),
                lines: vec![
                    (Line::FutureHousing, Cents(50_000)),
                    (Line::MomAndDad, Cents(30_000)),
                ],
            },
        ]
    }

    fn post(&mut self, kind: &'static str, date: Date, shares: &[(GoalId, Cents)]) {
        let batch = BatchId(self.store.id());
        self.store.batches.push((batch, kind, date));
        for (goal, cents) in shares {
            let id = AllocationId(self.store.id());
            self.store.allocs.push(Alloc {
                id,
                goal: *goal,
                date,
                cents: *cents,
                note: None,
                batch: Some(batch),
            });
        }
    }

    fn pot(&self, goal: GoalId) -> Cents {
        let container = self
            .store
            .goals
            .iter()
            .find(|g| g.id == goal)
            .unwrap()
            .container;
        self.app.savings().unallocated(container)
    }

    /// Write what is open.
    fn commit(&mut self) -> Result<Request, String> {
        let now = self.now;
        let worded = |fault: Fault| fault.status();
        match self.app.modal() {
            Some(Modal::Form { purpose, form }) => {
                let purpose = *purpose;
                match purpose {
                    Purpose::Txn(editing) => {
                        let cents = parse_amount(&typed(form, AMOUNT)).map_err(worded)?;
                        let date = dated(form, DATE).map_err(worded)?;
                        let description = typed(form, DESCRIPTION);
                        let index = picked(form, ACCOUNT);
                        let kind = match self.app.screen() {
                            Screen::Credit => Kind::Credit,
                            _ => Kind::Cash,
                        };
                        let account = self.store.of_kind(kind)[index].id;
                        match editing {
                            None => {
                                self.store.write(account, date, cents.0, &description);
                            }
                            Some(id) => {
                                for txn in &mut self.store.txns {
                                    if txn.id == id {
                                        txn.account = account;
                                        txn.date = date;
                                        txn.cents = cents;
                                        txn.description = description.clone();
                                    }
                                }
                            }
                        }
                        Ok(self.app.written(
                            &Written::Txn {
                                edited: editing.is_some(),
                                description,
                                cents,
                                date,
                            },
                            now,
                        ))
                    }
                    Purpose::Transfer | Purpose::Payment => {
                        let date = dated(form, 0).map_err(worded)?;
                        let cents = parse_amount(&typed(form, 4)).map_err(worded)?;
                        let from = self.store.of_kind(Kind::Cash)[picked(form, 1)].id;
                        let to = self.store.accounts[picked(form, 2)].0;
                        let description = typed(form, 3);
                        self.store.write(from, date, -cents.0, &description);
                        self.store.write(to, date, cents.0, &description);
                        Ok(self.app.written(
                            &Written::Transfer {
                                description,
                                cents,
                                date,
                            },
                            now,
                        ))
                    }
                    Purpose::Allocation(goal) => {
                        let date = dated(form, 0).map_err(worded)?;
                        let cents =
                            parse_share(&typed(form, 1), self.pot(goal), Precision::WholeDollars)
                                .map_err(worded)?;
                        self.store.allocate(goal, date, cents.0, None);
                        Ok(self.app.written(&Written::Allocation { cents }, now))
                    }
                    Purpose::Goal(editing) => {
                        let name = typed(form, 0);
                        match editing {
                            Some(id) => {
                                for goal in &mut self.store.goals {
                                    if goal.id == id {
                                        goal.name = name.clone();
                                    }
                                }
                            }
                            None => {
                                let container = self.app.savings().default_container().unwrap();
                                self.store.goal(container, &name, None);
                            }
                        }
                        let edited = editing.is_some();
                        Ok(self.app.written(&Written::Goal { edited, name }, now))
                    }
                    Purpose::CloseOut(goal) => {
                        let container = self
                            .store
                            .goals
                            .iter()
                            .find(|g| g.id == goal)
                            .unwrap()
                            .container;
                        let others = self.siblings(goal, container);
                        let at = picked(form, 0);
                        let to = if at == 0 { None } else { Some(others[at - 1].0) };
                        let value = self.store.current(goal);
                        self.store.allocate(goal, today(), -value, None);
                        if let Some(to) = to {
                            self.store.allocate(to, today(), value, None);
                        }
                        for g in &mut self.store.goals {
                            if g.id == goal {
                                g.closed = true;
                            }
                        }
                        Ok(self.app.written(&Written::CloseOut { to }, now))
                    }
                    Purpose::GoalTransfer(goal) => {
                        let cents = parse_whole_amount(&typed(form, 0)).map_err(worded)?;
                        let container = self
                            .store
                            .goals
                            .iter()
                            .find(|g| g.id == goal)
                            .unwrap()
                            .container;
                        let to = self.siblings(goal, container)[picked(form, 1)].0;
                        self.post(
                            "transfer",
                            today(),
                            &[(goal, Cents(-cents.0)), (to, cents)],
                        );
                        Ok(self.app.written(&Written::GoalTransfer { cents }, now))
                    }
                    Purpose::Bill(editing) => {
                        let label = typed(form, 0);
                        let cents = parse_amount(&typed(form, 1)).map_err(worded)?;
                        match editing {
                            Some(id) => {
                                for bill in &mut self.store.bills {
                                    if bill.id == id {
                                        bill.label = label.clone();
                                        bill.cents = cents;
                                    }
                                }
                            }
                            None => {
                                let id = BillId(self.store.id());
                                self.store.bills.push(Bill {
                                    id,
                                    label: label.clone(),
                                    cents,
                                });
                            }
                        }
                        Ok(self.app.written(&Written::Bill { label, cents }, now))
                    }
                    Purpose::RecurringTxn(editing) => {
                        let description = typed(form, 0);
                        let cents = parse_amount(&typed(form, 1)).map_err(worded)?;
                        let id = RecurringTxnId(self.store.id());
                        self.store.rules.push(Rule {
                            id,
                            description: description.clone(),
                            cents,
                        });
                        let edited = editing.is_some();
                        Ok(self
                            .app
                            .written(&Written::RecurringTxn { edited, description }, now))
                    }
                    Purpose::RecurringGoal(editing) => {
                        let name = typed(form, 0);
                        let month = picked(form, 1) as i64 + 1;
                        let base = parse_amount(&typed(form, 2)).map_err(worded)?;
                        match editing {
                            Some(id) => {
                                for entry in &mut self.store.catalog {
                                    if entry.id == id {
                                        entry.name = name.clone();
                                        entry.month = month;
                                        entry.base = base;
                                    }
                                }
                            }
                            None => {
                                let id = RecurringGoalId(self.store.id());
                                self.store.catalog.push(Catalog {
                                    id,
                                    name: name.clone(),
                                    month,
                                    base,
                                    taxed: false,
                                });
                            }
                        }
                        let edited = editing.is_some();
                        Ok(self
                            .app
                            .written(&Written::RecurringGoal { edited, name }, now))
                    }
                    Purpose::Account(editing) => {
                        let id = editing.unwrap();
                        let block = match picked(form, 1) {
                            1 => Some(SavingsBlock::Goals),
                            2 => Some(SavingsBlock::Buckets),
                            _ => None,
                        };
                        let wanted = match picked(form, 2) {
                            1 => vec![Source::Transfer],
                            2 => vec![Source::Payment],
                            3 => vec![Source::Transfer, Source::Payment],
                            _ => vec![],
                        };
                        let writes = account_writes(
                            &self.store.containers,
                            &self.store.defaults,
                            id,
                            block,
                            &wanted,
                        );
                        for write in writes {
                            self.write_account(id, write);
                        }
                        let name = "account".to_string();
                        Ok(self
                            .app
                            .written(&Written::Account { edited: true, name }, now))
                    }
                    Purpose::Holding(editing) => {
                        let ids: Vec<AccountId> = self
                            .store
                            .of_kind(Kind::Investment)
                            .iter()
                            .map(|a| a.id)
                            .collect();
                        let account = ids[picked(form, 0)];
                        let ticker = typed(form, 1);
                        let balance = parse_amount(&typed(form, 2)).map_err(worded)?;
                        match editing {
                            Some(id) => {
                                for held in &mut self.store.holdings {
                                    if held.0 == id {
                                        held.1 = account;
                                        held.2 = ticker.clone();
                                        held.3 = balance;
                                    }
                                }
                            }
                            None => {
                                let id = HoldingId(self.store.id());
                                self.store
                                    .holdings
                                    .push((id, account, ticker.clone(), balance));
                            }
                        }
                        let edited = editing.is_some();
                        Ok(self.app.written(
                            &Written::Holding {
                                edited,
                                ticker,
                                balance,
                            },
                            now,
                        ))
                    }
                    Purpose::BirthDate => {
                        dated(form, 0).map_err(worded)?;
                        self.store.birth_date = true;
                        Ok(self.app.wrote("birth date saved", now))
                    }
                }
            }
            Some(Modal::Value { target, form }) => {
                let target = *target;
                let label = form.label().plain_text();
                let cents = parse_amount(form.value()).map_err(worded)?;
                match target {
                    Target::Bill(id) => {
                        for bill in &mut self.store.bills {
                            if bill.id == id {
                                bill.cents = cents;
                            }
                        }
                    }
                    _ => self.store.target = cents,
                }
                Ok(self.app.written(&Written::Constant { label }, now))
            }
            Some(Modal::Worksheet(_)) => {
                let posting = self.app.posting().unwrap().map_err(|why| why.status())?;
                let kind = match posting.kind {
                    BatchKind::Paycheck => "paycheck",
                    BatchKind::Interest => "interest",
                };
                self.post(kind, posting.date, &posting.shares);
                let goals = posting.shares.len();
                let total = posting.total;
                Ok(self.app.written(&Written::Posting { total, goals }, now))
            }
            Some(Modal::Picker(picker)) => {
                let chosen = picker.chosen();
                let container = picker.container();
                match pick_refused(&chosen, self.store.rate) {
                    Some(PickFault::NothingSelected) => {
                        return Err("nothing selected".to_string());
                    }
                    Some(PickFault::NoTaxRate) => return Err(NO_TAX_RATE.to_string()),
                    None => {}
                }
                let dates: Vec<Date> = chosen
                    .iter()
                    .map(|e| day(2027, e.month as u32, 1))
                    .collect();
                let goals = new_goals(&chosen, &dates, container, 10);
                let created = goals.len();
                for goal in goals {
                    let id = self.store.goal(goal.container, &goal.name, Some(goal.date));
                    for g in &mut self.store.goals {
                        if g.id == id {
                            g.entry = Some(goal.entry);
                            g.base = goal.base;
                            g.taxed = goal.taxed;
                        }
                    }
                }
                Ok(self.app.written(&Written::Goals { created }, now))
            }
            Some(Modal::Transfers(_)) => {
                let payday = self.app.payday(&self.store.pointed, &self.shares);
                let payday = payday.unwrap().map_err(|why| why.status())?;
                self.store.paydays.push(payday.date);
                Ok(self.app.transferred(payday, now))
            }
            Some(Modal::History(history)) => {
                let Mode::Editing(form) = history.mode() else {
                    panic!("the history is not editing")
                };
                let id = history.selected().unwrap().id;
                let goal = history.goal();
                let date = dated(form, 0).map_err(worded)?;
                let cents = parse_share(&typed(form, 1), self.pot(goal), Precision::Cents)
                    .map_err(worded)?;
                for alloc in &mut self.store.allocs {
                    if alloc.id == id {
                        alloc.date = date;
                        alloc.cents = cents;
                    }
                }
                Ok(self.app.written(&Written::Correction { cents }, now))
            }
            _ => panic!("nothing open is written"),
        }
    }

    fn write_account(&mut self, id: AccountId, write: AccountWrite) {
        let pointed = |write: KeyWrite, named: &mut Option<AccountId>| match write {
            KeyWrite::Point => *named = Some(id),
            KeyWrite::Clear => *named = None,
            KeyWrite::Keep => {}
        };
        match write {
            AccountWrite::Block(SavingsBlock::Goals, write) => {
                pointed(write, &mut self.store.containers[0])
            }
            AccountWrite::Block(SavingsBlock::Buckets, write) => {
                pointed(write, &mut self.store.containers[1])
            }
            AccountWrite::Default(Source::Transfer, write) => {
                pointed(write, &mut self.store.defaults[0])
            }
            AccountWrite::Default(Source::Payment, write) => {
                pointed(write, &mut self.store.defaults[1])
            }
            _ => {}
        }
    }

    fn confirmed(&mut self, action: Confirm) -> Request {
        let status = match action {
            Confirm::DeleteTxn(id) => {
                self.store.txns.retain(|t| t.id != id);
                "deleted".to_string()
            }
            Confirm::DeleteBill(id) => {
                self.store.bills.retain(|b| b.id != id);
                "deleted".to_string()
            }
            Confirm::DeleteHolding(id) => {
                self.store.holdings.retain(|h| h.0 != id);
                "deleted".to_string()
            }
            Confirm::DeleteRecurringTxn(id) => {
                self.store.rules.retain(|r| r.id != id);
                "deleted, its rows released".to_string()
            }
            Confirm::DeleteRecurringGoal(id) => {
                let goals = self.store.total_goals(id);
                if goals > 0 {
                    let why = format!("{goals} goal(s) reference this recurring goal");
                    self.app.refuse(&why, self.now);
                    return Request::Nothing;
                }
                self.store.catalog.retain(|e| e.id != id);
                "deleted".to_string()
            }
            Confirm::DeleteAllocation(id) => {
                self.store.allocs.retain(|a| a.id != id);
                "allocation deleted".to_string()
            }
            Confirm::UndoBatch(id) => {
                self.store.allocs.retain(|a| a.batch != Some(id));
                self.store.batches.retain(|b| b.0 != id);
                "undone".to_string()
            }
        };
        self.app.wrote(&status, self.now)
    }
}

const NO_TAX_RATE: &str = "a taxed goal needs a tax rate";

/// Two cash accounts, two cards, and a handful of rows in the month the
/// ledgers open on, including one dated after today.
fn app() -> Bench {
    let mut store = Store::new();
    let checking = store.account("CHK", "Everyday", Kind::Cash);
    let savings = store.account("SAV", "Rainy Day", Kind::Cash);
    let card_one = store.account("CC1", "Card One", Kind::Credit);
    let card_two = store.account("CC2", "Card Two", Kind::Credit);
    store.write(checking, day(2026, 8, 1), 100_000, "Paycheck");
    store.write(checking, day(2026, 8, 10), -5_000, "Whole Foods");
    store.write(savings, day(2026, 8, 12), 20_000, "Transfer");
    store.write(checking, day(2026, 8, 20), -120_000, "Rent");
    store.write(card_one, day(2026, 8, 11), 1_499, "Movies");
    store.write(card_two, day(2026, 8, 13), 2_599, "Batteries");
    let vacation = store.goal(savings, "Vacation 2027", Some(day(2027, 1, 1)));
    store.allocate(vacation, day(2026, 8, 1), 1_000_000, None);
    let couch = store.goal(savings, "Couch", None);
    store.allocate(couch, day(2026, 8, 1), 25_000, None);
    Bench::new(store)
}

fn press(bench: &mut Bench, code: KeyCode) {
    bench.press(code);
}

fn ctrl_press(bench: &mut Bench, c: char) {
    bench.key(KeyEvent::new(KeyCode::Char(c), Modifiers::control()));
}

fn shift_press(bench: &mut Bench, code: KeyCode) {
    bench.key(KeyEvent::new(code, Modifiers::shift()));
}

fn type_str(bench: &mut Bench, text: &str) {
    for c in text.chars() {
        press(bench, KeyCode::Char(c));
    }
}

fn form(bench: &Bench) -> &Form {
    match bench.app.modal() {
        Some(Modal::Form { form, .. }) => form,
        _ => panic!("no form is open: {:?}", bench.app.status()),
    }
}

/// What a field of the open form is drawn as.
fn shown(bench: &Bench, at: usize) -> String {
    let form = form(bench);
    match form.slot(at) {
        Slot::Date(date) => date.display(form.focus() == at),
        _ => typed(form, at),
    }
}

/// The account the open ledger form is on, as its selector draws it.
fn shown_account(bench: &Bench) -> String {
    let kind = match bench.app.screen() {
        Screen::Credit => Kind::Credit,
        _ => Kind::Cash,
    };
    let index = picked(form(bench), ACCOUNT);
    let account = bench
        .store
        .accounts
        .iter()
        .filter(|a| a.3 == kind)
        .nth(index)
        .unwrap();
    format!("{} — {}", account.1, account.2)
}

/// Tab from the field the form opens on to `field`.
fn focus(bench: &mut Bench, field: usize) {
    for _ in 0..form(bench).len() {
        if form(bench).focus() == field {
            return;
        }
        press(bench, KeyCode::Tab);
    }
    assert_eq!(form(bench).focus(), field, "the field never took focus");
}

fn descriptions(ledger: &Ledger) -> Vec<String> {
    ledger
        .list()
        .drawn()
        .iter()
        .map(|r| r.description.clone())
        .collect()
}

fn savings_names(bench: &Bench) -> Vec<String> {
    bench
        .app
        .savings()
        .list()
        .drawn()
        .iter()
        .map(|r| r.name.clone())
        .collect()
}

fn savings_favorites(bench: &Bench) -> Vec<bool> {
    bench
        .app
        .savings()
        .list()
        .drawn()
        .iter()
        .map(|r| r.favorite)
        .collect()
}

fn savings_current(bench: &Bench, at: usize) -> Cents {
    bench.app.savings().list().drawn()[at].current
}

fn excess(bench: &Bench) -> i64 {
    bench.app.savings().excess()[0].1 .0
}

fn open_on(bench: &Bench, topic: Topic) -> bool {
    bench.app.help().is_some_and(|h| h.topic() == topic)
}

fn worksheet(bench: &Bench) -> &Sheet {
    match bench.app.modal() {
        Some(Modal::Worksheet(sheet)) => sheet,
        _ => panic!("no worksheet is open: {:?}", bench.app.status()),
    }
}

/// The pot of the open worksheet, and what each of its lines is down for.
fn figures(bench: &Bench) -> (Cents, Vec<(GoalId, Cents)>) {
    let sheet = worksheet(bench);
    let lines = sheet.lines().all().iter();
    (sheet.amount(), lines.map(|l| (l.goal, l.amount)).collect())
}

/// What the open worksheet's lines leave of its pot.
fn remaining(bench: &Bench) -> Cents {
    let (pot, shares) = figures(bench);
    Cents(pot.0 - shares.iter().map(|s| s.1 .0).sum::<i64>())
}

fn plan_transfers(bench: &Bench) -> &TransferConfirm {
    match bench.app.modal() {
        Some(Modal::Transfers(confirm)) => confirm,
        _ => panic!("no transfer confirmation is open: {:?}", bench.app.status()),
    }
}

fn picker(bench: &Bench) -> &Picker {
    match bench.app.modal() {
        Some(Modal::Picker(picker)) => picker,
        _ => panic!("no picker is open: {:?}", bench.app.status()),
    }
}

fn destination(bench: &Bench) -> &Chooser {
    match bench.app.modal() {
        Some(Modal::Destination(chooser)) => chooser,
        _ => panic!("no destination list is open: {:?}", bench.app.status()),
    }
}

fn history(bench: &Bench) -> &History {
    match bench.app.modal() {
        Some(Modal::History(history)) => history,
        _ => panic!("no history is open: {:?}", bench.app.status()),
    }
}

fn history_total(bench: &Bench) -> Cents {
    Cents(history(bench).all().iter().map(|r| r.cents.0).sum())
}

fn entries(bench: &Bench) -> Vec<String> {
    picker(bench).entries().iter().map(|e| e.name.clone()).collect()
}

fn chosen(bench: &Bench) -> Vec<String> {
    picker(bench).chosen().iter().map(|e| e.name.clone()).collect()
}

fn footer(bench: &Bench) -> String {
    match bench.app.footer() {
        Footer::Status(status) => status.text(),
        Footer::Search(spans) => spans.iter().map(|s| s.text.as_str()).collect(),
        Footer::Keys { topic, .. } => format!("{topic:?}"),
    }
}

/// The character the footer draws its caret on.
fn footer_caret(bench: &Bench) -> String {
    match bench.app.footer() {
        Footer::Search(spans) => spans
            .iter()
            .filter(|s| s.caret)
            .map(|s| s.text.as_str())
            .collect(),
        _ => String::new(),
    }
}


/// Add a row through the keyboard, stepping the date `days` from wherever the
/// form opens.
fn add_row(bench: &mut Bench, days: usize, description: &str) {
    press(bench, KeyCode::Char('a'));
    focus(bench, DATE);
    for _ in 0..days {
        press(bench, KeyCode::Right);
    }
    focus(bench, DESCRIPTION);
    type_str(bench, description);
    focus(bench, AMOUNT);
    type_str(bench, "10");
    press(bench, KeyCode::Enter);
    assert!(
        bench.app.modal().is_none(),
        "the form stayed open: {}",
        bench.app.status()
    );
}

fn form_date(bench: &Bench) -> String {
    shown(bench, DATE)
}

fn transfer_date(bench: &Bench) -> String {
    shown(bench, 0)
}

fn is_open(bench: &Bench, wanted: Purpose) -> bool {
    matches!(bench.app.modal(), Some(Modal::Form { purpose, .. }) if *purpose == wanted)
}

/// Rows in July, August and September, so `[` and `]` have somewhere to go.
fn app_spanning_three_months() -> Bench {
    let mut store = Store::new();
    let checking = store.account("CHK", "Everyday", Kind::Cash);
    let card_one = store.account("CC1", "Card One", Kind::Credit);
    store.write(checking, day(2026, 7, 5), 100_000, "July");
    store.write(checking, day(2026, 8, 5), 100_000, "August");
    store.write(checking, day(2026, 9, 5), 100_000, "September");
    store.write(card_one, day(2026, 7, 6), 1_000, "July card");
    store.write(card_one, day(2026, 9, 6), 1_000, "September card");
    Bench::new(store)
}

/// The first row of a session has nothing behind it to take a date from,
/// so the form opens where every other date field in the app does.
#[test]
fn the_first_add_of_a_session_opens_on_today() {
    let mut bench = app();
    press(&mut bench, KeyCode::Char('2'));
    press(&mut bench, KeyCode::Char('a'));

    assert_eq!(form_date(&bench), "2026-08-15");
}

/// Entering a statement is a run of rows landing on the same few days, so
/// the day the last one was written for is a better opening guess than
/// today -- and the owner who has moved off today said so by moving.
#[test]
fn an_add_opens_on_the_date_the_last_row_was_added_with() {
    let mut bench = app();
    press(&mut bench, KeyCode::Char('2'));
    add_row(&mut bench, 5, "Kite");

    press(&mut bench, KeyCode::Char('a'));
    assert_eq!(form_date(&bench), "2026-08-20");
}

/// The date is the day being entered for rather than a property of either
/// ledger, so it survives the walk from one to the other: a statement and
/// the card rows on it are the same sitting.
#[test]
fn the_date_carries_from_one_ledger_to_the_other() {
    let mut bench = app();
    press(&mut bench, KeyCode::Char('2'));
    add_row(&mut bench, 5, "Kite");

    press(&mut bench, KeyCode::Char('3'));
    press(&mut bench, KeyCode::Char('a'));
    assert_eq!(form_date(&bench), "2026-08-20");
}

/// `t` and `p` write ledger rows in the same sitting `a` does -- the
/// card payment at the bottom of the statement whose rows were just
/// entered -- so they open where `a` does rather than back on today.
#[test]
fn a_transfer_and_a_payment_open_on_the_date_the_last_row_was_added_with() {
    let mut bench = app();
    press(&mut bench, KeyCode::Char('2'));
    add_row(&mut bench, 5, "Kite");

    press(&mut bench, KeyCode::Char('t'));
    assert_eq!(transfer_date(&bench), "2026-08-20");
    press(&mut bench, KeyCode::Esc);

    press(&mut bench, KeyCode::Char('p'));
    assert_eq!(transfer_date(&bench), "2026-08-20");
}

/// Both legs are new rows, so a transfer is a statement about the day
/// being entered for in the way an edit is not.
#[test]
fn committing_a_payment_moves_the_date_the_next_add_opens_on() {
    let mut bench = app();
    press(&mut bench, KeyCode::Char('3'));
    press(&mut bench, KeyCode::Char('p'));
    for _ in 0..5 {
        press(&mut bench, KeyCode::Right);
    }
    for _ in 0..4 {
        press(&mut bench, KeyCode::Tab);
    }
    type_str(&mut bench, "10");
    press(&mut bench, KeyCode::Enter);
    assert!(bench.app.modal().is_none(), "the form stayed open: {}", bench.app.status());

    press(&mut bench, KeyCode::Char('a'));
    assert_eq!(form_date(&bench), "2026-08-20");
}

/// An edit is a correction to a row already written, not a statement
/// about where the hand is working. Fixing the date on something months
/// back must not drag the next new row there with it.
#[test]
fn editing_a_row_leaves_the_date_the_next_add_opens_on_alone() {
    let mut bench = app();
    press(&mut bench, KeyCode::Char('2'));
    add_row(&mut bench, 5, "Kite");

    press(&mut bench, KeyCode::Char('e'));
    focus(&mut bench, DATE);
    press(&mut bench, KeyCode::Left);
    press(&mut bench, KeyCode::Enter);
    assert!(bench.app.modal().is_none(), "the edit stayed open: {}", bench.app.status());

    press(&mut bench, KeyCode::Char('a'));
    assert_eq!(form_date(&bench), "2026-08-20");
}

/// `[`/`]` reach a form's date the way the arrows do -- and stop there.
/// A bracket is an ordinary character in a description, so the key has to
/// go on to the text when the caret is not in a date.
#[test]
fn brackets_step_a_form_date_a_month_and_still_type_into_a_description() {
    let mut bench = app();
    press(&mut bench, KeyCode::Char('2'));
    press(&mut bench, KeyCode::Char('a'));
    focus(&mut bench, DATE);
    press(&mut bench, KeyCode::Char(']'));
    assert_eq!(form_date(&bench), "2026-09-15");
    press(&mut bench, KeyCode::Char('['));
    press(&mut bench, KeyCode::Char('['));
    assert_eq!(form_date(&bench), "2026-07-15");

    focus(&mut bench, DESCRIPTION);
    type_str(&mut bench, "Lot [3]");
    assert_eq!(
        shown(&bench, DESCRIPTION),
        "Lot [3]"
    );
}

#[test]
fn stepping_the_month_on_cash_steps_credit_with_it() {
    let mut bench = app_spanning_three_months();
    let august = bench.app.credit().window();

    press(&mut bench, KeyCode::Char('2'));
    press(&mut bench, KeyCode::Char(']'));

    assert_ne!(bench.app.cash().window(), august, "] must move the active ledger");
    assert_eq!(bench.app.credit().window(), bench.app.cash().window());
}

#[test]
fn stepping_the_month_on_credit_steps_cash_with_it() {
    let mut bench = app_spanning_three_months();
    let august = bench.app.cash().window();

    press(&mut bench, KeyCode::Char('3'));
    press(&mut bench, KeyCode::Char('['));

    assert_ne!(bench.app.credit().window(), august, "[ must move the active ledger");
    assert_eq!(bench.app.cash().window(), bench.app.credit().window());
}

/// The ledger narrows two ways as well, and `Esc` is the one key out of
/// either: an owner who has tabbed to an account and stepped the month
/// should not have to work out which of the two is hiding the row they
/// are looking for.
#[test]
fn esc_clears_the_account_filter_as_well_as_the_window() {
    let mut bench = app_spanning_three_months();
    let august = bench.app.cash().window();

    press(&mut bench, KeyCode::Char('2'));
    press(&mut bench, KeyCode::Tab);
    press(&mut bench, KeyCode::Char(']'));
    assert!(bench.app.cash().selected_account().is_some());
    assert_ne!(bench.app.cash().window(), august);

    press(&mut bench, KeyCode::Esc);
    assert_eq!(bench.app.cash().selected_account(), None);
    assert_eq!(bench.app.cash().window(), august);
}

/// The account filter belongs to one ledger the way the needle does --
/// the two hold different accounts -- where the window belongs to both.
#[test]
fn clearing_the_account_filter_on_one_ledger_leaves_the_other_alone() {
    let mut bench = app_spanning_three_months();

    press(&mut bench, KeyCode::Char('3'));
    press(&mut bench, KeyCode::Tab);
    let card = bench.app.credit().selected_account();
    assert!(card.is_some());

    press(&mut bench, KeyCode::Char('2'));
    press(&mut bench, KeyCode::Tab);
    press(&mut bench, KeyCode::Esc);

    assert_eq!(bench.app.cash().selected_account(), None);
    assert_eq!(bench.app.credit().selected_account(), card);
}

/// The innermost thing first: a kept needle goes before the two filters
/// under it, exactly as it goes before the window on its own.
#[test]
fn esc_clears_a_kept_needle_before_the_account_filter() {
    let mut bench = app_spanning_three_months();

    press(&mut bench, KeyCode::Char('2'));
    press(&mut bench, KeyCode::Tab);
    let checking = bench.app.cash().selected_account();
    assert!(checking.is_some());

    press(&mut bench, KeyCode::Char('/'));
    type_str(&mut bench, "aug");
    press(&mut bench, KeyCode::Enter);

    press(&mut bench, KeyCode::Esc);
    assert_eq!(bench.app.cash().list().search(), "");
    assert_eq!(
        bench.app.cash().selected_account(),
        checking,
        "the account filter is the next thing out"
    );

    press(&mut bench, KeyCode::Esc);
    assert_eq!(bench.app.cash().selected_account(), None);
}

/// The ledgers have no All to clear to -- their window is pushed down
/// into the SQL -- so `Esc` means "back to the window the screen opens
/// on", and it takes the other ledger with it the way `[` and `]` do.
#[test]
fn esc_returns_both_ledgers_to_the_window_around_today() {
    let mut bench = app_spanning_three_months();
    let august = bench.app.cash().window();

    press(&mut bench, KeyCode::Char('2'));
    press(&mut bench, KeyCode::Char(']'));
    assert_ne!(bench.app.cash().window(), august);

    press(&mut bench, KeyCode::Esc);
    assert_eq!(bench.app.cash().window(), august);
    assert_eq!(bench.app.credit().window(), august);
}

#[test]
fn esc_on_credit_returns_cash_with_it() {
    let mut bench = app_spanning_three_months();
    let august = bench.app.cash().window();

    press(&mut bench, KeyCode::Char('3'));
    press(&mut bench, KeyCode::Char('['));
    press(&mut bench, KeyCode::Esc);

    assert_eq!(bench.app.credit().window(), august);
    assert_eq!(bench.app.cash().window(), august);
}

/// The other ledger is re-queried too: a synced window over stale rows
/// would show August's rows under a September heading.
#[test]
fn the_other_ledgers_rows_follow_the_shared_month() {
    let mut bench = app_spanning_three_months();
    press(&mut bench, KeyCode::Char('2'));
    press(&mut bench, KeyCode::Char(']'));

    assert_eq!(descriptions(bench.app.credit()), ["September card"]);
}

/// `BackTab` is `Tab`'s cycle read backwards, and it re-queries the same
/// way: a filter moved without the rows following it shows one account's
/// rows under another's heading.
#[test]
fn back_tab_steps_the_ledgers_account_filter_the_other_way() {
    let mut bench = app();
    press(&mut bench, KeyCode::Char('2'));

    press(&mut bench, KeyCode::BackTab);
    assert_eq!(
        descriptions(bench.app.cash()),
        ["Transfer"],
        "the last cash account"
    );

    press(&mut bench, KeyCode::BackTab);
    assert_eq!(
        descriptions(bench.app.cash()),
        ["Paycheck", "Whole Foods", "Rent"],
        "the first"
    );

    press(&mut bench, KeyCode::BackTab);
    assert_eq!(
        descriptions(bench.app.cash()),
        ["Paycheck", "Whole Foods", "Transfer", "Rent"],
        "All"
    );
}

#[test]
fn t_opens_a_transfer_form_on_the_cash_ledger() {
    let mut bench = app();
    press(&mut bench, KeyCode::Char('2'));
    press(&mut bench, KeyCode::Char('t'));
    assert!(is_open(&bench, Purpose::Transfer));
}

/// A transfer leaves an account you hold, so the key has nothing to start
/// from on the Credit ledger. `p` is the move that belongs to a card.
#[test]
fn t_opens_nothing_on_the_credit_ledger() {
    let mut bench = app();
    press(&mut bench, KeyCode::Char('3'));
    press(&mut bench, KeyCode::Char('t'));
    assert!(bench.app.modal().is_none());
}

#[test]
fn p_still_opens_a_payment_form_on_the_credit_ledger() {
    let mut bench = app();
    press(&mut bench, KeyCode::Char('3'));
    press(&mut bench, KeyCode::Char('p'));
    assert!(is_open(&bench, Purpose::Payment));
}

/// The cursor opens on the last row dated on or before today, so `d`
/// takes "Transfer" rather than the first row of the month.
#[test]
fn d_then_y_deletes_the_selected_row() {
    let mut bench = app();
    press(&mut bench, KeyCode::Char('2'));
    assert_eq!(
        descriptions(bench.app.cash()),
        ["Paycheck", "Whole Foods", "Transfer", "Rent"]
    );

    press(&mut bench, KeyCode::Char('d'));
    press(&mut bench, KeyCode::Char('y'));

    assert_eq!(descriptions(bench.app.cash()), ["Paycheck", "Whole Foods", "Rent"]);
    assert_eq!(bench.app.status(), "deleted");
    assert!(bench.app.modal().is_none());
}

/// Opening on the first row of the month would put the cursor hundreds of
/// rows from the ones just entered.
#[test]
fn the_ledger_opens_on_the_last_row_dated_on_or_before_today() {
    let bench = app();
    assert_eq!(bench.app.cash().selected().unwrap().description, "Transfer");
}

/// `Rent` is dated after today, so anchoring has to skip back over it
/// rather than simply taking the last row.
#[test]
fn a_deleted_row_does_not_send_the_cursor_back_to_today() {
    let mut bench = app();
    press(&mut bench, KeyCode::Char('2'));
    press(&mut bench, KeyCode::End);
    assert_eq!(bench.app.cash().selected().unwrap().description, "Rent");

    press(&mut bench, KeyCode::Char('d'));
    press(&mut bench, KeyCode::Char('y'));

    assert_eq!(
        bench.app.cash().selected().unwrap().description,
        "Transfer",
        "the cursor stays at its index, which is now the last row"
    );
}

/// The confirmation exists because there is no undo, so anything that is
/// not `y` has to be a cancel rather than a fall-through.
#[test]
fn d_then_any_other_key_cancels_and_the_row_survives() {
    let mut bench = app();
    press(&mut bench, KeyCode::Char('2'));
    press(&mut bench, KeyCode::Char('d'));
    press(&mut bench, KeyCode::Char('n'));

    assert_eq!(
        descriptions(bench.app.cash()),
        ["Paycheck", "Whole Foods", "Transfer", "Rent"]
    );
    assert_eq!(bench.app.status(), "delete cancelled");
    assert!(bench.app.modal().is_none());
}

#[test]
fn q_while_searching_types_into_the_box_rather_than_quitting() {
    let mut bench = app();
    press(&mut bench, KeyCode::Char('2'));
    press(&mut bench, KeyCode::Char('/'));
    type_str(&mut bench, "q");

    assert!(!bench.app.should_quit());
    assert_eq!(bench.app.cash().list().search(), "q");
    assert!(bench.app.cash().list().drawn().is_empty(), "nothing matches \"q\"");
}

/// Under All the border quotes the whole kind's balance, which no
/// statement names. The key says so rather than opening a form over a
/// figure it cannot check.
#[test]
fn r_under_the_all_filter_reports_that_it_needs_an_account() {
    let mut bench = app();
    press(&mut bench, KeyCode::Char('2'));
    press(&mut bench, KeyCode::Char('r'));

    assert!(bench.app.modal().is_none());
    assert!(bench.app.status().contains("account filter"), "{}", bench.app.status());
}

/// Reopening on a target already set shows it, so a figure being
/// corrected is edited rather than retyped.
#[test]
fn r_reopens_on_the_target_already_set() {
    let mut bench = app();
    press(&mut bench, KeyCode::Char('2'));
    press(&mut bench, KeyCode::Tab);
    press(&mut bench, KeyCode::Char('r'));
    type_str(&mut bench, "1200");
    press(&mut bench, KeyCode::Enter);

    press(&mut bench, KeyCode::Char('r'));

    let Some(Modal::Reconcile { form, .. }) = bench.app.modal() else {
        panic!("r must reopen the form: {:?}", bench.app.status());
    };
    assert_eq!(form.value(), "1,200.00");
}

/// `Esc` backs out of the form, which is not the same as clearing the
/// figure the form opened on.
#[test]
fn esc_leaves_a_target_already_set_alone() {
    let mut bench = app();
    press(&mut bench, KeyCode::Char('2'));
    press(&mut bench, KeyCode::Tab);
    press(&mut bench, KeyCode::Char('r'));
    type_str(&mut bench, "1200");
    press(&mut bench, KeyCode::Enter);

    press(&mut bench, KeyCode::Char('r'));
    type_str(&mut bench, "9");
    press(&mut bench, KeyCode::Esc);

    assert_eq!(bench.app.cash().target(), Some(Cents(120_000)));
}

#[test]
fn a_on_a_ledger_with_no_accounts_reports_it_in_the_status_line() {
    let mut store = Store::new();
    let card_one = store.account("CC1", "Card One", Kind::Credit);
    store.write(card_one, day(2026, 8, 11), 1_499, "Movies");
    let mut bench = Bench::new(store);

    press(&mut bench, KeyCode::Char('2'));
    press(&mut bench, KeyCode::Char('a'));

    assert!(bench.app.status().contains("no account"), "{}", bench.app.status());
    assert!(bench.app.modal().is_none());
    assert!(
        !bench.app.should_quit(),
        "a failed write must not end the session"
    );
}

#[test]
fn committing_a_form_reloads_the_rows_behind_it() {
    let mut bench = app();
    press(&mut bench, KeyCode::Char('2'));
    press(&mut bench, KeyCode::Char('a'));
    focus(&mut bench, AMOUNT);
    type_str(&mut bench, "42.50");
    focus(&mut bench, DESCRIPTION);
    type_str(&mut bench, "Zebra");
    press(&mut bench, KeyCode::Enter);

    assert!(bench.app.modal().is_none());
    let rows = bench.app.cash().list().drawn();
    let written = rows
        .iter()
        .find(|t| t.description == "Zebra")
        .expect("the new row must be on screen without another keystroke");
    assert_eq!(written.cents, Cents(4_250));
    assert_eq!(written.date, today());
    assert_eq!(bench.app.status(), "added Zebra 42.50 on 2026-08-15");
}

/// The status line is the only confirmation a write gets, and a blank
/// description would leave `added  42.50 on ...` -- a gap between two
/// spaces that reads as a figure that failed to render rather than as a
/// row the owner chose not to name.
#[test]
fn a_row_written_with_no_description_is_confirmed_by_its_em_dash() {
    let mut bench = app();
    press(&mut bench, KeyCode::Char('2'));
    press(&mut bench, KeyCode::Char('a'));
    focus(&mut bench, AMOUNT);
    type_str(&mut bench, "42.50");
    press(&mut bench, KeyCode::Enter);

    assert!(bench.app.modal().is_none(), "the form stayed open: {}", bench.app.status());
    assert_eq!(bench.app.status(), "added — 42.50 on 2026-08-15");
    assert!(
        bench.app.cash().list().drawn().iter().any(|t| t.description.is_empty()),
        "the row itself keeps the empty description it was written with"
    );
}

/// Deleting is the one irreversible key on the ledger, and the label is
/// the whole of what the question offers to identify the row by. An
/// unnamed row still has to be identifiable as the row the cursor is on.
#[test]
fn the_delete_confirmation_names_an_unnamed_row_by_its_em_dash() {
    let mut bench = app();
    press(&mut bench, KeyCode::Char('2'));
    press(&mut bench, KeyCode::Char('a'));
    focus(&mut bench, AMOUNT);
    type_str(&mut bench, "42.50");
    press(&mut bench, KeyCode::Enter);

    for _ in 0..bench.app.cash().list().drawn().len() {
        if bench
            .app
            .cash()
            .selected()
            .is_some_and(|t| t.description.is_empty())
        {
            break;
        }
        press(&mut bench, KeyCode::Down);
    }
    press(&mut bench, KeyCode::Char('d'));

    let Some(Modal::Confirm { label, .. }) = bench.app.modal() else {
        panic!("d must open the confirmation: {:?}", bench.app.status());
    };
    assert_eq!(label.text(), "2026-08-15  —  42.50");
}

/// `a` on a ledger filtered to one card must not open on a different one:
/// it is a plausible misfiled row in exactly the workflow `Tab` exists
/// for, and there is no undo.
#[test]
fn adding_on_an_account_filtered_ledger_preselects_that_account() {
    let mut bench = app();
    press(&mut bench, KeyCode::Char('3'));
    press(&mut bench, KeyCode::Tab);
    press(&mut bench, KeyCode::Tab);
    assert_eq!(descriptions(bench.app.credit()), ["Batteries"]);

    press(&mut bench, KeyCode::Char('a'));
    assert_eq!(
        shown_account(&bench),
        "CC2 — Card Two"
    );
}

#[test]
fn adding_on_an_unfiltered_ledger_opens_on_the_first_account() {
    let mut bench = app();
    press(&mut bench, KeyCode::Char('3'));
    press(&mut bench, KeyCode::Char('a'));

    assert_eq!(
        shown_account(&bench),
        "CC1 — Card One"
    );
}

/// Without this the only way out of the popup is `Esc`, which discarded
/// the whole form — everything typed with it.
#[test]
fn esc_closes_the_popup_first_and_the_form_second() {
    let mut bench = app();
    press(&mut bench, KeyCode::Char('2'));
    press(&mut bench, KeyCode::Char('a'));
    focus(&mut bench, DESCRIPTION);
    type_str(&mut bench, "Whole");
    assert!(bench.app.popup().visible() > 0, "\"Whole Foods\" is a suggestion");

    press(&mut bench, KeyCode::Esc);
    assert_eq!(bench.app.popup().visible(), 0);
    assert!(!bench.app.popup().is_open());
    assert_eq!(
        shown(&bench, DESCRIPTION),
        "Whole",
        "dismissing the popup must keep what was typed"
    );

    press(&mut bench, KeyCode::Esc);
    assert!(bench.app.modal().is_none());
}

/// A popup whose rows were all clipped away captures no keys, so `Esc`
/// must reach the modal rather than being swallowed by an invisible list.
#[test]
fn esc_closes_the_form_when_the_popup_drew_no_rows() {
    let mut bench = app();
    press(&mut bench, KeyCode::Char('2'));
    press(&mut bench, KeyCode::Char('a'));
    focus(&mut bench, DESCRIPTION);
    type_str(&mut bench, "Whole");
    bench.app.record_popup(0);

    press(&mut bench, KeyCode::Esc);
    assert!(bench.app.modal().is_none());
}

/// `Tab` is the one key that moves the ledger total: All is the kind's
/// balance, and narrowing to an account is that account's. Both are
/// balances *at today*, so the Rent row dated the 20th is in neither.
#[test]
fn tab_moves_the_ledger_total_from_the_kind_to_the_selected_account() {
    let mut bench = app();
    press(&mut bench, KeyCode::Char('2'));
    // Everyday 1,000.00 - 50.00, and Rainy Day 200.00.
    assert_eq!(bench.app.cash().total(), Cents(115_000));
    press(&mut bench, KeyCode::Tab);
    assert_eq!(
        bench.app.cash().selected_account(),
        Some(bench.store.accounts[0].0)
    );
    assert_eq!(bench.app.cash().total(), Cents(95_000), "Everyday alone");
    press(&mut bench, KeyCode::Tab);
    assert_eq!(bench.app.cash().total(), Cents(20_000), "Rainy Day alone");
    press(&mut bench, KeyCode::Tab);
    assert_eq!(bench.app.cash().total(), Cents(115_000), "back to All");
}

/// The total is a balance at a date, so the rows it is drawn over do not
/// bound it: stepping the window changes the rows and leaves it alone.
/// The future-dated row is outside it under either window.
#[test]
fn stepping_the_month_leaves_the_ledger_total_alone() {
    let mut store = Store::new();
    let checking = store.account("CHK", "Everyday", Kind::Cash);
    store.write(checking, day(2026, 7, 4), 50_000, "July");
    store.write(checking, day(2026, 8, 10), 30_000, "August");
    store.write(checking, day(2026, 8, 20), 999_999, "Not yet");
    let mut bench = Bench::new(store);

    press(&mut bench, KeyCode::Char('2'));
    assert_eq!(bench.app.cash().list().drawn().len(), 2, "August");
    assert_eq!(bench.app.cash().total(), Cents(80_000));

    press(&mut bench, KeyCode::Char('['));
    assert_eq!(bench.app.cash().list().drawn().len(), 1, "July");
    assert_eq!(bench.app.cash().total(), Cents(80_000));
}

/// The same order on a ledger, where the outer filter is the window.
#[test]
fn esc_outside_a_ledger_box_clears_a_kept_search_before_the_window() {
    let mut bench = app_spanning_three_months();
    let august = bench.app.cash().window();

    press(&mut bench, KeyCode::Char('2'));
    press(&mut bench, KeyCode::Char(']'));
    let september = bench.app.cash().window();
    assert_ne!(september, august);

    press(&mut bench, KeyCode::Char('/'));
    type_str(&mut bench, "sept");
    press(&mut bench, KeyCode::Enter);
    assert_eq!(bench.app.cash().list().drawn().len(), 1);

    press(&mut bench, KeyCode::Esc);
    assert_eq!(bench.app.cash().list().search(), "");
    assert_eq!(
        bench.app.cash().window(),
        september,
        "the window is the next thing out"
    );

    press(&mut bench, KeyCode::Esc);
    assert_eq!(bench.app.cash().window(), august);
}

/// The needle is one ledger's; the window is both. Clearing a kept filter
/// on Cash must not reach across to Credit the way `Esc` on the window
/// deliberately does.
#[test]
fn clearing_a_kept_filter_on_one_ledger_leaves_the_other_alone() {
    let mut bench = app_spanning_three_months();
    press(&mut bench, KeyCode::Char('3'));
    press(&mut bench, KeyCode::Char('/'));
    type_str(&mut bench, "card");
    press(&mut bench, KeyCode::Enter);

    press(&mut bench, KeyCode::Char('2'));
    press(&mut bench, KeyCode::Char('/'));
    type_str(&mut bench, "aug");
    press(&mut bench, KeyCode::Enter);
    press(&mut bench, KeyCode::Esc);

    assert_eq!(bench.app.cash().list().search(), "");
    assert_eq!(bench.app.credit().list().search(), "card");
}


/// The containers and goals a plan points its lines at, two housing bills and
/// one other.
fn planning_app() -> Bench {
    let mut store = Store::new();
    let checking = store.account("CHK", "Everyday", Kind::Cash);
    let savings = store.account("SAV", "Rainy Day", Kind::Cash);
    let brokerage = store.account("BKR", "Brokerage", Kind::Cash);
    // A few cents of drift off the round paycheck so the excess has something
    // to floor.
    store.write(checking, day(2026, 8, 1), 5_000_007, "Paycheck");
    for (label, dollars) in [("Mortgage", 1_200), ("HOA", 300), ("Coworking", 1_000)] {
        let id = BillId(store.id());
        store.bills.push(Bill {
            id,
            label: label.to_string(),
            cents: Cents::from_dollars(dollars),
        });
    }
    let bill_payments = store.goal(savings, "Bill Payments", None);
    let housing = store.goal(savings, "Housing", None);
    store.goal(savings, "Roth IRA", None);
    let down_payment = store.goal(brokerage, "Home Down Payment", None);
    let mom_and_dad = store.goal(brokerage, "Mom & Dad", None);
    store.goal(brokerage, "Emergency Savings", None);
    store.goal(brokerage, "Lego", None);
    store.goal(brokerage, "Dropbox", None);
    store.pointed = vec![
        (Line::Bills, bill_payments),
        (Line::CurrentHousing, housing),
        (Line::FutureHousing, down_payment),
        (Line::MomAndDad, mom_and_dad),
    ];
    Bench::new(store)
}

/// The same, with a row three days after today big enough to move the plan.
fn planning_app_with_a_row_after_today() -> Bench {
    let mut bench = planning_app();
    let checking = bench.store.checking().unwrap();
    bench
        .store
        .write(checking, day(2026, 8, 18), -1_000_000, "Rent");
    bench.reload();
    bench
}

/// Two rows on all seven lists.
fn app_with_two_rows_on_every_list() -> Bench {
    let mut bench = app();
    for name in ["Utilities", "Gym"] {
        let id = RecurringTxnId(bench.store.id());
        bench.store.rules.push(Rule {
            id,
            description: name.to_string(),
            cents: Cents::from_dollars(-100),
        });
        bench.store.entry(name, 9, 128, false);
    }
    let brokerage = bench.store.account("BRK", "Brokerage", Kind::Investment);
    for (ticker, dollars) in [("USB", 30_000), ("USM", 90_000)] {
        let id = HoldingId(bench.store.id());
        bench.store.holdings.push((
            id,
            brokerage,
            ticker.to_string(),
            Cents::from_dollars(dollars),
        ));
    }
    bench.reload();
    bench
}

/// The footer is the screen's keys, and a message borrows it rather than
/// owning it: once it has been up long enough to read, the keys come
/// back without the owner having to press anything to dismiss it.
#[test]
fn a_status_message_gives_the_footer_back_once_it_has_outlived_its_ttl() {
    let mut bench = app();
    press(&mut bench, KeyCode::Char('4'));
    press(&mut bench, KeyCode::Char('U'));
    let keys = "Savings";
    assert_ne!(footer(&bench), keys);

    bench.app.expire_status(bench.now + STATUS_TTL);

    assert_eq!(bench.app.status(), "");
    assert_eq!(footer(&bench), keys);
}

#[test]
fn a_status_message_holds_the_footer_until_its_ttl_is_up() {
    let mut bench = app();
    press(&mut bench, KeyCode::Char('4'));
    press(&mut bench, KeyCode::Char('U'));

    bench.app.expire_status(bench.now);

    assert!(bench.app.status().contains("nothing to undo"), "{}", bench.app.status());
}

/// The event loop redraws on this answer and on nothing else the clock
/// can offer, so an expiry that reported nothing would leave a faded
/// message on the footer until the next keystroke -- and an idle app
/// reporting one every tick would be the unconditional draw back again.
#[test]
fn only_the_tick_that_drops_a_message_reports_a_change() {
    let mut bench = app();
    press(&mut bench, KeyCode::Char('4'));
    press(&mut bench, KeyCode::Char('U'));

    assert!(!bench.app.expire_status(bench.now), "not up yet");
    assert!(
        bench.app.expire_status(bench.now + STATUS_TTL),
        "the message was dropped"
    );
    assert!(
        !bench.app.expire_status(bench.now + STATUS_TTL),
        "nothing left to drop"
    );
}

/// The clock starts on the message, not on the key: a key that says
/// nothing must not leave the previous message's deadline behind for the
/// next expiry to act on.
#[test]
fn a_key_that_says_nothing_leaves_no_deadline_behind() {
    let mut bench = app();
    press(&mut bench, KeyCode::Char('4'));
    press(&mut bench, KeyCode::Char('U'));
    press(&mut bench, KeyCode::Char('1'));

    assert_eq!(bench.app.status(), "");
    assert!(!bench.app.expire_status(u64::MAX));
}

/// A week per press, both ways, and the drift the footer reports counts
/// in days rather than presses.
#[test]
fn shift_and_an_arrow_scrub_the_overview_a_week_at_a_time() {
    let mut bench = app();
    let baseline = today();

    shift_press(&mut bench, KeyCode::Right);
    assert_eq!(bench.app.adhoc(), baseline.add_days(7).unwrap());
    assert_eq!(bench.app.scrubbed_days(), 7);

    shift_press(&mut bench, KeyCode::Left);
    assert_eq!(bench.app.adhoc(), baseline);
    assert_eq!(bench.app.scrubbed_days(), 0);

    shift_press(&mut bench, KeyCode::Left);
    assert_eq!(bench.app.adhoc(), baseline.add_days(-7).unwrap());
    assert_eq!(bench.app.scrubbed_days(), -7);
}

/// The unmodified arrow is untouched: one is a nudge and the other a
/// bigger nudge, and they compose because both move the same date.
#[test]
fn a_plain_arrow_still_scrubs_a_single_day() {
    let mut bench = app();
    let baseline = today();

    press(&mut bench, KeyCode::Right);
    shift_press(&mut bench, KeyCode::Right);
    assert_eq!(bench.app.adhoc(), baseline.add_days(8).unwrap());
    assert_eq!(bench.app.scrubbed_days(), 8);
}

/// The week scrub is the day scrub with a bigger step, so it reaches
/// Planning the same way: `Excess (Actual)` is the checking balance at
/// this date, and a screen quoting a different day than the column the
/// owner just moved is the failure the shared `App::adhoc` prevents.
#[test]
fn a_week_scrub_moves_the_date_planning_quotes_too() {
    let mut bench = planning_app_with_a_row_after_today();
    let before = bench.app.planning().excess();

    // One press clears the 18th, where the fixture's Rent lands.
    shift_press(&mut bench, KeyCode::Right);
    assert_eq!(bench.app.adhoc(), day(2026, 8, 22));

    assert_eq!(bench.app.planning().excess(), Cents(before.0 - 1_000_000));
}

/// The scrub is view state and always was; with `ADHOC_DATE` retired
/// there is nothing left for `Enter` to save.
#[test]
fn scrubbing_moves_only_the_view_and_enter_saves_nothing() {
    let mut bench = app();
    press(&mut bench, KeyCode::Right);
    press(&mut bench, KeyCode::Right);
    assert_eq!(bench.app.scrubbed_days(), 2);
    assert_eq!(bench.app.adhoc(), today().add_days(2).unwrap());

    press(&mut bench, KeyCode::Enter);

    assert_eq!(bench.app.scrubbed_days(), 2, "Enter must not reset the scrub");
    assert_eq!(bench.app.status(), "");
}

/// Scrubbing back onto the baseline is still a press that did something,
/// and `scrubbed +0d` is a drift that is not one. Saying where the date
/// landed is what an arrow that undoes a scrub has to report.
#[test]
fn scrubbing_back_onto_the_baseline_says_where_the_date_landed() {
    let mut bench = app();

    shift_press(&mut bench, KeyCode::Right);
    shift_press(&mut bench, KeyCode::Left);

    assert_eq!(bench.app.scrubbed_days(), 0);
    assert_eq!(bench.app.status(), "back to Paycheck-Eve");
}

/// The drift reports the press that moved the date; it is not a property
/// of the screen. So it borrows the footer the way every other message
/// does and hands the Overview's keys back on its own -- a scrub left
/// standing must not cost the keys for as long as it stands. What says
/// the view is still off the baseline is the `*` on the column header,
/// which is drawn from the scrub itself rather than from the message.
#[test]
fn the_scrub_drift_gives_the_footer_back_once_it_has_outlived_its_ttl() {
    let mut bench = app();
    let keys = "Overview";

    shift_press(&mut bench, KeyCode::Right);
    assert_eq!(footer(&bench), "scrubbed +7d");

    bench.app.expire_status(bench.now + STATUS_TTL);

    assert_eq!(footer(&bench), keys);
    assert_eq!(bench.app.scrubbed_days(), 7, "the message faded, not the scrub");
}

/// The derived date is the baseline the marker and the counter compare
/// against, so an unscrubbed Overview reports no drift.
#[test]
fn an_unscrubbed_overview_shows_no_drift_against_the_derived_date() {
    let bench = app();
    assert_eq!(bench.app.scrubbed_days(), 0);
}

#[test]
fn question_mark_opens_the_panel_on_every_screen() {
    for (key, topic) in [
        ('1', Topic::Overview),
        ('2', Topic::Ledger),
        ('3', Topic::Ledger),
        ('4', Topic::Savings),
        ('5', Topic::Planning),
        ('6', Topic::Funds),
        ('7', Topic::RecurringGoals),
        ('8', Topic::RecurringTxns),
    ] {
        let mut bench = app();
        press(&mut bench, KeyCode::Char(key));
        press(&mut bench, KeyCode::Char('?'));
        assert!(
            open_on(&bench, topic),
            "screen {key} opened {:?}",
            bench.app.help().map(|h| h.topic())
        );
    }
}

#[test]
fn esc_closes_the_panel_and_leaves_the_screen_where_it_was() {
    let mut bench = app();
    press(&mut bench, KeyCode::Char('4'));
    press(&mut bench, KeyCode::Char('?'));
    press(&mut bench, KeyCode::Esc);

    assert!(bench.app.help().is_none());
    assert_eq!(bench.app.screen(), Screen::Savings);
}

/// A panel that `q` quits out of, or that `3` navigates away from, loses your
/// place for a keystroke that was almost certainly meant for the screen behind
/// it.
#[test]
fn the_open_panel_swallows_every_key_it_does_not_use() {
    let mut bench = app();
    press(&mut bench, KeyCode::Char('4'));
    press(&mut bench, KeyCode::Char('?'));

    press(&mut bench, KeyCode::Char('q'));
    press(&mut bench, KeyCode::Char('3'));
    press(&mut bench, KeyCode::Char('a'));

    assert!(!bench.app.should_quit());
    assert_eq!(bench.app.screen(), Screen::Savings);
    assert!(bench.app.help().is_some());
    assert!(bench.app.modal().is_none(), "a swallowed key opened a form");
}

/// The box has to show where the next keystroke lands, or `Ctrl`+`A` is
/// a key with nothing on screen to say what it did.
#[test]
fn a_search_box_draws_its_caret_where_the_caret_is() {
    let mut bench = app();
    press(&mut bench, KeyCode::Char('2'));
    press(&mut bench, KeyCode::Char('/'));
    type_str(&mut bench, "rent");
    ctrl_press(&mut bench, 'a');

    assert!(footer(&bench).starts_with("/rent"), "{}", footer(&bench));
    assert_eq!(footer_caret(&bench), "r");
}

/// A search box is a text field, and a search may legitimately be for a
/// question mark.
#[test]
fn a_search_box_types_a_question_mark_and_opens_the_panel_only_on_f1() {
    let mut bench = app();
    press(&mut bench, KeyCode::Char('2'));
    press(&mut bench, KeyCode::Char('/'));
    type_str(&mut bench, "?");

    assert!(bench.app.help().is_none());
    assert_eq!(bench.app.ledger().list().search(), "?");

    press(&mut bench, KeyCode::F(1));
    assert!(open_on(&bench, Topic::LedgerSearch));
}

/// `?` is a character in a form, so F1 is the way in. Both halves matter: the
/// typed one must reach the field, and F1 must not.
#[test]
fn a_form_types_a_question_mark_and_opens_the_panel_only_on_f1() {
    let mut bench = app();
    press(&mut bench, KeyCode::Char('2'));
    press(&mut bench, KeyCode::Char('a'));
    focus(&mut bench, DESCRIPTION);
    type_str(&mut bench, "why?");

    assert!(bench.app.help().is_none(), "? opened the panel instead of typing");
    assert_eq!(shown(&bench, DESCRIPTION), "why?");

    press(&mut bench, KeyCode::F(1));
    assert!(open_on(&bench, Topic::SuggestForm));
}

/// `Ctrl` means editing the text under the caret, so on a screen -- where
/// there is no caret -- it must reach nothing at all.
///
/// The hazard is a hand reaching for `Ctrl`+`F` a beat after `Esc` closed
/// a form: as a bare `Char` it is the `f` that marks a goal, and the
/// write would be in the database before anything on screen said so.
#[test]
fn a_ctrl_letter_reaches_no_screen_operator() {
    let mut bench = app();
    press(&mut bench, KeyCode::Char('4'));

    ctrl_press(&mut bench, 'f');
    assert_eq!(
        savings_favorites(&bench),
        vec![false, false],
        "Ctrl+F marked a goal"
    );

    for c in ['a', 'e', 'c', 'n', 'i', 'A', 'U'] {
        ctrl_press(&mut bench, c);
        assert!(bench.app.modal().is_none(), "Ctrl+{c} opened a modal");
    }
}

/// The same rule over the keys `dispatch` answers itself, which are the
/// ones live on every screen at once: `Ctrl`+`Q` is a hand short of the
/// quit that discards nothing but is still not what was asked for.
#[test]
fn a_ctrl_letter_reaches_none_of_the_app_wide_keys() {
    let mut bench = app();
    press(&mut bench, KeyCode::Char('4'));

    ctrl_press(&mut bench, 'q');
    assert!(!bench.app.should_quit(), "Ctrl+Q quit the app");

    ctrl_press(&mut bench, '2');
    ctrl_press(&mut bench, '6');
    assert_eq!(bench.app.screen(), Screen::Savings, "a Ctrl+digit switched screens");
}

/// `Alt` is bound nowhere, and an unbound modifier is dropped for the
/// reason a `Ctrl` is -- on a screen as in a buffer. `Alt`+`F` is the
/// word motion a hand that has just learned `Ctrl`+`F` reaches for next.
#[test]
fn an_alt_letter_reaches_no_screen_operator() {
    let mut bench = app();
    press(&mut bench, KeyCode::Char('4'));

    bench.key(KeyEvent::new(KeyCode::Char('f'), Modifiers::alt()));

    assert_eq!(
        savings_favorites(&bench),
        vec![false, false],
        "Alt+F marked a goal"
    );
}

/// The confirm dialogs' second carve-out from "any key but `y` cancels",
/// beside the `?` above: a modified character is not a key the app reads
/// anywhere, so it neither commits the delete nor throws it away. `d` and
/// `y` sit a finger apart, and the row a `Ctrl`+`Y` deleted would have no
/// undo.
#[test]
fn a_ctrl_y_neither_commits_a_confirm_dialog_nor_cancels_it() {
    let mut bench = app();
    press(&mut bench, KeyCode::Char('2'));
    press(&mut bench, KeyCode::Char('d'));

    ctrl_press(&mut bench, 'y');

    assert_eq!(
        descriptions(bench.app.cash()),
        ["Paycheck", "Whole Foods", "Transfer", "Rent"]
    );
    assert!(
        matches!(
            bench.app.modal(),
            Some(Modal::Confirm {
                action: Confirm::DeleteTxn(_),
                ..
            })
        ),
        "the dialog is gone"
    );
}

/// The `Ctrl` editing keys, in the box they are hardest to get right: a
/// form field, where the same arrow that moves this caret steps a date
/// one field away.
#[test]
fn ctrl_a_puts_the_next_keystroke_at_the_start_of_a_form_field() {
    let mut bench = app();
    press(&mut bench, KeyCode::Char('2'));
    press(&mut bench, KeyCode::Char('a'));
    focus(&mut bench, DESCRIPTION);
    type_str(&mut bench, "grocery");
    ctrl_press(&mut bench, 'a');
    type_str(&mut bench, "big ");

    assert_eq!(shown(&bench, DESCRIPTION), "big grocery");
}

#[test]
fn ctrl_w_deletes_the_word_before_the_caret_in_a_form_field() {
    let mut bench = app();
    press(&mut bench, KeyCode::Char('2'));
    press(&mut bench, KeyCode::Char('a'));
    focus(&mut bench, DESCRIPTION);
    type_str(&mut bench, "weekly grocery run");
    ctrl_press(&mut bench, 'w');

    assert_eq!(shown(&bench, DESCRIPTION), "weekly grocery ");
}

/// A `Ctrl` nobody has bound used to arrive as its bare letter, so
/// `Ctrl`+`C` typed a `c` into whatever field had the focus.
#[test]
fn a_ctrl_letter_with_no_binding_does_not_type_its_letter_into_a_form() {
    let mut bench = app();
    press(&mut bench, KeyCode::Char('2'));
    press(&mut bench, KeyCode::Char('a'));
    focus(&mut bench, DESCRIPTION);
    type_str(&mut bench, "rent");
    ctrl_press(&mut bench, 'c');

    assert_eq!(shown(&bench, DESCRIPTION), "rent");
}

/// `←`/`→` act on the field under the caret: a text field moves the
/// caret, where a date field steps a day and a selector cycles.
#[test]
fn an_arrow_moves_the_caret_in_a_text_field() {
    let mut bench = app();
    press(&mut bench, KeyCode::Char('2'));
    press(&mut bench, KeyCode::Char('a'));
    focus(&mut bench, DESCRIPTION);
    type_str(&mut bench, "rent");
    press(&mut bench, KeyCode::Left);
    press(&mut bench, KeyCode::Left);
    type_str(&mut bench, "!");

    assert_eq!(shown(&bench, DESCRIPTION), "re!nt");
}

#[test]
fn ctrl_w_deletes_the_word_before_the_caret_in_a_search_box() {
    let mut bench = app();
    press(&mut bench, KeyCode::Char('2'));
    press(&mut bench, KeyCode::Char('/'));
    type_str(&mut bench, "weekly grocery run");
    ctrl_press(&mut bench, 'w');

    assert_eq!(bench.app.ledger().list().search(), "weekly grocery ");
}

/// A search box has no date and no selector, so the arrows are the
/// caret's there with nothing to share them with.
#[test]
fn an_arrow_moves_the_caret_in_a_search_box() {
    let mut bench = app();
    press(&mut bench, KeyCode::Char('2'));
    press(&mut bench, KeyCode::Char('/'));
    type_str(&mut bench, "rent");
    press(&mut bench, KeyCode::Left);
    type_str(&mut bench, "!");

    assert_eq!(bench.app.ledger().list().search(), "ren!t");
}

/// The worksheet is not a text field: two of its three focuses drop everything
/// but digits, and the third is a date. It has more keys to explain than any
/// other context, so `?` reaches them directly -- from every focus, since the
/// topic does not depend on which one is active.
#[test]
fn the_worksheet_opens_the_panel_on_a_plain_question_mark_from_every_focus() {
    for tabs in 0..3 {
        let mut bench = app();
        press(&mut bench, KeyCode::Char('4'));
        press(&mut bench, KeyCode::Char('A'));
        assert!(
            matches!(bench.app.modal(), Some(Modal::Worksheet(_))),
            "no worksheet opened"
        );
        for _ in 0..tabs {
            press(&mut bench, KeyCode::Tab);
        }

        press(&mut bench, KeyCode::Char('?'));
        assert!(open_on(&bench, Topic::Worksheet), "after {tabs} tabs");
    }
}

/// `/` waits for the next key to decide between a fraction and a filter, so
/// that key is data either way.
#[test]
fn a_worksheet_waiting_on_a_slash_types_the_question_mark_into_a_filter() {
    let mut bench = app();
    press(&mut bench, KeyCode::Char('4'));
    press(&mut bench, KeyCode::Char('A'));
    // `/` is the slash operator only with the line list focused. On Amount
    // it is a typed character that is not a digit, and so dropped; on Date
    // it lands in the date.
    press(&mut bench, KeyCode::Tab);
    press(&mut bench, KeyCode::Tab);
    press(&mut bench, KeyCode::Char('/'));
    press(&mut bench, KeyCode::Char('?'));

    assert!(
        bench.app.help().is_none(),
        "? opened the panel instead of filtering"
    );
    let sheet = worksheet(&bench);
    assert_eq!(sheet.lines().search(), "?");
}

/// The confirm dialogs cancel on any key but `y`. `?` is the one carve-out: a
/// question mark that silently threw away a pending delete would be a worse
/// surprise than an exception in the rule.
#[test]
fn question_mark_on_a_confirm_dialog_opens_help_without_cancelling() {
    let mut bench = app();
    press(&mut bench, KeyCode::Char('2'));
    press(&mut bench, KeyCode::Char('d'));
    assert!(matches!(
        bench.app.modal(),
        Some(Modal::Confirm {
            action: Confirm::DeleteTxn(_),
            ..
        })
    ));

    press(&mut bench, KeyCode::Char('?'));
    assert!(open_on(&bench, Topic::Confirm));

    press(&mut bench, KeyCode::Esc);
    assert!(bench.app.help().is_none());
    assert!(
        matches!(
            bench.app.modal(),
            Some(Modal::Confirm {
                action: Confirm::DeleteTxn(_),
                ..
            })
        ),
        "Esc closed the dialog as well as the panel"
    );
}

/// Opened over a form, the panel describes the form -- what is live -- rather
/// than the screen it is drawn over.
#[test]
fn the_panel_describes_the_modal_not_the_screen_behind_it() {
    let mut bench = app();
    press(&mut bench, KeyCode::Char('4'));
    press(&mut bench, KeyCode::Char('a'));
    press(&mut bench, KeyCode::F(1));

    assert!(open_on(&bench, Topic::Form));
}

/// `q` and `1`-`9` are app-wide chrome: `dispatch` matches them above every
/// screen handler, so they reach the same effect from all nine screens and
/// no table repeats them. Delete either arm and the keys do nothing while
/// nine footers still offer them -- which is what this catches.
#[test]
fn the_app_wide_keys_work_from_every_screen() {
    let screens: [(char, Screen); 9] = [
        ('1', Screen::Overview),
        ('2', Screen::Cash),
        ('3', Screen::Credit),
        ('4', Screen::Savings),
        ('5', Screen::Planning),
        ('6', Screen::Funds),
        ('7', Screen::RecurringGoals),
        ('8', Screen::RecurringTxns),
        ('9', Screen::Accounts),
    ];
    let mut roaming = app();
    for (from, _) in screens {
        for (to, screen) in screens {
            press(&mut roaming, KeyCode::Char(from));
            press(&mut roaming, KeyCode::Char(to));
            assert_eq!(roaming.app.screen(), screen, "{from} then {to}");
        }
    }
    for (from, _) in screens {
        let mut bench = app();
        press(&mut bench, KeyCode::Char(from));
        assert!(!bench.app.should_quit(), "screen {from} quit on its own");
        press(&mut bench, KeyCode::Char('q'));
        assert!(bench.app.should_quit(), "q does not quit from screen {from}");
    }
}

/// The six scroll keys appear in no table, no footer and no panel, because they
/// mean the same thing on every list in the app. That is a promise, and this is
/// what holds it up: the moment a new list forgets its `cursor::scroll_key`
/// call, undocumented keys stop working with nothing on screen to say they ever
/// did.
///
/// The Overview is absent on purpose. It holds no list -- only a fixed stack of
/// bands and subtotals -- so there is no cursor to move.
#[test]
fn the_scroll_keys_work_on_every_list_in_the_app() {
    let screens: [(char, fn(&Bench) -> usize); 7] = [
        ('2', |bench| bench.app.cash().list().selected_index()),
        ('3', |bench| bench.app.credit().list().selected_index()),
        ('4', |bench| bench.app.savings().list().selected_index()),
        ('5', |bench| bench.app.planning().list().selected_index()),
        ('6', |bench| bench.app.funds().list().selected_index()),
        ('7', |bench| bench.app.recurring_goals().list().selected_index()),
        ('8', |bench| bench.app.recurring_txns().selected_index()),
    ];
    for (key, index) in screens {
        let mut bench = app_with_two_rows_on_every_list();
        press(&mut bench, KeyCode::Char(key));
        press(&mut bench, KeyCode::Home);
        let first = index(&bench);
        press(&mut bench, KeyCode::End);
        let last = index(&bench);
        press(&mut bench, KeyCode::Home);
        assert_eq!(index(&bench), first, "Home does not work on screen {key}");
        assert!(
            last > first,
            "End does not work on screen {key}: {first} -> {last}"
        );
        press(&mut bench, KeyCode::Down);
        press(&mut bench, KeyCode::Up);
        assert_eq!(index(&bench), first, "↑/↓ do not work on screen {key}");
    }
}

/// `←`/`→` mean the same thing on every date field the app has: step it a
/// day. On a form they arrive through the shared choice keys, which is
/// what makes the account selector beside them the thing they must not
/// touch.
#[test]
fn the_arrow_keys_step_a_forms_date_field_by_a_day() {
    let mut bench = app();
    press(&mut bench, KeyCode::Char('2'));
    press(&mut bench, KeyCode::Char('a'));
    focus(&mut bench, DATE);

    press(&mut bench, KeyCode::Right);
    assert_eq!(
        shown(&bench, DATE),
        "2026-08-16"
    );
    press(&mut bench, KeyCode::Left);
    press(&mut bench, KeyCode::Left);
    assert_eq!(
        shown(&bench, DATE),
        "2026-08-14"
    );
    assert_eq!(
        shown_account(&bench),
        "CHK — Everyday",
        "the account selector sits on its own field"
    );
}

/// The worksheet answers its own keys rather than going through
/// `form_key`, so its date needs the arrows wiring separately -- and the
/// two focuses that take digits must stay untouched by them.
#[test]
fn the_arrow_keys_step_the_worksheet_date_by_a_day() {
    let mut bench = app();
    press(&mut bench, KeyCode::Char('4'));
    press(&mut bench, KeyCode::Char('A'));
    press(&mut bench, KeyCode::Tab);

    press(&mut bench, KeyCode::Right);
    let sheet = worksheet(&bench);
    assert_eq!(sheet.focus(), Focus::Date);
    assert_eq!(sheet.date().value(), "2026-08-16");

    press(&mut bench, KeyCode::Left);
    press(&mut bench, KeyCode::Left);
    let sheet = worksheet(&bench);
    assert_eq!(sheet.date().value(), "2026-08-14");
}

/// `t`'s confirmation is one date field, and it is the date every payday
/// transfer is stamped with.
#[test]
fn the_arrow_keys_step_the_transfer_confirmations_date_by_a_day() {
    let mut bench = planning_app();
    press(&mut bench, KeyCode::Char('5'));
    press(&mut bench, KeyCode::Char('t'));

    press(&mut bench, KeyCode::Right);
    let confirm = plan_transfers(&bench);
    let stepped = confirm.date().parse().unwrap();

    press(&mut bench, KeyCode::Left);
    press(&mut bench, KeyCode::Left);
    let confirm = plan_transfers(&bench);
    assert_eq!(
        confirm.date().parse().unwrap(),
        stepped.add_days(-2).unwrap()
    );
}

/// Shift with an arrow is the same nudge with a bigger step wherever
/// there is a date, not a scrub-only trick. On a form it arrives through
/// the shared `form_key`, so this pins the one handler that answers every
/// field-driven modal in the app.
#[test]
fn shift_and_an_arrow_step_a_forms_date_a_week() {
    let mut bench = app();
    press(&mut bench, KeyCode::Char('2'));
    press(&mut bench, KeyCode::Char('a'));
    focus(&mut bench, DATE);

    shift_press(&mut bench, KeyCode::Right);
    assert_eq!(
        shown(&bench, DATE),
        "2026-08-22"
    );

    shift_press(&mut bench, KeyCode::Left);
    shift_press(&mut bench, KeyCode::Left);
    assert_eq!(
        shown(&bench, DATE),
        "2026-08-08"
    );
}

/// A selector has no week to move, so Shift moves it one choice rather
/// than nothing: a modified arrow the terminal delivers and the app drops
/// is a dead key with nothing on screen to say why.
#[test]
fn shift_and_an_arrow_move_a_selector_one_choice() {
    let mut bench = app();
    press(&mut bench, KeyCode::Char('2'));
    press(&mut bench, KeyCode::Char('a'));
    focus(&mut bench, ACCOUNT);

    let first = shown_account(&bench);
    shift_press(&mut bench, KeyCode::Right);
    let second = shown_account(&bench);
    shift_press(&mut bench, KeyCode::Left);

    assert_ne!(first, second);
    assert_eq!(shown_account(&bench), first);
}

/// The worksheet answers its own keys rather than going through
/// `form_key`, so its date takes the modifier separately.
#[test]
fn shift_and_an_arrow_step_the_worksheet_date_a_week() {
    let mut bench = app();
    press(&mut bench, KeyCode::Char('4'));
    press(&mut bench, KeyCode::Char('A'));
    press(&mut bench, KeyCode::Tab);

    shift_press(&mut bench, KeyCode::Right);
    let sheet = worksheet(&bench);
    assert_eq!(sheet.date().value(), "2026-08-22");

    shift_press(&mut bench, KeyCode::Left);
    shift_press(&mut bench, KeyCode::Left);
    let sheet = worksheet(&bench);
    assert_eq!(sheet.date().value(), "2026-08-08");
}

/// `t`'s confirmation answers its own keys too, and its date is the one
/// every payday transfer is stamped with.
#[test]
fn shift_and_an_arrow_step_the_transfer_confirmations_date_a_week() {
    let mut bench = planning_app();
    press(&mut bench, KeyCode::Char('5'));
    press(&mut bench, KeyCode::Char('t'));

    let confirm = plan_transfers(&bench);
    let opened = confirm.date().parse().unwrap();

    shift_press(&mut bench, KeyCode::Right);
    let confirm = plan_transfers(&bench);
    assert_eq!(
        confirm.date().parse().unwrap(),
        opened.add_days(7).unwrap()
    );
}


/// One container holding three undated goals and one dated, for the manual
/// order `K` and `J` move things around in.
fn app_with_undated_goals() -> Bench {
    let mut store = Store::new();
    store.account("CHK", "Everyday", Kind::Cash);
    let savings = store.account("SAV", "Rainy Day", Kind::Cash);
    for (name, date) in [
        ("Couch", None),
        ("Bike", None),
        ("Camera", None),
        ("Vacation 2027", Some(day(2027, 1, 1))),
    ] {
        store.goal(savings, name, date);
    }
    let mut bench = Bench::new(store);
    press(&mut bench, KeyCode::Char('4'));
    bench
}

/// The whole point of the manual order: the owner arranges the goals no
/// deadline arranges for them.
#[test]
fn k_moves_the_selected_undated_goal_up() {
    let mut bench = app_with_undated_goals();
    press(&mut bench, KeyCode::Down);
    press(&mut bench, KeyCode::Down);
    assert_eq!(bench.app.savings().selected().unwrap().name, "Camera");

    press(&mut bench, KeyCode::Char('K'));

    assert_eq!(
        savings_names(&bench),
        vec!["Couch", "Camera", "Bike", "Vacation 2027"]
    );
}

/// The rows move under the cursor, so the cursor has to be put back on
/// the goal by id -- an index kept across the move would leave the
/// selection on whichever goal took the vacated place, and a second press
/// would move that one instead.
#[test]
fn the_cursor_follows_the_goal_it_moved() {
    let mut bench = app_with_undated_goals();
    press(&mut bench, KeyCode::Down);
    press(&mut bench, KeyCode::Down);

    press(&mut bench, KeyCode::Char('K'));
    assert_eq!(bench.app.savings().selected().unwrap().name, "Camera");
    press(&mut bench, KeyCode::Char('K'));

    assert_eq!(
        savings_names(&bench),
        vec!["Camera", "Couch", "Bike", "Vacation 2027"],
        "already first, so the second press had nowhere to go"
    );
    assert_eq!(bench.app.savings().selected().unwrap().name, "Camera");
}

#[test]
fn j_moves_the_selected_undated_goal_down() {
    let mut bench = app_with_undated_goals();
    assert_eq!(bench.app.savings().selected().unwrap().name, "Couch");

    press(&mut bench, KeyCode::Char('J'));

    assert_eq!(
        savings_names(&bench),
        vec!["Bike", "Couch", "Camera", "Vacation 2027"]
    );
    assert_eq!(bench.app.savings().selected().unwrap().name, "Couch");
}

#[test]
fn moving_the_last_undated_goal_down_changes_nothing() {
    let mut bench = app_with_undated_goals();
    press(&mut bench, KeyCode::Down);
    press(&mut bench, KeyCode::Down);

    press(&mut bench, KeyCode::Char('J'));

    assert_eq!(
        savings_names(&bench),
        vec!["Couch", "Bike", "Camera", "Vacation 2027"],
        "the dated block below is not somewhere an undated goal can move into"
    );
}

/// A dated goal's place comes from its date, so the key says so rather
/// than doing nothing and leaving the owner to wonder which it was.
#[test]
fn moving_a_dated_goal_is_refused_with_a_message() {
    let mut bench = app_with_undated_goals();
    press(&mut bench, KeyCode::End);
    assert_eq!(bench.app.savings().selected().unwrap().name, "Vacation 2027");

    press(&mut bench, KeyCode::Char('K'));

    assert_eq!(
        savings_names(&bench),
        vec!["Couch", "Bike", "Camera", "Vacation 2027"]
    );
    assert!(
        bench.app.status().contains("goal date"),
        "said nothing about why: {}",
        bench.app.status()
    );
}

/// A kept search hides part of the block being reordered, so a move
/// would be one place in a list the owner cannot see. Refused rather
/// than guessed at.
#[test]
fn moving_while_a_kept_search_narrows_the_list_is_refused() {
    let mut bench = app_with_undated_goals();
    press(&mut bench, KeyCode::Char('/'));
    type_str(&mut bench, "e");
    press(&mut bench, KeyCode::Enter);
    assert_eq!(savings_names(&bench), vec!["Bike", "Camera"]);
    press(&mut bench, KeyCode::Down);

    press(&mut bench, KeyCode::Char('K'));

    assert_eq!(savings_names(&bench), vec!["Bike", "Camera"]);
    assert!(
        bench.app.status().contains("search"),
        "said nothing about the search: {}",
        bench.app.status()
    );
}

/// `f` is a toggle over the selected row, written straight through: there
/// is nothing to confirm and nothing to type, so a modal would be a
/// keystroke asking whether the owner meant the keystroke.
#[test]
fn f_marks_the_selected_goal_and_pressing_it_again_takes_the_mark_back() {
    let mut bench = app();
    press(&mut bench, KeyCode::Char('4'));
    assert_eq!(savings_favorites(&bench), vec![false, false]);

    press(&mut bench, KeyCode::Char('f'));
    assert_eq!(savings_favorites(&bench), vec![true, false]);

    press(&mut bench, KeyCode::Char('f'));
    assert_eq!(savings_favorites(&bench), vec![false, false]);
}

/// The write has to reach the database, not just the row: a mark that
/// lived on the view would be gone at the next reload and the owner would
/// not find out until the next launch.
#[test]
fn a_mark_survives_a_reload() {
    let mut bench = app();
    press(&mut bench, KeyCode::Char('4'));
    press(&mut bench, KeyCode::Char('f'));

    bench.reload();

    assert_eq!(savings_favorites(&bench), vec![true, false]);
}

/// The mark is a highlight, so it must not move the cursor off the row it
/// was pressed on -- pressing `f` twice has to be the same row twice.
#[test]
fn marking_a_goal_leaves_the_cursor_where_it_was() {
    let mut bench = app();
    press(&mut bench, KeyCode::Char('4'));
    press(&mut bench, KeyCode::Down);
    let before = bench.app.savings().selected().unwrap().goal;

    press(&mut bench, KeyCode::Char('f'));

    assert_eq!(bench.app.savings().selected().unwrap().goal, before);
    assert_eq!(savings_favorites(&bench), vec![false, true]);
}

/// Every other row key on this screen says so rather than doing nothing,
/// and an empty list is the state a fresh database opens in.
#[test]
fn f_with_nothing_selected_says_so() {
    let mut bench = Bench::new(Store::new());
    press(&mut bench, KeyCode::Char('4'));

    press(&mut bench, KeyCode::Char('f'));

    assert!(!bench.app.status().is_empty(), "{:?}", bench.app.status());
}

/// The Savings container filter cycles both ways too, so `BackTab` backs
/// out of a container `Tab` stepped into.
#[test]
fn back_tab_steps_the_savings_container_filter_the_other_way() {
    let mut bench = app();
    press(&mut bench, KeyCode::Char('4'));
    press(&mut bench, KeyCode::Tab);
    let container = bench.app.savings().selected_container();
    assert!(container.is_some());

    press(&mut bench, KeyCode::BackTab);
    assert_eq!(bench.app.savings().selected_container(), None);

    press(&mut bench, KeyCode::BackTab);
    assert_eq!(bench.app.savings().selected_container(), container);
}

#[test]
fn four_opens_the_savings_screen_with_every_goal_on_it() {
    let mut bench = app();
    press(&mut bench, KeyCode::Char('4'));

    assert_eq!(bench.app.screen(), Screen::Savings);
    let names = savings_names(&bench);
    // Undated first: Couch has no date, Vacation 2027 does.
    assert_eq!(names, ["Couch", "Vacation 2027"]);
}

/// The reconciliation line is the Savings screen's alone.
#[test]
fn the_savings_screen_carries_each_containers_unallocated_remainder() {
    let mut bench = app();
    press(&mut bench, KeyCode::Char('4'));

    let excess = bench.app.savings().excess();
    assert_eq!(excess.len(), 1, "only Rainy Day holds goals");
    // Rainy Day holds one 200.00 transfer against 10,250.00 allocated.
    assert_eq!(excess[0].1, Cents(20_000 - 1_025_000));
}

#[test]
fn q_while_searching_the_savings_screen_types_into_the_box() {
    let mut bench = app();
    press(&mut bench, KeyCode::Char('4'));
    press(&mut bench, KeyCode::Char('/'));
    type_str(&mut bench, "q");

    assert!(!bench.app.should_quit());
    assert_eq!(bench.app.savings().list().search(), "q");
    assert!(bench.app.savings().list().drawn().is_empty());
}

/// The written allocation must be on screen without another keystroke,
/// and the container's unallocated remainder must move with it.
#[test]
fn a_on_the_savings_screen_writes_an_allocation_against_the_selected_goal() {
    let mut bench = app();
    press(&mut bench, KeyCode::Char('4'));
    // Down once: the undated Couch heads the list, and this is the goal
    // whose balance the figures below are about.
    press(&mut bench, KeyCode::Down);
    assert_eq!(bench.app.savings().selected().unwrap().name, "Vacation 2027");
    let before = excess(&bench);

    press(&mut bench, KeyCode::Char('a'));
    type_str(&mut bench, "454");
    press(&mut bench, KeyCode::Enter);

    assert!(bench.app.modal().is_none());
    assert_eq!(bench.app.savings().list().drawn()[1].current, Cents(1_045_400));
    assert_eq!(excess(&bench), before - 45_400);
}

/// `/N` on the amount is a fraction of the container's unallocated
/// remainder -- what the Savings footer reports, and the same arithmetic
/// the worksheet's `/N` does.
#[test]
fn a_share_typed_on_the_savings_form_books_a_fraction_of_the_remainder() {
    let mut bench = app();
    press(&mut bench, KeyCode::Char('4'));
    let savings = bench.app.savings().excess()[0].0;
    // The fixture's goals hold more than Rainy Day does, so top it up to a
    // remainder with cents in it: the division has to floor them away.
    bench.store.write(savings, day(2026, 8, 15), 1_255_001, "Interest");
    bench.reload();
    assert_eq!(excess(&bench), 250_001);
    let before = savings_current(&bench, 0);

    press(&mut bench, KeyCode::Char('a'));
    type_str(&mut bench, "/2");
    press(&mut bench, KeyCode::Enter);

    assert!(bench.app.modal().is_none());
    assert_eq!(savings_current(&bench, 0), Cents(before.0 + 125_000));
    assert_eq!(excess(&bench), 125_001);
}

/// A bad divisor reports itself where every other unparseable field does,
/// and the form stays open on what was typed.
#[test]
fn a_share_divided_by_zero_reports_itself_and_keeps_the_form() {
    let mut bench = app();
    press(&mut bench, KeyCode::Char('4'));
    press(&mut bench, KeyCode::Char('a'));
    type_str(&mut bench, "/0");
    press(&mut bench, KeyCode::Enter);

    assert!(bench.app.modal().is_some(), "the form must stay open");
    assert!(bench.app.status().contains("divide by 0"), "{}", bench.app.status());
}

#[test]
fn a_on_the_savings_screen_with_nothing_selected_says_so() {
    let mut bench = app();
    press(&mut bench, KeyCode::Char('4'));
    press(&mut bench, KeyCode::Char('/'));
    type_str(&mut bench, "zzz");
    press(&mut bench, KeyCode::Enter);
    press(&mut bench, KeyCode::Char('a'));

    assert!(bench.app.modal().is_none());
    assert_eq!(bench.app.status(), "nothing selected");
}

/// Abandoning returns the value to unallocated, so the goal leaves the
/// list and the container's remainder rises by exactly its balance.
#[test]
fn c_then_enter_abandons_the_selected_goal() {
    let mut bench = app();
    press(&mut bench, KeyCode::Char('4'));
    press(&mut bench, KeyCode::Down);
    let before = excess(&bench);

    press(&mut bench, KeyCode::Char('c'));
    press(&mut bench, KeyCode::Enter);

    assert!(bench.app.modal().is_none());
    let names = savings_names(&bench);
    assert_eq!(names, ["Couch"]);
    assert_eq!(excess(&bench), before + 1_000_000);
}

/// A close-out into another goal moves value inside one container, so the
/// reconciliation must not move.
#[test]
fn c_into_another_goal_moves_the_balance_and_leaves_the_remainder_alone() {
    let mut bench = app();
    press(&mut bench, KeyCode::Char('4'));
    press(&mut bench, KeyCode::Down);
    let before = excess(&bench);

    // The form opens focused on `To`, so the sibling is one `→` away.
    press(&mut bench, KeyCode::Char('c'));
    press(&mut bench, KeyCode::Right);
    press(&mut bench, KeyCode::Enter);

    let rows = bench.app.savings().list().drawn();
    assert_eq!(rows.len(), 1);
    assert_eq!(rows[0].name, "Couch");
    assert_eq!(rows[0].current, Cents(1_025_000));
    assert_eq!(excess(&bench), before);
}

/// A transfer moves part of one goal into another inside one container,
/// so both goals survive it and the reconciliation must not move. The
/// form opens on the amount with the container's one other goal already
/// selected, which is what keeps it to `t`, a figure and `Enter`.
#[test]
fn t_moves_part_of_the_selected_goals_value_into_another_goal() {
    let mut bench = app();
    press(&mut bench, KeyCode::Char('4'));
    press(&mut bench, KeyCode::Down);
    let before = excess(&bench);

    press(&mut bench, KeyCode::Char('t'));
    type_str(&mut bench, "250");
    press(&mut bench, KeyCode::Enter);

    assert!(bench.app.modal().is_none(), "{}", bench.app.status());
    let rows = bench.app.savings().list().drawn();
    assert_eq!(rows[0].name, "Couch");
    assert_eq!(rows[0].current, Cents(50_000));
    assert_eq!(rows[1].name, "Vacation 2027");
    assert_eq!(rows[1].current, Cents(975_000));
    assert_eq!(excess(&bench), before);
}

/// The pair is one batch, so a fumbled amount is one keystroke back
/// rather than two hand-corrections in two histories. A close-out is
/// deliberately no batch; a transfer closes nothing, so nothing stands in
/// the way of undoing it whole.
#[test]
fn a_goal_transfer_is_one_batch_so_capital_u_reverses_it() {
    let mut bench = app();
    press(&mut bench, KeyCode::Char('4'));
    press(&mut bench, KeyCode::Down);
    press(&mut bench, KeyCode::Char('t'));
    type_str(&mut bench, "250");
    press(&mut bench, KeyCode::Enter);

    press(&mut bench, KeyCode::Char('U'));
    press(&mut bench, KeyCode::Char('y'));

    assert!(bench.app.modal().is_none(), "{}", bench.app.status());
    assert_eq!(bench.app.savings().list().drawn()[0].current, Cents(25_000));
    assert_eq!(bench.app.savings().list().drawn()[1].current, Cents(1_000_000));
}

/// There is nowhere for the value to go, so the form does not open over a
/// selector with nothing in it. Returning value to unallocated is `a`
/// with a negative amount, and ending the goal is `c`.
#[test]
fn t_refuses_a_container_whose_only_open_goal_is_the_selected_one() {
    let mut bench = app();
    press(&mut bench, KeyCode::Char('4'));
    press(&mut bench, KeyCode::Char('c'));
    press(&mut bench, KeyCode::Enter);
    assert_eq!(
        bench.app.savings().list().drawn().len(),
        1,
        "one goal left in the container"
    );

    press(&mut bench, KeyCode::Char('t'));

    assert!(bench.app.modal().is_none());
    assert!(bench.app.status().contains("no other open goal"), "{}", bench.app.status());
}

/// The keys reach the Savings screen. `app()` holds one dated goal
/// (January 2027) and one undated one, so the month filter is also what
/// hides the undated goal.
#[test]
fn the_bracket_keys_and_esc_filter_savings_by_month() {
    let mut bench = app();
    press(&mut bench, KeyCode::Char('4'));
    assert_eq!(bench.app.savings().selected_month(), None);
    assert_eq!(bench.app.savings().list().drawn().len(), 2);

    press(&mut bench, KeyCode::Char(']'));
    assert_eq!(
        savings_names(&bench),
        ["Vacation 2027"],
        "the undated Couch belongs to no month"
    );

    press(&mut bench, KeyCode::Esc);
    assert_eq!(bench.app.savings().selected_month(), None);
    assert_eq!(bench.app.savings().list().drawn().len(), 2);
}

/// The screen narrows two ways, and `Esc` is the way out of both: an
/// owner who has tabbed to a container and stepped to a month should not
/// have to remember which of the two is hiding the goal they are looking
/// for.
#[test]
fn esc_on_savings_clears_the_container_filter_as_well_as_the_month() {
    let mut bench = app();
    press(&mut bench, KeyCode::Char('4'));

    press(&mut bench, KeyCode::Tab);
    press(&mut bench, KeyCode::Char(']'));
    assert!(bench.app.savings().selected_container().is_some());
    assert!(bench.app.savings().selected_month().is_some());

    press(&mut bench, KeyCode::Esc);
    assert_eq!(bench.app.savings().selected_container(), None);
    assert_eq!(bench.app.savings().selected_month(), None);
    assert_eq!(bench.app.savings().list().drawn().len(), 2);
}

/// `Esc` inside the search box still clears the search, which is the
/// handler the month filter must not have taken over.
#[test]
fn esc_in_the_savings_search_box_clears_the_search_not_the_month() {
    let mut bench = app();
    press(&mut bench, KeyCode::Char('4'));
    press(&mut bench, KeyCode::Char(']'));
    press(&mut bench, KeyCode::Char('/'));
    type_str(&mut bench, "vac");
    press(&mut bench, KeyCode::Esc);

    assert_eq!(bench.app.savings().list().search(), "");
    assert!(bench.app.savings().selected_month().is_some());
}

/// `Enter` leaves the box and keeps the filter, so `Esc` outside the box
/// is what clears it -- and the needle goes before the container and the
/// month, which `clear_filters` then takes together.
#[test]
fn esc_outside_the_savings_box_clears_a_kept_search_before_the_other_filters() {
    let mut bench = app();
    press(&mut bench, KeyCode::Char('4'));
    press(&mut bench, KeyCode::Tab);
    press(&mut bench, KeyCode::Char(']'));
    press(&mut bench, KeyCode::Char('/'));
    type_str(&mut bench, "vac");
    press(&mut bench, KeyCode::Enter);
    assert!(!bench.app.savings().list().is_searching(), "Enter left the box");
    assert_eq!(bench.app.savings().list().search(), "vac");

    press(&mut bench, KeyCode::Esc);
    assert_eq!(bench.app.savings().list().search(), "");
    assert!(
        bench.app.savings().selected_container().is_some(),
        "the container is the next thing out, not this one"
    );
    assert!(
        bench.app.savings().selected_month().is_some(),
        "and so is the month"
    );

    press(&mut bench, KeyCode::Esc);
    assert_eq!(bench.app.savings().selected_container(), None);
    assert_eq!(bench.app.savings().selected_month(), None);
    assert_eq!(bench.app.savings().list().drawn().len(), 2);
}

/// The same guard `A` and `i` have: with no container there is nowhere for
/// a goal to go, and the form must not open over a container it invented.
#[test]
fn n_on_savings_with_no_container_says_so() {
    let mut store = Store::new();
    store.account("CHK", "Everyday", Kind::Cash);
    let mut bench = Bench::new(store);
    press(&mut bench, KeyCode::Char('4'));
    press(&mut bench, KeyCode::Char('n'));

    assert!(bench.app.modal().is_none());
    assert_eq!(bench.app.status(), "no container holds goals yet");
}

/// The operator keys are line-editing keys. With the date focused they
/// have to type instead, or `s` would spread while you are fixing a date.
#[test]
fn the_operator_keys_type_into_the_date_field_rather_than_acting_on_lines() {
    let mut bench = app();
    press(&mut bench, KeyCode::Char('4'));
    press(&mut bench, KeyCode::Char('A'));
    press(&mut bench, KeyCode::Tab);
    let before = (figures(&bench), bench.ops.len());

    press(&mut bench, KeyCode::Char('s'));

    let after = (figures(&bench), bench.ops.len());
    assert_eq!(before, after, "s must not spread while the date is focused");
    assert!(worksheet(&bench).date().value().ends_with('s'));
}

/// The worksheet's date is a text field with a key handler of its own,
/// and the editing keys have to reach it there too.
#[test]
fn the_worksheets_date_answers_the_editing_keys() {
    let mut bench = app();
    press(&mut bench, KeyCode::Char('4'));
    press(&mut bench, KeyCode::Char('A'));
    press(&mut bench, KeyCode::Tab);
    ctrl_press(&mut bench, 'u');
    type_str(&mut bench, "2026-09-01");

    assert_eq!(worksheet(&bench).date().value(), "2026-09-01");
}

/// `Ctrl` means editing text everywhere in the app, so it must not reach
/// an operator: a hand reaching for "delete the last word" would
/// otherwise spread the whole pot.
#[test]
fn a_ctrl_key_does_not_reach_the_worksheets_operators() {
    let mut bench = app();
    press(&mut bench, KeyCode::Char('4'));
    press(&mut bench, KeyCode::Char('A'));
    let before = (figures(&bench), bench.ops.len());

    ctrl_press(&mut bench, 'z');

    let after = (figures(&bench), bench.ops.len());
    assert_eq!(before, after, "Ctrl+Z zeroed the untargeted lines");
}

/// On a modal the outer thing is the modal itself, so a kept filter has to
/// be cleared before `Esc` may throw the worksheet away.
#[test]
fn esc_with_a_kept_filter_clears_it_rather_than_cancelling_the_worksheet() {
    let mut bench = app();
    press(&mut bench, KeyCode::Char('4'));
    press(&mut bench, KeyCode::Char('A'));
    press(&mut bench, KeyCode::Char('/'));
    type_str(&mut bench, "couch");
    press(&mut bench, KeyCode::Enter);
    assert_eq!(worksheet(&bench).lines().len(), 1);

    press(&mut bench, KeyCode::Esc);
    assert_eq!(worksheet(&bench).lines().search(), "");
    assert_eq!(worksheet(&bench).lines().len(), 2, "the sheet is still open");

    press(&mut bench, KeyCode::Esc);
    assert!(bench.app.modal().is_none());
}

/// The worksheet is a modal, so it is reached through the Savings screen rather
/// than a screen key -- but it implements the same `Scroll` and must answer the
/// same keys.
#[test]
fn the_scroll_keys_work_inside_the_worksheet() {
    let mut bench = app();
    press(&mut bench, KeyCode::Char('4'));
    press(&mut bench, KeyCode::Char('A'));
    // The line list is the third focus; the amount and the date come first.
    press(&mut bench, KeyCode::Tab);
    press(&mut bench, KeyCode::Tab);

    press(&mut bench, KeyCode::End);
    let sheet = worksheet(&bench);
    let last = sheet.selected_index();

    press(&mut bench, KeyCode::Home);
    let sheet = worksheet(&bench);
    assert_eq!(sheet.selected_index(), 0);
    assert!(last > 0, "End does not reach the last line");
}


fn editing(bench: &Bench) -> &Form {
    match history(bench).mode() {
        Mode::Editing(form) => form,
        _ => panic!("the history is not editing: {:?}", bench.app.status()),
    }
}

fn on_vacation() -> Bench {
    let mut bench = app();
    press(&mut bench, KeyCode::Char('4'));
    // Down once: the undated Couch heads the list.
    press(&mut bench, KeyCode::Down);
    assert_eq!(bench.app.savings().selected().unwrap().name, "Vacation 2027");
    bench
}

/// Every other row key on this screen says so rather than doing nothing,
/// and an empty list is the state a fresh database opens in.
#[test]
fn enter_with_nothing_selected_says_so() {
    let mut bench = Bench::new(Store::new());
    press(&mut bench, KeyCode::Char('4'));

    press(&mut bench, KeyCode::Enter);

    assert!(bench.app.modal().is_none());
    assert_eq!(bench.app.status(), "nothing selected");
}

/// The form opens on the row rather than on a blank: all three fields
/// carry what the row holds, the note included when there is one.
#[test]
fn the_editor_opens_prefilled_from_the_row_under_the_cursor() {
    let mut bench = on_vacation();
    let goal = bench.app.savings().selected().unwrap().goal;
    bench.store.allocate(goal, day(2026, 8, 20), 50_000, Some("top up"));
    bench.reload();

    press(&mut bench, KeyCode::Enter);
    press(&mut bench, KeyCode::Char('e'));

    let form = editing(&bench);
    assert_eq!(typed(form, 1), "500.00");
    assert_eq!(typed(form, 2), "top up");
    assert!(
        typed(form, 0)
            .contains("2026-08-20"),
        "{}",
        typed(form, 0)
    );
}

/// The whole point of the modal: a figure entered wrongly is rewritten in
/// place rather than offset by a second row, and everything derived from
/// the goal's balance follows it.
#[test]
fn a_committed_edit_moves_the_goals_balance_and_the_containers_remainder() {
    let mut bench = on_vacation();
    let before = excess(&bench);
    press(&mut bench, KeyCode::Enter);
    press(&mut bench, KeyCode::Char('e'));

    // The editor opens on the amount: clear the prefill and retype it.
    ctrl_press(&mut bench, 'u');
    type_str(&mut bench, "9000");
    press(&mut bench, KeyCode::Enter);

    // Back to the list, one row still, and the figure rewritten.
    assert!(matches!(history(&bench).mode(), Mode::List));
    assert_eq!(history(&bench).all().len(), 1);
    assert_eq!(history_total(&bench), Cents(900_000));
    assert_eq!(bench.app.savings().list().drawn()[1].current, Cents(900_000));
    assert_eq!(excess(&bench), before + 100_000);
}

/// A row the import or an interest posting wrote carries cents, and it is
/// exactly the kind of row this modal exists to correct -- so the editor
/// has to be able to save what it just prefilled.
#[test]
fn an_amount_with_cents_in_it_saves_where_a_new_allocation_would_be_refused() {
    let mut bench = on_vacation();
    press(&mut bench, KeyCode::Enter);
    press(&mut bench, KeyCode::Char('e'));
    ctrl_press(&mut bench, 'u');
    type_str(&mut bench, "9000.55");

    press(&mut bench, KeyCode::Enter);

    assert!(matches!(history(&bench).mode(), Mode::List), "{}", bench.app.status());
    assert_eq!(history_total(&bench), Cents(900_055));
}

/// The date is editable too, and the row lands where the new date puts it.
#[test]
fn a_committed_edit_can_move_the_row_to_another_date() {
    let mut bench = on_vacation();
    press(&mut bench, KeyCode::Enter);
    press(&mut bench, KeyCode::Char('e'));
    // Back one field: the editor opens on the amount.
    press(&mut bench, KeyCode::BackTab);
    ctrl_press(&mut bench, 'u');
    type_str(&mut bench, "2026-09-09");
    press(&mut bench, KeyCode::Enter);

    assert_eq!(history(&bench).all()[0].date, day(2026, 9, 9));
}

/// A field that will not parse reports itself on the status line and
/// leaves the editor open on what was typed, the way every other form
/// does.
#[test]
fn an_unparseable_amount_leaves_the_editor_open() {
    let mut bench = on_vacation();
    press(&mut bench, KeyCode::Enter);
    press(&mut bench, KeyCode::Char('e'));
    ctrl_press(&mut bench, 'u');
    type_str(&mut bench, "lots");

    press(&mut bench, KeyCode::Enter);

    assert!(matches!(history(&bench).mode(), Mode::Editing(_)));
    assert!(!bench.app.status().is_empty());
    assert_eq!(history_total(&bench), Cents(1_000_000));
}

#[test]
fn d_then_any_other_key_writes_nothing() {
    let mut bench = on_vacation();
    press(&mut bench, KeyCode::Enter);

    press(&mut bench, KeyCode::Char('d'));
    press(&mut bench, KeyCode::Char('n'));

    assert!(matches!(history(&bench).mode(), Mode::List));
    assert_eq!(history(&bench).all().len(), 1);
    assert_eq!(bench.app.status(), "delete cancelled");
}

/// `Esc` peels one layer at a time: from the confirmation back to the
/// list, and only then out of the modal.
#[test]
fn esc_out_of_the_confirmation_returns_to_the_list_rather_than_closing() {
    let mut bench = on_vacation();
    press(&mut bench, KeyCode::Enter);
    press(&mut bench, KeyCode::Char('d'));

    press(&mut bench, KeyCode::Esc);
    assert!(matches!(history(&bench).mode(), Mode::List));

    press(&mut bench, KeyCode::Esc);
    assert!(bench.app.modal().is_none());
    assert_eq!(bench.app.screen(), Screen::Savings);
}

/// `Enter` is deliberately unbound in the list: it commits in the editing
/// mode a keystroke away, and one key that opens an editor in one mode
/// and commits it in the next is the reflex there is no getting back.
#[test]
fn enter_in_the_list_does_nothing() {
    let mut bench = on_vacation();
    press(&mut bench, KeyCode::Enter);

    press(&mut bench, KeyCode::Enter);

    assert!(matches!(history(&bench).mode(), Mode::List));
    assert_eq!(history(&bench).all().len(), 1);
}

/// The list takes the shared scroll keys like every other list in the
/// app, and it opens on the most recent row.
#[test]
fn the_list_opens_on_the_most_recent_row_and_scrolls_off_it() {
    let mut bench = on_vacation();
    let goal = bench.app.savings().selected().unwrap().goal;
    bench.store.allocate(goal, day(2026, 8, 20), 50_000, Some("top up"));
    bench.reload();

    press(&mut bench, KeyCode::Enter);
    assert_eq!(history(&bench).selected().unwrap().cents, Cents(50_000));

    press(&mut bench, KeyCode::Up);
    assert_eq!(history(&bench).selected().unwrap().cents, Cents(1_000_000));
}

/// The pot `/N` divides is the container's remainder as it stands now.
/// The row's own amount is not folded back into it, so the figure the
/// editor divides is the one the Savings footer is showing behind it.
#[test]
fn a_share_typed_while_editing_divides_the_remainder_as_it_stands() {
    let mut bench = on_vacation();
    let savings = bench.app.savings().excess()[0].0;
    // Top Rainy Day up to a round 2,500.00 unallocated.
    bench.store.write(savings, day(2026, 8, 15), 1_255_000, "Interest");
    bench.reload();
    assert_eq!(excess(&bench), 250_000);

    press(&mut bench, KeyCode::Enter);
    press(&mut bench, KeyCode::Char('e'));
    ctrl_press(&mut bench, 'u');
    type_str(&mut bench, "/2");
    press(&mut bench, KeyCode::Enter);

    assert_eq!(history_total(&bench), Cents(125_000));
}


fn add_dropbox_entry(bench: &mut Bench) {
    press(bench, KeyCode::Char('7'));
    press(bench, KeyCode::Char('a'));
    type_str(bench, "Dropbox");
    press(bench, KeyCode::Tab);
    for _ in 1..9 {
        press(bench, KeyCode::Right); // January to September
    }
    press(bench, KeyCode::Tab);
    type_str(bench, "128");
    press(bench, KeyCode::Enter);
}

fn entry_names(bench: &Bench) -> Vec<String> {
    bench
        .app
        .recurring_goals()
        .list()
        .drawn()
        .iter()
        .map(|r| r.name.clone())
        .collect()
}

/// Three entries: two in September and one in October, with one of
/// September's already carrying an open goal.
fn app_with_recurring_goals() -> Bench {
    let mut bench = app();
    for (name, month) in [("Dropbox", 9), ("Lego", 9), ("Rolex", 10)] {
        let id = bench.store.entry(name, month, 128, false);
        if name == "Dropbox" {
            let container = bench.app.savings().default_container().unwrap();
            bench.store.goal(container, name, Some(day(2026, 9, 1)));
            bench.store.goals.last_mut().unwrap().entry = Some(id);
        }
    }
    bench.reload();
    bench
}

/// `[`/`]` from All enter at today's month, so a second step reaches
/// September.
fn open_september_picker(bench: &mut Bench) {
    press(bench, KeyCode::Char('7'));
    press(bench, KeyCode::Char(']'));
    press(bench, KeyCode::Char(']'));
    assert_eq!(bench.app.recurring_goals().selected_month(), Some(9));
    press(bench, KeyCode::Char('s'));
}

/// The picker is the second place a taxed goal is written, alongside the
/// goal form's own commit, and it hands the flag across rather than
/// computing anything -- so on a database with no rate on record it has
/// to refuse before `insert_all` ever runs. Without the guard this writes
/// `taxed = 1` with no rate anywhere, which is the row the read side
/// calls corrupt -- every screen then draws it against its base, and
/// every path that would spend the figure refuses.
#[test]
fn s_refuses_a_taxed_entry_on_a_database_with_no_tax_rate_and_writes_no_goal() {
    let mut bench = app();
    bench.store.entry("Rolex", 9, 9_000, true);
    bench.reload();
    press(&mut bench, KeyCode::Char('7'));
    press(&mut bench, KeyCode::Char('s'));
    press(&mut bench, KeyCode::Enter);

    assert!(bench.app.modal().is_some(), "the picker stays open on a refusal");
    assert_eq!(bench.app.status(), NO_TAX_RATE);
    assert!(
        bench.store.goals.iter().all(|g| g.name != "Rolex"),
        "no goal is written"
    );
}

/// "Open?" is a hint, never a block: goal names are not unique, and a
/// second open goal against one entry is a legitimate thing to want. It is
/// the one the preselection will not tick, so the second round takes an
/// explicit `Space` where the first took none.
#[test]
fn a_second_goal_against_an_entry_that_already_has_one_is_allowed() {
    let mut bench = app();
    bench.store.entry("Lego", 12, 340, false);
    bench.reload();
    press(&mut bench, KeyCode::Char('7'));
    press(&mut bench, KeyCode::Char('s'));
    press(&mut bench, KeyCode::Enter);
    press(&mut bench, KeyCode::Char('s'));
    press(&mut bench, KeyCode::Char(' '));
    press(&mut bench, KeyCode::Enter);

    let legos = bench.app.savings()
        .list().drawn()
        .into_iter()
        .filter(|r| r.name == "Lego")
        .count();
    assert_eq!(legos, 2);
}

#[test]
fn d_on_an_empty_rules_screen_says_nothing_is_selected() {
    let mut bench = app();
    press(&mut bench, KeyCode::Char('8'));
    press(&mut bench, KeyCode::Char('d'));
    assert!(bench.app.modal().is_none());
    assert!(bench.app.status().contains("nothing selected"), "{}", bench.app.status());
}

#[test]
fn seven_opens_the_catalog_and_a_adds_an_entry() {
    let mut bench = app();
    press(&mut bench, KeyCode::Char('7'));
    press(&mut bench, KeyCode::Char('a'));
    type_str(&mut bench, "Dropbox");
    press(&mut bench, KeyCode::Tab);
    press(&mut bench, KeyCode::Tab);
    type_str(&mut bench, "128");
    press(&mut bench, KeyCode::Enter);

    assert!(bench.app.modal().is_none(), "{}", bench.app.status());
    let entries = &bench.store.catalog;
    assert_eq!(entries.len(), 1);
    assert_eq!(entries[0].name, "Dropbox");
    assert_eq!(bench.app.recurring_goals().list().drawn()[0].name, "Dropbox");
}

/// The keys reach the screen. `app()`'s today is in August, so the first
/// `]` out of All lands there — where nothing recurs — and the
/// second on September, where the Dropbox entry is.
#[test]
fn the_bracket_keys_and_esc_filter_the_catalog_by_month() {
    let mut bench = app();
    add_dropbox_entry(&mut bench);
    assert_eq!(bench.app.recurring_goals().selected_month(), None);

    press(&mut bench, KeyCode::Char(']'));
    assert_eq!(bench.app.recurring_goals().selected_month(), Some(8));
    assert!(
        bench.app.recurring_goals().list().drawn().is_empty(),
        "August holds no entry"
    );

    press(&mut bench, KeyCode::Char(']'));
    assert_eq!(bench.app.recurring_goals().list().drawn()[0].name, "Dropbox");

    press(&mut bench, KeyCode::Char('['));
    assert_eq!(bench.app.recurring_goals().selected_month(), Some(8));

    press(&mut bench, KeyCode::Esc);
    assert_eq!(bench.app.recurring_goals().selected_month(), None);
    assert_eq!(bench.app.recurring_goals().list().drawn().len(), 1);
}

/// The wiring `e` depends on: the entry the form is editing is the one written.
#[test]
fn committing_an_edited_catalog_entry_updates_it_rather_than_adding_a_second() {
    let mut bench = app();
    add_dropbox_entry(&mut bench);
    let before = bench.store.catalog[0].id;

    press(&mut bench, KeyCode::Char('e'));
    press(&mut bench, KeyCode::Tab); // Month
    press(&mut bench, KeyCode::Tab); // Base
    for _ in 0..6 {
        press(&mut bench, KeyCode::Backspace);
    }
    type_str(&mut bench, "144");
    press(&mut bench, KeyCode::Enter);

    assert!(bench.app.modal().is_none(), "{}", bench.app.status());
    let entries = &bench.store.catalog;
    assert_eq!(entries.len(), 1, "the entry was updated, not duplicated");
    assert_eq!(entries[0].id, before);
    assert_eq!(entries[0].base, Cents::from_dollars(144));
    assert_eq!(
        bench.app.recurring_goals().list().drawn()[0].base,
        Cents::from_dollars(144)
    );
}

#[test]
fn e_on_an_empty_catalog_says_nothing_is_selected() {
    let mut bench = app();
    press(&mut bench, KeyCode::Char('7'));
    press(&mut bench, KeyCode::Char('e'));
    assert!(bench.app.modal().is_none());
    assert!(bench.app.status().contains("nothing selected"), "{}", bench.app.status());
}

#[test]
fn d_on_a_catalog_entry_with_goals_against_it_is_refused_and_says_why() {
    let mut bench = app();
    press(&mut bench, KeyCode::Char('7'));
    press(&mut bench, KeyCode::Char('a'));
    type_str(&mut bench, "Dropbox");
    press(&mut bench, KeyCode::Tab);
    press(&mut bench, KeyCode::Tab);
    type_str(&mut bench, "128");
    press(&mut bench, KeyCode::Enter);
    // Create a goal from it, through the picker `s` opens.
    press(&mut bench, KeyCode::Char('s'));
    press(&mut bench, KeyCode::Enter);

    press(&mut bench, KeyCode::Char('d'));
    press(&mut bench, KeyCode::Char('y'));

    assert_eq!(bench.store.catalog.len(), 1);
    assert!(
        bench.app.status().contains("reference this recurring goal"),
        "{}",
        bench.app.status()
    );
}

/// The eighth `Scroll` implementor, and the one the shared fixtures cannot
/// reach on their own: the picker only opens over recurring goal entries, so
/// two are inserted here to give `End` somewhere to go.
#[test]
fn the_scroll_keys_work_inside_the_recurring_goal_picker() {
    let mut bench = app();
    for name in ["Dropbox", "Rolex"] {
        bench.store.entry(name, 9, 128, false);
    }
    press(&mut bench, KeyCode::Char('7'));
    press(&mut bench, KeyCode::Char('s'));

    press(&mut bench, KeyCode::End);
    assert_eq!(
        picker(&bench).selected_index(),
        1,
        "End must reach the last entry"
    );

    press(&mut bench, KeyCode::Home);
    assert_eq!(picker(&bench).selected_index(), 0);
}

/// The same box the ledgers and Savings open, on the screen that had only
/// a month filter until now.
#[test]
fn slash_on_the_goals_screen_narrows_the_entries_as_they_are_typed() {
    let mut bench = app_with_recurring_goals();
    press(&mut bench, KeyCode::Char('7'));
    press(&mut bench, KeyCode::Char('/'));
    type_str(&mut bench, "ro");

    assert!(bench.app.recurring_goals().list().is_searching());
    assert_eq!(entry_names(&bench), ["Dropbox", "Rolex"]);
}

/// Both filters at once, so the needle cannot be narrowing one list while
/// the month narrows another.
#[test]
fn the_goals_month_filter_narrows_within_a_kept_search() {
    let mut bench = app_with_recurring_goals();
    press(&mut bench, KeyCode::Char('7'));
    press(&mut bench, KeyCode::Char('/'));
    type_str(&mut bench, "ro");
    press(&mut bench, KeyCode::Enter);
    assert!(!bench.app.recurring_goals().list().is_searching(), "Enter left the box");

    press(&mut bench, KeyCode::Char(']'));
    press(&mut bench, KeyCode::Char(']'));
    assert_eq!(bench.app.recurring_goals().selected_month(), Some(9));
    assert_eq!(entry_names(&bench), ["Dropbox"]);
}

/// `Esc` inside the box is the box's, which is the handler the month
/// filter must not have taken over.
#[test]
fn esc_in_the_goals_search_box_clears_the_search_not_the_month() {
    let mut bench = app_with_recurring_goals();
    press(&mut bench, KeyCode::Char('7'));
    press(&mut bench, KeyCode::Char(']'));
    press(&mut bench, KeyCode::Char('/'));
    type_str(&mut bench, "rol");
    press(&mut bench, KeyCode::Esc);

    assert_eq!(bench.app.recurring_goals().list().search(), "");
    assert_eq!(bench.app.recurring_goals().selected_month(), Some(8));
}

/// `Enter` leaves the box and keeps the needle, so `Esc` outside it is
/// what clears one -- and the needle goes before the month, the same
/// order every other `/` screen reads `Esc` in.
#[test]
fn esc_outside_the_goals_box_clears_a_kept_search_before_the_month() {
    let mut bench = app_with_recurring_goals();
    press(&mut bench, KeyCode::Char('7'));
    press(&mut bench, KeyCode::Char(']'));
    press(&mut bench, KeyCode::Char(']'));
    press(&mut bench, KeyCode::Char('/'));
    type_str(&mut bench, "lego");
    press(&mut bench, KeyCode::Enter);

    press(&mut bench, KeyCode::Esc);
    assert_eq!(bench.app.recurring_goals().list().search(), "");
    assert_eq!(
        bench.app.recurring_goals().selected_month(),
        Some(9),
        "the month is the next thing out, not this one"
    );

    press(&mut bench, KeyCode::Esc);
    assert_eq!(bench.app.recurring_goals().selected_month(), None);
    assert_eq!(entry_names(&bench), ["Dropbox", "Lego", "Rolex"]);
}

/// A digit or a `q` typed into the box is part of the needle: `dispatch`
/// hands the key to the box above its own screen and quit arms.
#[test]
fn q_while_searching_the_goals_screen_types_into_the_box() {
    let mut bench = app_with_recurring_goals();
    press(&mut bench, KeyCode::Char('7'));
    press(&mut bench, KeyCode::Char('/'));
    type_str(&mut bench, "q");

    assert!(!bench.app.should_quit());
    assert_eq!(bench.app.recurring_goals().list().search(), "q");
    assert!(bench.app.recurring_goals().list().drawn().is_empty());
}

/// `e`, `d` and `s` act on the selection, so a narrowed list must leave
/// the cursor inside it rather than on the row that was there before.
#[test]
fn a_kept_search_is_what_the_goals_row_keys_act_on() {
    let mut bench = app_with_recurring_goals();
    press(&mut bench, KeyCode::Char('7'));
    press(&mut bench, KeyCode::End);
    assert_eq!(bench.app.recurring_goals().selected().unwrap().name, "Rolex");

    press(&mut bench, KeyCode::Char('/'));
    type_str(&mut bench, "lego");
    press(&mut bench, KeyCode::Enter);
    press(&mut bench, KeyCode::Char('e'));

    match bench.app.modal() {
        Some(Modal::Form { purpose, .. }) => assert_eq!(
            *purpose,
            Purpose::RecurringGoal(Some(bench.app.recurring_goals().selected().unwrap().id))
        ),
        _ => panic!("e opened no form"),
    }
    assert_eq!(entry_names(&bench), ["Lego"]);
}

#[test]
fn s_preselects_the_entries_the_month_filter_is_showing() {
    let mut bench = app_with_recurring_goals();
    open_september_picker(&mut bench);

    assert_eq!(chosen(&bench), ["Lego"], "October's entry came along");
}

/// The annual reseed is what the preselection is for, and an entry that
/// already has an open goal is one it has already been through. Selecting
/// it again is still legal -- `Space` -- just not the default.
#[test]
fn s_does_not_preselect_an_entry_that_already_has_an_open_goal() {
    let mut bench = app_with_recurring_goals();
    open_september_picker(&mut bench);

    assert!(!chosen(&bench).contains(&"Dropbox".to_string()));
}

/// The filter preselects; it does not narrow. September's filter is a
/// starting point the list can still be scrolled out of.
#[test]
fn s_lists_every_entry_even_under_a_month_filter() {
    let mut bench = app_with_recurring_goals();
    open_september_picker(&mut bench);

    let picker = picker(&bench);
    let names: Vec<&str> = picker.entries().iter().map(|e| e.name.as_str()).collect();
    assert_eq!(names.len(), 3, "{names:?}");
}

/// Ticks alone are easy to miss in a list dozens long. The ticked entries are
/// also the ones the list opens on, in the order the table holds them.
#[test]
fn s_sorts_the_entries_it_ticked_to_the_top() {
    let mut bench = app_with_recurring_goals();
    open_september_picker(&mut bench);

    assert_eq!(entries(&bench), ["Lego", "Dropbox", "Rolex"]);
}

/// Under All the split is open-goal alone, so the entries a reseed would
/// create float above the ones it would skip.
#[test]
fn s_sorts_the_unopened_entries_above_the_rest_under_the_all_filter() {
    let mut bench = app_with_recurring_goals();
    press(&mut bench, KeyCode::Char('7'));
    press(&mut bench, KeyCode::Char('s'));

    assert_eq!(entries(&bench), ["Lego", "Rolex", "Dropbox"]);
}

#[test]
fn s_under_the_all_filter_preselects_every_unopened_entry() {
    let mut bench = app_with_recurring_goals();
    press(&mut bench, KeyCode::Char('7'));
    press(&mut bench, KeyCode::Char('s'));

    assert_eq!(chosen(&bench), ["Lego", "Rolex"]);
}

#[test]
fn enter_on_the_preselected_picker_creates_the_goals_it_shows_as_chosen() {
    let mut bench = app_with_recurring_goals();
    open_september_picker(&mut bench);
    press(&mut bench, KeyCode::Enter);

    assert!(bench.app.modal().is_none());
    press(&mut bench, KeyCode::Char('4'));
    assert!(savings_names(&bench).contains(&"Lego".to_string()));
}


fn pointed(bench: &Bench, line: Line) -> Option<GoalId> {
    bench
        .store
        .pointed
        .iter()
        .find(|p| p.0 == line)
        .map(|p| p.1)
}

/// Move the cursor onto a line's destination.
fn cursor_to(bench: &mut Bench, line: Line) {
    press(bench, KeyCode::Home);
    while bench.app.planning().selected().unwrap().editable != Editable::Destination(line) {
        press(bench, KeyCode::Down);
    }
}

/// Move the cursor onto the first bill and say which one it is.
fn select_first_bill(bench: &mut Bench) -> (BillId, String) {
    while bench.app.planning().selected_bill().is_none() {
        press(bench, KeyCode::Down);
    }
    let id = bench.app.planning().selected_bill().unwrap();
    let bill = bench.store.bills.iter().find(|b| b.id == id).unwrap();
    (id, bill.label.clone())
}

/// A plan that does not resolve.
fn ambiguous_app() -> Bench {
    let mut bench = planning_app();
    bench.store.detail = vec![
        "Rainy Day holds Sabbatical".to_string(),
        "Brokerage holds Lego and Dropbox".to_string(),
    ];
    bench.reload();
    bench
}

/// The confirmation's date is a text field like any other, and it has a
/// key handler of its own -- the one place the editing keys could be
/// missing while every form had them.
#[test]
fn the_transfer_confirmation_answers_the_editing_keys() {
    let mut bench = planning_app();
    press(&mut bench, KeyCode::Char('5'));
    press(&mut bench, KeyCode::Char('t'));
    ctrl_press(&mut bench, 'u');
    type_str(&mut bench, "2026-09-01");

    let confirm = plan_transfers(&bench);
    assert_eq!(confirm.date().parse().unwrap(), day(2026, 9, 1));
}

/// Every other row is a constant, which `e` already edits in place.
#[test]
fn capital_e_on_a_row_that_is_not_a_bill_is_refused() {
    let mut bench = planning_app();
    press(&mut bench, KeyCode::Char('5'));
    assert_eq!(bench.app.planning().selected_bill(), None);

    press(&mut bench, KeyCode::Char('E'));

    assert!(bench.app.modal().is_none());
    assert!(bench.app.status().contains("bill"), "{}", bench.app.status());
}

/// `d` on a constant would otherwise have to mean "delete a setting",
/// which is what `p` does for the one setting that can be absent.
#[test]
fn d_on_a_row_that_is_not_a_bill_is_refused() {
    let mut bench = planning_app();
    press(&mut bench, KeyCode::Char('5'));
    press(&mut bench, KeyCode::Char('d'));

    assert!(bench.app.modal().is_none());
    assert!(bench.app.status().contains("bill"), "{}", bench.app.status());
}

/// `P` on a plan nobody pinned says so rather than writing anything.
#[test]
fn capital_p_with_nothing_pinned_says_so() {
    let mut bench = planning_app();
    press(&mut bench, KeyCode::Char('5'));
    press(&mut bench, KeyCode::Char('P'));

    assert_eq!(bench.app.status(), "nothing pinned");
    assert_eq!(bench.store.pinned, None);
}

/// A key that opens an empty panel is worse than one that says why it
/// did nothing.
#[test]
fn enter_on_a_resolved_plan_opens_nothing_and_says_so() {
    let mut bench = planning_app();
    press(&mut bench, KeyCode::Char('5'));

    press(&mut bench, KeyCode::Enter);

    assert!(bench.app.modal().is_none(), "a panel opened over a resolved plan");
    assert!(bench.app.status().contains("nothing to explain"), "{}", bench.app.status());
}

#[test]
fn enter_on_an_unresolved_plan_opens_the_details() {
    let mut bench = ambiguous_app();
    press(&mut bench, KeyCode::Char('5'));

    press(&mut bench, KeyCode::Enter);

    let Some(Modal::Details(title, lines)) = bench.app.modal() else {
        panic!("no details panel opened: {}", bench.app.status());
    };
    assert_eq!(*title, "Transfers unresolved");
    let text = lines.join("\n");
    assert!(text.contains("Rainy Day"), "{text}");
    assert!(text.contains("Brokerage"), "{text}");
    assert!(text.contains("Sabbatical"), "{text}");
}

#[test]
fn esc_closes_the_details() {
    let mut bench = ambiguous_app();
    press(&mut bench, KeyCode::Char('5'));
    press(&mut bench, KeyCode::Enter);
    press(&mut bench, KeyCode::Esc);

    assert!(bench.app.modal().is_none());
}

/// End to end, through the keyboard: closing the goal a line names must
/// not turn the next `e`-`Enter` into a silent clearing.
#[test]
fn e_then_enter_on_a_line_naming_a_closed_goal_changes_nothing() {
    let mut bench = planning_app();
    let closed = pointed(&bench, Line::Bills).unwrap();
    for goal in &mut bench.store.goals {
        goal.closed = goal.closed || goal.id == closed;
    }
    bench.reload();
    press(&mut bench, KeyCode::Char('5'));
    cursor_to(&mut bench, Line::Bills);

    press(&mut bench, KeyCode::Char('e'));
    press(&mut bench, KeyCode::Enter);

    assert_eq!(
        pointed(&bench, Line::Bills),
        Some(closed),
        "a bare Enter cleared a destination nobody questioned"
    );
}

/// The whole feature, end to end: a line whose key an older import never
/// wrote, pointed at the goal it names without leaving the app.
#[test]
fn e_then_enter_points_an_unset_line_at_the_goal_its_name_suggests() {
    let mut bench = planning_app();
    bench.store.pointed.retain(|p| p.0 != Line::MomAndDad);
    bench.reload();
    press(&mut bench, KeyCode::Char('5'));
    cursor_to(&mut bench, Line::MomAndDad);

    press(&mut bench, KeyCode::Char('e'));
    assert!(
        matches!(bench.app.modal(), Some(Modal::Destination(_))),
        "no destination list opened: {}",
        bench.app.status()
    );

    press(&mut bench, KeyCode::Enter);

    assert_eq!(
        pointed(&bench, Line::MomAndDad),
        bench
            .store
            .goals
            .iter()
            .find(|g| g.name == "Mom & Dad")
            .map(|g| g.id)
    );
    assert!(bench.app.modal().is_none(), "the list stayed open");
    assert!(bench.app.status().contains("Mom & Dad"), "{}", bench.app.status());
}

/// The reverse, and the reason the withdrawal is a row rather than an
/// `Esc`: unset is a destination the owner may want to choose.
#[test]
fn choosing_the_withdrawal_clears_the_lines_key() {
    let mut bench = planning_app();
    press(&mut bench, KeyCode::Char('5'));
    cursor_to(&mut bench, Line::Bills);

    press(&mut bench, KeyCode::Char('e'));
    // The list opens on the goal this line already names, lifted to the
    // top, so the withdrawal is the row directly under it -- one Down,
    // whatever that goal's own place in the list would have been.
    press(&mut bench, KeyCode::Down);
    press(&mut bench, KeyCode::Enter);

    assert_eq!(
        pointed(&bench, Line::Bills),
        None
    );
}

#[test]
fn esc_leaves_the_destination_alone() {
    let mut bench = planning_app();
    let before = pointed(&bench, Line::Bills);
    press(&mut bench, KeyCode::Char('5'));
    cursor_to(&mut bench, Line::Bills);

    press(&mut bench, KeyCode::Char('e'));
    press(&mut bench, KeyCode::Down);
    press(&mut bench, KeyCode::Esc);

    assert!(bench.app.modal().is_none());
    assert_eq!(
        pointed(&bench, Line::Bills),
        before
    );
}

/// `/` opens a box that takes typed characters, so `?` types into it
/// rather than opening the panel -- the rule every other search box
/// follows.
#[test]
fn a_question_mark_types_into_the_destination_search_rather_than_opening_the_panel() {
    let mut bench = planning_app();
    press(&mut bench, KeyCode::Char('5'));
    cursor_to(&mut bench, Line::Bills);
    press(&mut bench, KeyCode::Char('e'));

    press(&mut bench, KeyCode::Char('/'));
    press(&mut bench, KeyCode::Char('?'));

    assert!(bench.app.help().is_none(), "the panel opened over the search box");
    let chooser = destination(&bench);
    let title: String = chooser
        .title()
        .iter()
        .map(|s| s.text.as_str())
        .collect::<String>();
    assert!(title.contains("/?"), "{title}");

    // F1 is the way in while a question mark is a character.
    press(&mut bench, KeyCode::F(1));
    assert!(open_on(&bench, Topic::DestinationSearch));
}

/// `TransferConfirm` has one field and it is a date, which holds no literal
/// `?` -- the same reasoning that excludes the worksheet's date focus -- so
/// a plain `?` reaches the panel rather than typing into the field.
#[test]
fn a_plain_question_mark_opens_the_panel_over_the_transfer_confirmation() {
    let mut bench = planning_app();
    press(&mut bench, KeyCode::Char('5'));
    press(&mut bench, KeyCode::Char('t'));
    assert!(
        matches!(bench.app.modal(), Some(Modal::Transfers(_))),
        "no transfer confirmation opened"
    );

    press(&mut bench, KeyCode::Char('?'));
    assert!(open_on(&bench, Topic::PlanTransfers));
    assert!(
        matches!(bench.app.modal(), Some(Modal::Transfers(_))),
        "the confirmation is still queued behind the panel"
    );
}

/// Committing the transfers opens the receiving containers' worksheets in
/// turn, each prefilled with the lines that landed there and the plug
/// spread over the goals no line claims.
#[test]
fn committing_the_transfers_opens_each_containers_worksheet_in_turn() {
    let mut bench = planning_app();
    press(&mut bench, KeyCode::Char('5'));
    press(&mut bench, KeyCode::Char('t'));
    press(&mut bench, KeyCode::Enter);

    let first = match bench.app.modal() {
        Some(Modal::Worksheet(sheet)) => sheet.container(),
        _ => panic!("no worksheet opened"),
    };
    // Esc closes one worksheet and the next opens behind it.
    press(&mut bench, KeyCode::Esc);
    let second = match bench.app.modal() {
        Some(Modal::Worksheet(sheet)) => sheet.container(),
        _ => panic!("the second worksheet did not open"),
    };
    assert_ne!(first, second);

    press(&mut bench, KeyCode::Esc);
    assert!(bench.app.modal().is_none(), "a third worksheet opened");
}

/// The allocation is the transfer seen from the container's side, so both
/// carry the one date -- and it is the date the owner confirmed, not the
/// default that date was stepped off: a worksheet dated today would credit
/// the goals days before the cash the transfer moves reaches them.
#[test]
fn each_worksheet_opens_on_the_date_the_transfers_were_written_for() {
    let mut bench = planning_app();
    press(&mut bench, KeyCode::Char('5'));
    press(&mut bench, KeyCode::Char('t'));
    let confirm = plan_transfers(&bench);
    let default = confirm.date().parse().unwrap();

    // Stepped off the two-business-day default, so a sheet that reached
    // for either that default or today fails this.
    press(&mut bench, KeyCode::Right);
    let confirm = plan_transfers(&bench);
    let date = confirm.date().parse().unwrap();
    assert_eq!(date, default.add_days(1).unwrap());
    assert_ne!(date, today());

    press(&mut bench, KeyCode::Enter);

    let sheet = worksheet(&bench);
    assert_eq!(sheet.date().value(), date.iso());
    press(&mut bench, KeyCode::Esc);
    let sheet = worksheet(&bench);
    assert_eq!(sheet.date().value(), date.iso());
}

/// The form's date is editable, so the day a first run landed on is not
/// the day the second run opens on -- which is the whole case the warning
/// exists for. It scans business days either side and names what it
/// found, because those are days the owner cannot see on the form.
///
/// The fixture's today is a Saturday, so the default is Tuesday the 18th
/// and Monday the 17th is one business day behind it.
#[test]
fn t_warns_when_a_neighbouring_business_day_already_carries_the_payday() {
    let mut bench = planning_app();
    press(&mut bench, KeyCode::Char('5'));
    bench.store.paydays.push(day(2026, 8, 17));
    bench.reload();

    press(&mut bench, KeyCode::Char('t'));

    assert_eq!(bench.app.status(), "2026-08-17 already carries matching rows");
}

/// Two clashes are both named: the owner is picking a date, and being
/// told about one of the two days to avoid is worse than being told the
/// count.
#[test]
fn t_names_every_neighbouring_day_that_clashes() {
    let mut bench = planning_app();
    press(&mut bench, KeyCode::Char('5'));
    bench.store.paydays.push(day(2026, 8, 17));
    bench.store.paydays.push(day(2026, 8, 19));
    bench.reload();

    press(&mut bench, KeyCode::Char('t'));

    assert_eq!(
        bench.app.status(),
        "2026-08-17 and 2026-08-19 already carry matching rows"
    );
}

/// The window has an edge, and past it the warning stays quiet: Friday
/// the 21st is three business days past the 18th.
#[test]
fn t_is_quiet_about_a_payday_beyond_the_window() {
    let mut bench = planning_app();
    press(&mut bench, KeyCode::Char('5'));
    bench.store.paydays.push(day(2026, 8, 21));
    bench.reload();

    press(&mut bench, KeyCode::Char('t'));

    assert!(bench.app.status().is_empty(), "{}", bench.app.status());
}

#[test]
fn esc_with_a_kept_filter_clears_it_rather_than_closing_the_destination_list() {
    let mut bench = planning_app();
    press(&mut bench, KeyCode::Char('5'));
    cursor_to(&mut bench, Line::Bills);
    press(&mut bench, KeyCode::Char('e'));
    press(&mut bench, KeyCode::Char('/'));
    type_str(&mut bench, "zzz");
    press(&mut bench, KeyCode::Enter);

    press(&mut bench, KeyCode::Esc);
    let chooser = destination(&bench);
    assert_eq!(chooser.search(), "");

    press(&mut bench, KeyCode::Esc);
    assert!(bench.app.modal().is_none());
}

/// The whole of the change: a second `p` re-pins rather than clearing.
/// The press that follows a forgotten pin is the next payday's, and a `p`
/// that answered it with "unpinned" would make the press that matters the
/// second one every time.
#[test]
fn p_on_an_already_pinned_plan_re_pins_rather_than_clearing() {
    let mut bench = planning_app();
    press(&mut bench, KeyCode::Char('5'));
    press(&mut bench, KeyCode::Char('p'));
    let first = bench.store.pinned;
    assert!(first.is_some());

    press(&mut bench, KeyCode::Char('p'));

    assert!(bench.app.planning().is_pinned(), "the second p cleared the pin");
    assert_eq!(bench.store.pinned, first);
    assert_eq!(
        bench.app.status(),
        format!("re-pinned {}", write_figure(first.unwrap()))
    );
}

/// `set_unavailable` leaves `excess_actual` holding whatever the last
/// successful view left there, so `p` on a screen showing "no Everyday cash
/// account" must not pin a number belonging to a plan the screen has just
/// said it cannot compute.
#[test]
fn p_on_a_screen_with_no_live_view_is_refused() {
    let mut store = Store::new();
    let card_one = store.account("CC1", "Card One", Kind::Credit);
    store.write(card_one, day(2026, 8, 11), 1_499, "Movies");
    let mut bench = Bench::new(store);

    press(&mut bench, KeyCode::Char('5'));
    press(&mut bench, KeyCode::Char('p'));

    assert_eq!(bench.store.pinned, None);
    assert!(!bench.app.planning().is_pinned());
    assert_eq!(bench.app.status(), "nothing to pin");
}

/// A failed parse must keep the form open with what was typed, not
/// discard the edit and leave the user guessing.
#[test]
fn a_rejected_edit_reports_it_and_keeps_the_form_open() {
    let mut bench = planning_app();
    press(&mut bench, KeyCode::Char('5'));
    press(&mut bench, KeyCode::Char('e'));
    for _ in 0..12 {
        press(&mut bench, KeyCode::Backspace);
    }
    type_str(&mut bench, "lots");
    press(&mut bench, KeyCode::Enter);

    assert!(bench.app.modal().is_some(), "the form must survive a bad parse");
    assert!(bench.app.status().contains("lots"), "{}", bench.app.status());
    assert_eq!(bench.store.target, Cents(1_350_000));
}

/// `E` is the whole row, so committing it must rewrite the bill it opened
/// on -- an insert would leave the old row behind and double the category.
#[test]
fn committing_capital_e_rewrites_the_bill_rather_than_adding_one() {
    let mut bench = planning_app();
    press(&mut bench, KeyCode::Char('5'));
    let (id, label) = select_first_bill(&mut bench);
    let before = bench.store.bills.len();

    press(&mut bench, KeyCode::Char('E'));
    type_str(&mut bench, " + PMI");
    press(&mut bench, KeyCode::Enter);

    assert!(bench.app.modal().is_none());
    let after = &bench.store.bills;
    assert_eq!(after.len(), before);
    assert_eq!(
        after.iter().find(|b| b.id == id).unwrap().label,
        format!("{label} + PMI")
    );
}


/// Two investment accounts, and three holdings with nothing on record about
/// what they are made of.
fn holdings() -> Store {
    let mut store = Store::new();
    let brokerage = store.account("BRK", "Brokerage", Kind::Investment);
    let retirement = store.account("IRA", "Retirement", Kind::Investment);
    for (account, ticker, dollars) in [
        (brokerage, "USM", 10_000),
        (brokerage, "USB", 5_000),
        (retirement, "ISM", 3_000),
    ] {
        let id = HoldingId(store.id());
        store.holdings.push((
            id,
            account,
            ticker.to_string(),
            Cents::from_dollars(dollars),
        ));
    }
    store
}

fn app_with_holdings() -> Bench {
    Bench::new(holdings())
}

#[test]
fn a_holding_with_no_mix_on_record_reads_as_never_fetched() {
    let bench = app_with_holdings();

    let rows = bench.app.funds().list().drawn();
    let row = rows.first().expect("a holding is listed");
    assert_eq!(row.as_of, None);
    assert_eq!(
        row.stock_percent, None,
        "a fund with no mix reported a stock share"
    );
}

#[test]
fn the_account_filter_narrows_the_list_to_one_account() {
    let mut bench = app_with_holdings();
    press(&mut bench, KeyCode::Char('6'));
    let all = bench.app.funds().list().drawn().len();

    press(&mut bench, KeyCode::Tab);

    let filtered = bench.app.funds().list().drawn().len();
    assert!(filtered < all, "Tab did not narrow the list");
    assert!(
        bench.app.funds()
            .list().drawn()
            .iter()
            .all(|r| r.account.id == bench.app.funds().filter_account().unwrap()),
        "a row from another account survived the filter"
    );
}

#[test]
fn back_tab_narrows_the_list_from_the_other_direction() {
    let mut bench = app_with_holdings();
    press(&mut bench, KeyCode::Char('6'));
    let all = bench.app.funds().list().drawn().len();

    press(&mut bench, KeyCode::BackTab);

    let filtered = bench.app.funds().list().drawn().len();
    assert!(filtered < all, "BackTab did not narrow the list");
    assert_eq!(
        bench.app.funds().filter_account(),
        bench.app.funds().list().drawn().first().map(|r| r.account.id)
    );
}

/// `Esc` clears a kept search before it touches the account filter, the
/// same order Ledger and Savings answer it in -- both narrow the screen
/// two ways, and a press that cleared only one would leave the owner to
/// work out which is still hiding a row.
#[test]
fn esc_clears_a_kept_search_before_the_account_filter() {
    let mut bench = app_with_holdings();
    press(&mut bench, KeyCode::Char('6'));
    press(&mut bench, KeyCode::Tab);
    assert_eq!(bench.app.funds().list().drawn().len(), 2, "BRK holds USM and USB");

    press(&mut bench, KeyCode::Char('/'));
    type_str(&mut bench, "USB");
    press(&mut bench, KeyCode::Enter);
    assert_eq!(bench.app.funds().list().drawn().len(), 1, "the kept search did not narrow");

    press(&mut bench, KeyCode::Esc);
    assert!(
        bench.app.funds().filter_account().is_some(),
        "the first Esc must leave the account filter alone"
    );
    assert_eq!(
        bench.app.funds().list().drawn().len(),
        2,
        "the first Esc must clear only the search"
    );

    press(&mut bench, KeyCode::Esc);
    assert_eq!(bench.app.funds().filter_account(), None);
    assert_eq!(
        bench.app.funds().list().drawn().len(),
        3,
        "the second Esc must clear to All"
    );
}

/// `a` opens on the account the `Tab` filter names, and a committed
/// holding reaches the list without a second reload.
#[test]
fn pressing_a_adds_a_holding_to_the_list() {
    let mut bench = app_with_holdings();
    press(&mut bench, KeyCode::Char('6'));
    press(&mut bench, KeyCode::Tab);
    let filtered_account = bench.app.funds().filter_account().unwrap();

    press(&mut bench, KeyCode::Char('a'));
    type_str(&mut bench, "UNC");
    press(&mut bench, KeyCode::Tab);
    type_str(&mut bench, "2000");
    press(&mut bench, KeyCode::Enter);

    assert!(bench.app.modal().is_none(), "the form stayed open: {}", bench.app.status());
    let rows = bench.app.funds().list().drawn();
    let added = rows
        .iter()
        .find(|r| r.ticker == "UNC")
        .expect("the new holding is listed");
    assert_eq!(added.balance, Cents::from_dollars(2_000));
    assert_eq!(
        added.account.id, filtered_account,
        "a did not open on the account the Tab filter named"
    );
}

/// `e` opens on the ticker like `a` does; `Tab` reaches the balance,
/// which is the field most worth checking on an existing row.
#[test]
fn pressing_e_edits_the_selected_holdings_balance() {
    let mut bench = app_with_holdings();
    press(&mut bench, KeyCode::Char('6'));
    let before = bench.app.funds().list().drawn()[0].ticker.clone();

    press(&mut bench, KeyCode::Char('e'));
    press(&mut bench, KeyCode::Tab);
    for _ in 0.."10,000.00".len() {
        press(&mut bench, KeyCode::Backspace);
    }
    type_str(&mut bench, "12000");
    press(&mut bench, KeyCode::Enter);

    assert!(bench.app.modal().is_none(), "the edit stayed open: {}", bench.app.status());
    let rows = bench.app.funds().list().drawn();
    let edited = rows.iter().find(|r| r.ticker == before).unwrap();
    assert_eq!(edited.balance, Cents::from_dollars(12_000));
}

/// The bug this guards: `e` opens on `Ticker`, so reaching `Account`
/// takes a `BackTab` first. Before the account was threaded through
/// `commit_holding_form`, cycling it here and pressing `Enter` reported
/// `updated` over a row that had not moved.
#[test]
fn pressing_e_can_move_a_holding_to_another_account() {
    let mut bench = app_with_holdings();
    press(&mut bench, KeyCode::Char('6'));
    let first = &bench.app.funds().list().drawn()[0];
    let moving = (first.ticker.clone(), first.account.id);

    press(&mut bench, KeyCode::Char('e'));
    press(&mut bench, KeyCode::BackTab);
    press(&mut bench, KeyCode::Right);
    press(&mut bench, KeyCode::Enter);

    assert!(bench.app.modal().is_none(), "the edit stayed open: {}", bench.app.status());
    let rows = bench.app.funds().list().drawn();
    let after = rows.iter().find(|r| r.ticker == moving.0).unwrap();
    assert_ne!(
        after.account.id, moving.1,
        "the account was not moved"
    );
}

#[test]
fn pressing_d_deletes_the_selected_holding_after_confirming() {
    let mut bench = app_with_holdings();
    press(&mut bench, KeyCode::Char('6'));
    let before = bench.app.funds().list().drawn().len();
    let deleting = bench.app.funds().list().drawn()[0].ticker.clone();

    press(&mut bench, KeyCode::Char('d'));
    assert!(
        matches!(bench.app.modal(), Some(Modal::Confirm { .. })),
        "no confirmation opened"
    );
    press(&mut bench, KeyCode::Char('y'));

    assert!(bench.app.modal().is_none());
    let rows = bench.app.funds().list().drawn();
    assert_eq!(rows.len(), before - 1);
    assert!(!rows.iter().any(|r| r.ticker == deleting));
}

/// Any other key cancels a confirmation, the same as every delete
/// dialog in the app.
#[test]
fn cancelling_a_delete_confirmation_leaves_the_holding_in_place() {
    let mut bench = app_with_holdings();
    press(&mut bench, KeyCode::Char('6'));
    let before = bench.app.funds().list().drawn().len();

    press(&mut bench, KeyCode::Char('d'));
    press(&mut bench, KeyCode::Esc);

    assert!(bench.app.modal().is_none());
    assert_eq!(bench.app.funds().list().drawn().len(), before);
}

/// A search narrowed to nothing leaves the cursor with no row to act
/// on, and `e`/`d` say so rather than opening on whatever the cursor's
/// stale index would otherwise land on.
#[test]
fn e_and_d_with_nothing_selected_say_nothing_selected() {
    let mut bench = app_with_holdings();
    press(&mut bench, KeyCode::Char('6'));
    press(&mut bench, KeyCode::Char('/'));
    type_str(&mut bench, "zzz");
    press(&mut bench, KeyCode::Enter);
    assert!(bench.app.funds().list().drawn().is_empty(), "the needle matched something");

    press(&mut bench, KeyCode::Char('e'));
    assert_eq!(bench.app.status(), "nothing selected");
    assert!(bench.app.modal().is_none());

    press(&mut bench, KeyCode::Char('d'));
    assert_eq!(bench.app.status(), "nothing selected");
    assert!(bench.app.modal().is_none());
}

/// No contact is configured, so nothing is fetched.
#[test]
fn refreshing_with_no_sec_contact_configured_says_what_to_set() {
    let mut bench = app_with_holdings();
    press(&mut bench, KeyCode::Char('6'));

    press(&mut bench, KeyCode::Char('G'));

    assert!(
        bench.app.status().contains("contact"),
        "the refusal does not name the setting to fix: {}",
        bench.app.status()
    );
}

/// The announcement is on screen *before* the fetch blocks the loop,
/// which is the whole of what the deferral buys: `G` leaves a sentence
/// and a piece of work, and the loop draws the first before running the
/// second.
#[test]
fn a_refresh_announces_itself_and_leaves_the_fetch_for_the_loop() {
    let mut bench = Bench::with_contact(holdings(), true);
    press(&mut bench, KeyCode::Char('6'));

    press(&mut bench, KeyCode::Char('G'));

    assert!(
        bench.app.status().starts_with("refreshing"),
        "the freeze is not announced: {}",
        bench.app.status()
    );
    assert!(
        bench.app.has_deferred(),
        "the fetch ran inside the key handler, with no frame drawn first"
    );
}

/// Neither answer involves a fetch, so neither is deferred: a refusal
/// that waited a frame to be drawn beside work that was never going to
/// run would be the announcement mechanism used to say nothing.
#[test]
fn a_refresh_with_nothing_to_fetch_defers_no_work() {
    let mut bench = app_with_holdings();
    press(&mut bench, KeyCode::Char('6'));

    press(&mut bench, KeyCode::Char('G'));
    assert!(bench.app.status().contains("contact"), "{}", bench.app.status());
    assert!(!bench.app.has_deferred(), "a refusal was deferred");
}

/// The other key of the pair: `g` refuses the same way over the
/// selected row alone, rather than silently doing nothing because
/// nothing is selected.
#[test]
fn refreshing_the_selected_row_with_no_sec_contact_configured_says_what_to_set() {
    let mut bench = app_with_holdings();
    press(&mut bench, KeyCode::Char('6'));

    press(&mut bench, KeyCode::Char('g'));

    assert!(
        bench.app.status().contains("contact"),
        "the refusal does not name the setting to fix: {}",
        bench.app.status()
    );
}


/// Open `e` on the first account, step its savings selector, save.
fn pick_block(bench: &mut Bench, steps: usize) {
    press(bench, KeyCode::Char('9'));
    press(bench, KeyCode::Char('e'));
    focus(bench, 1);
    for _ in 0..steps {
        press(bench, KeyCode::Right);
    }
    press(bench, KeyCode::Enter);
}

/// How many subsets the selector of money forms cycles.
fn default_choices_len() -> usize {
    4
}

/// Open `e` on the selected account, step its money forms, save.
fn edit_default(bench: &mut Bench, steps: usize) {
    press(bench, KeyCode::Char('e'));
    focus(bench, 2);
    for _ in 0..steps {
        press(bench, KeyCode::Right);
    }
    press(bench, KeyCode::Enter);
}

/// The same, from whichever screen the test is on, on the first account.
fn pick_default(bench: &mut Bench, steps: usize) {
    press(bench, KeyCode::Char('9'));
    edit_default(bench, steps);
}

/// The block mapping is what `mm import` waits on, and screen 9 is the
/// only place it can be set. One selector per account, so an account
/// cannot claim both blocks -- and moving it off a block clears that
/// block's key rather than leaving it naming an account that no longer
/// answers for it.
#[test]
fn the_account_form_points_a_savings_block_at_an_account_and_off_again() {
    let mut bench = app();
    let id = bench.store.of_kind(Kind::Cash)[0].id;
    assert!(
        bench.store.containers[0]
            .is_none()
    );

    // One step off "neither" is the first block.
    pick_block(&mut bench, 1);
    assert_eq!(
        bench.store.containers[0],
        Some(id)
    );
    assert_eq!(
        bench.app.accounts().drawn()[0].block,
        Some(SavingsBlock::Goals),
        "the screen does not show what was written"
    );

    // A full cycle back to "neither" clears it again.
    pick_block(&mut bench, 2);
    assert!(
        bench.store.containers[0]
            .is_none(),
        "moving off a block left its key naming the account"
    );
    assert_eq!(bench.app.accounts().drawn()[0].block, None);
}

/// Screen 9 is where the two money forms are told where to open, and the
/// set is what the account answers for: a source dropped from it clears
/// that key rather than leaving it naming an account the owner has just
/// taken it off.
#[test]
fn the_account_form_points_a_money_form_at_an_account_and_off_again() {
    let mut bench = app();
    let id = bench.store.of_kind(Kind::Cash)[0].id;
    for source in 0..2 {
        assert!(bench.store.defaults[source].is_none());
    }

    // One step off "neither" is the first source on its own; a full
    // cycle back is "neither" again.
    pick_default(&mut bench, 1);
    assert_eq!(
        bench.store.defaults[0],
        Some(id)
    );
    assert!(
        bench.store.defaults[1]
            .is_none(),
        "one step claimed both forms"
    );
    assert_eq!(
        bench.app.accounts().drawn()[0].defaults,
        vec![Source::Transfer],
        "the screen does not show what was written"
    );

    pick_default(&mut bench, default_choices_len() - 1);
    for source in 0..2 {
        assert!(
            bench.store.defaults[source].is_none(),
            "{source} was left naming the account it was taken off"
        );
    }
    assert_eq!(bench.app.accounts().drawn()[0].defaults, vec![]);
}

/// Both keys at once, which is the state the `Savings` selector beside it
/// deliberately cannot reach: paying a card and moving savings are two
/// decisions, and one account is allowed to answer both.
#[test]
fn one_account_can_be_the_default_for_both_money_forms() {
    let mut bench = app();
    let id = bench.store.of_kind(Kind::Cash)[0].id;

    pick_default(&mut bench, default_choices_len() - 1);

    for source in 0..2 {
        assert_eq!(bench.store.defaults[source], Some(id));
    }
    assert_eq!(bench.app.accounts().drawn()[0].defaults, vec![Source::Transfer, Source::Payment]);
}

/// At most one account per key: pointing a source at a second account
/// takes it off the first, because the key holds one id.
#[test]
fn pointing_a_money_form_at_a_second_account_takes_it_off_the_first() {
    let mut bench = app();
    let cash = bench.store.of_kind(Kind::Cash);
    bench.store.defaults[0] = Some(cash[0].id);
    bench.reload();

    press(&mut bench, KeyCode::Char('9'));
    press(&mut bench, KeyCode::Down);
    edit_default(&mut bench, 1);

    assert_eq!(
        bench.store.defaults[0],
        Some(cash[1].id)
    );
    assert_eq!(bench.app.accounts().drawn()[0].defaults, vec![]);
    assert_eq!(bench.app.accounts().drawn()[1].defaults, vec![Source::Transfer]);
}

/// Editing one account must not disturb the other account's defaults:
/// each key is only ever cleared when this account is the one it names.
#[test]
fn editing_one_account_leaves_another_accounts_defaults_alone() {
    let mut bench = app();
    let cash = bench.store.of_kind(Kind::Cash);
    bench.store.defaults[1] = Some(cash[1].id);
    bench.reload();

    press(&mut bench, KeyCode::Char('9'));
    press(&mut bench, KeyCode::Char('e'));
    press(&mut bench, KeyCode::Enter);

    assert_eq!(
        bench.store.defaults[1],
        Some(cash[1].id)
    );
}

/// Editing one account must not disturb the other block's mapping: the
/// key is only ever cleared when this account is the one it names.
#[test]
fn editing_one_account_leaves_the_other_blocks_container_alone() {
    let mut bench = app();
    let cash = bench.store.of_kind(Kind::Cash);
    assert!(cash.len() > 1, "the fixture needs two cash accounts");
    bench.store.containers[1] = Some(cash[1].id);
    bench.reload();

    press(&mut bench, KeyCode::Char('9'));
    press(&mut bench, KeyCode::Char('e'));
    press(&mut bench, KeyCode::Enter);

    assert_eq!(
        bench.store.containers[1],
        Some(cash[1].id)
    );
}

fn set_target(bench: &mut Bench, figure: &str) {
    press(bench, KeyCode::Char('r'));
    for _ in 0..12 {
        press(bench, KeyCode::Backspace);
    }
    type_str(bench, figure);
    press(bench, KeyCode::Enter);
}

#[test]
fn committing_an_over_allocated_worksheet_reports_it_and_keeps_the_form() {
    let mut bench = app();
    press(&mut bench, KeyCode::Char('4'));
    press(&mut bench, KeyCode::Char('A'));
    press(&mut bench, KeyCode::Char('1'));
    press(&mut bench, KeyCode::Enter);

    assert!(bench.app.modal().is_some(), "the worksheet must stay open");
    assert!(bench.app.status().contains("over-allocated"), "{}", bench.app.status());
}

#[test]
fn two_lines_naming_one_goal_prefill_it_with_their_sum() {
    let mut bench = planning_app();
    press(&mut bench, KeyCode::Char('5'));
    let goal_id = |bench: &Bench, name: &str| {
        let goal = bench.store.goals.iter().find(|g| g.name == name);
        goal.unwrap_or_else(|| panic!("no {name:?} goal in Rainy Day")).id
    };
    let bill_payments = goal_id(&bench, "Bill Payments");
    let housing = goal_id(&bench, "Housing");
    bench.store.allocate(housing, day(2026, 8, 1), 100_000, None);
    bench.store.pointed.retain(|p| p.0 != Line::CurrentHousing);
    bench.store.pointed.push((Line::CurrentHousing, bill_payments));
    bench.reload();
    let planned = |line: Line| {
        let rows = bench.transfer_rows();
        let lines = rows.iter().flat_map(|row| match row {
            TransferRow::Transfer { lines, .. } => lines.clone(),
            TransferRow::Withdrawal { .. } => vec![],
        });
        Cents(lines.filter(|l| l.0 == line).map(|l| l.1 .0).sum())
    };
    let (bills, current_housing) = (planned(Line::Bills), planned(Line::CurrentHousing));

    press(&mut bench, KeyCode::Char('t'));
    press(&mut bench, KeyCode::Enter);

    let (_, shares) = figures(&bench);
    let line = shares
        .iter()
        .find(|l| l.0 == bill_payments)
        .expect("no worksheet line for Bill Payments");
    assert!(current_housing.0 > 0, "nothing to lose");
    assert_eq!(line.1, Cents(bills.0 + current_housing.0));
    assert_eq!(
        remaining(&bench),
        Cents::zero(),
        "the sheet did not open reconciled"
    );
}

#[test]
fn only_a_taxed_catalog_entry_goes_through_the_tax_lambda() {
    let mut bench = app();
    bench.store.rate = true;
    let rate = BasisPoints(625);
    for (name, taxed) in [("Rolex", true), ("Dropbox", false)] {
        let id = RecurringGoalId(bench.store.id());
        bench.store.catalog.push(Catalog {
            id,
            name: name.to_string(),
            month: 9,
            base: Cents::from_dollars(9_000),
            taxed,
        });
    }
    bench.reload();
    press(&mut bench, KeyCode::Char('7'));
    press(&mut bench, KeyCode::Char('s'));
    press(&mut bench, KeyCode::Enter);

    let stored = |name: &str| {
        let goal = bench.store.goals.iter().find(|g| g.name == name);
        let goal = goal.unwrap_or_else(|| panic!("no goal named {name}"));
        (goal.base, goal.taxed)
    };
    let target = |name: &str| {
        assert!(savings_names(&bench).contains(&name.to_string()));
        match stored(name) {
            (base, true) => tax(base, rate).unwrap(),
            (base, false) => base,
        }
    };
    // 9,000 × 1.0625 = 9,562.50, rounded up to the next $5.
    assert_eq!(target("Rolex"), Cents::from_dollars(9_565));
    assert_eq!(target("Dropbox"), Cents::from_dollars(9_000));
    assert_eq!(stored("Rolex"), (Cents::from_dollars(9_000), true));
    assert_eq!(stored("Dropbox"), (Cents::from_dollars(9_000), false));
}

#[test]
fn reload_prices_a_holding_whose_ticker_has_a_mix_on_record() {
    let mut bench = app_with_holdings();
    let report_date = day(2026, 6, 30);
    bench.store.mixes.push(Mix {
        ticker: "USM".to_string(),
        name: Some("US Market".to_string()),
        report_date,
        slices: vec![Slice {
            class: AssetClass::UsStock,
            weight: BasisPoints(10_000),
        }],
    });
    bench.reload();

    let rows = bench.app.funds().list().all();
    let priced = rows.iter().find(|r| r.ticker == "USM").unwrap();
    assert_eq!(priced.stock_percent, Some(BasisPoints(10_000)));
    assert_eq!(priced.as_of, Some(report_date));

    let unpriced = rows.iter().find(|r| r.ticker == "USB").unwrap();
    assert_eq!(unpriced.stock_percent, None);
    assert_eq!(unpriced.as_of, None);
}

#[test]
fn a_reload_hands_the_screen_each_composition_and_the_targets() {
    let mut bench = app_with_holdings();
    bench.store.mixes.push(Mix {
        ticker: "USB".to_string(),
        name: None,
        report_date: day(2026, 6, 30),
        slices: vec![Slice {
            class: AssetClass::UsBond,
            weight: BasisPoints(10_000),
        }],
    });
    bench.store.birth_date = true;
    bench.reload();
    let funds = bench.app.funds();
    let slices = funds.composition("USB").unwrap();
    assert_eq!(slices[0].class, AssetClass::UsBond);
    assert!(funds.composition("USM").is_none());
    assert_eq!(funds.targets(), &vec![(Class::Bonds, BasisPoints(3_000))]);

    // No birth date is a question rather than a zero.
    bench.store.birth_date = false;
    bench.reload();
    assert!(bench.app.funds().targets().is_empty());
    assert_eq!(bench.app.planning().asked(), Cents(0), "there is no plan yet");
}

#[test]
fn a_scrub_quotes_the_plan_again() {
    let mut bench = planning_app_with_a_row_after_today();
    let before = bench.app.planning().excess();
    for _ in 0..3 {
        press(&mut bench, KeyCode::Right);
    }
    assert_ne!(bench.app.planning().excess(), before);
    assert_eq!(bench.app.planning().asked(), Cents(12_300));
}

#[test]
fn a_refused_figure_is_told_apart_on_the_status_line() {
    let mut bench = app();
    press(&mut bench, KeyCode::Char('2'));
    press(&mut bench, KeyCode::Char('a'));
    let fault = parse_whole_amount("12.50").unwrap_err();
    bench.app.refuse_fault(&fault, bench.now);
    assert!(bench.app.modal().is_some(), "the form closed");
    assert_eq!(bench.app.status(), fault.status());
    assert_eq!(bench.app.said().pieces()[1].kind, PieceKind::Quote);
}

/// The names and the figures of what is said are told apart from the words,
/// so a drawing can hide them and leave the rest.
#[test]
fn what_is_the_owners_is_told_apart_in_what_is_said() {
    let mut bench = app();
    press(&mut bench, KeyCode::Char('2'));
    press(&mut bench, KeyCode::Char('a'));
    type_str(&mut bench, "Zebra");
    press(&mut bench, KeyCode::Tab);
    type_str(&mut bench, "42.50");
    press(&mut bench, KeyCode::Enter);
    let hidden: String = bench
        .app
        .said()
        .pieces()
        .iter()
        .map(|piece| match piece.kind {
            PieceKind::Words => piece.text.clone(),
            _ => "*".to_string(),
        })
        .collect();
    assert_eq!(hidden, "added * * on 2026-08-15");
    assert_eq!(bench.app.status(), "added Zebra 42.50 on 2026-08-15");
}

#[test]
fn enter_opens_the_history_of_the_selected_goal() {
    let mut bench = app();
    press(&mut bench, KeyCode::Char('4'));
    press(&mut bench, KeyCode::Down);
    let goal_id = bench.app.savings().selected().unwrap().goal;

    press(&mut bench, KeyCode::Enter);

    let history = history(&bench);
    assert_eq!(history.goal(), goal_id);
    assert_eq!(history.goal_name(), "Vacation 2027");
    assert_eq!(history.all().len(), 1);
    assert_eq!(history.total(), Some(Cents(1_000_000)));
}

#[test]
fn deleting_from_the_history_names_the_row() {
    let mut bench = app();
    press(&mut bench, KeyCode::Char('4'));
    press(&mut bench, KeyCode::Down);
    press(&mut bench, KeyCode::Enter);
    press(&mut bench, KeyCode::Char('d'));
    let Mode::Confirming { label, .. } = history(&bench).mode() else {
        panic!("d asked nothing");
    };
    assert_eq!(label.text(), "2026-08-01  Vacation 2027  10,000.00");
    assert_eq!(history(&bench).container_name(), "Rainy Day");
}

#[test]
fn a_payday_with_a_bad_date_is_refused_before_anything_is_written() {
    let mut bench = planning_app();
    press(&mut bench, KeyCode::Char('5'));
    press(&mut bench, KeyCode::Char('t'));
    press(&mut bench, KeyCode::Char('x'));
    press(&mut bench, KeyCode::Enter);
    assert!(bench.store.paydays.is_empty());
    assert!(bench.app.next_prefill().is_none());
    assert!(bench.app.status().starts_with("not a YYYY-MM-DD date"));
    assert!(bench.app.payday(&vec![], &bench.shares).unwrap().is_err());
    assert!(bench.app.posting().is_none());
}

#[test]
fn committing_a_worksheet_writes_one_batch_and_reloads_the_screen() {
    let mut bench = app();
    press(&mut bench, KeyCode::Char('4'));
    // Row 1 is Vacation 2027, the only goal the prefill asks anything of.
    let before = savings_current(&bench, 1);
    press(&mut bench, KeyCode::Char('A'));
    press(&mut bench, KeyCode::Enter);

    assert!(bench.app.modal().is_none());
    assert_eq!(savings_current(&bench, 1), Cents(before.0 + 50_000));
    let (batch, kind, _) = *bench.store.batches.last().unwrap();
    assert_eq!(kind, "paycheck");
    let shares = bench.store.allocs.iter().filter(|a| a.batch == Some(batch));
    assert_eq!(shares.count(), 1);
}

#[test]
fn capital_u_then_y_undoes_the_last_batch() {
    let mut bench = app();
    press(&mut bench, KeyCode::Char('4'));
    // Row 1 is Vacation 2027, the only goal the prefill moves.
    let before = savings_current(&bench, 1);
    press(&mut bench, KeyCode::Char('A'));
    press(&mut bench, KeyCode::Enter);
    assert_ne!(savings_current(&bench, 1), before);

    press(&mut bench, KeyCode::Char('U'));
    press(&mut bench, KeyCode::Char('y'));

    assert!(bench.app.modal().is_none());
    assert_eq!(savings_current(&bench, 1), before);
    assert!(bench.store.batches.is_empty());
}

#[test]
fn capital_u_then_any_other_key_cancels_and_the_batch_survives() {
    let mut bench = app();
    press(&mut bench, KeyCode::Char('4'));
    press(&mut bench, KeyCode::Char('A'));
    press(&mut bench, KeyCode::Enter);
    let after_payday = savings_current(&bench, 0);

    press(&mut bench, KeyCode::Char('U'));
    press(&mut bench, KeyCode::Char('n'));

    assert!(bench.app.modal().is_none());
    assert_eq!(savings_current(&bench, 0), after_payday);
    assert!(!bench.store.batches.is_empty());
}

#[test]
fn a_target_is_set_corrected_and_cleared() {
    let mut bench = app();
    press(&mut bench, KeyCode::Char('2'));
    press(&mut bench, KeyCode::Tab);
    set_target(&mut bench, "$1,200.00");
    assert!(bench.app.modal().is_none());
    assert_eq!(bench.app.cash().target(), Some(Cents(120_000)));
    assert_eq!(bench.app.status(), "Everyday target 1,200.00");

    set_target(&mut bench, "-5.50");
    assert_eq!(bench.app.cash().target(), Some(Cents(-550)));

    set_target(&mut bench, "");
    assert_eq!(bench.app.cash().target(), None);
    assert_eq!(bench.app.status(), "Everyday target cleared");
}

#[test]
fn a_refused_target_keeps_the_form_and_what_was_typed() {
    let mut bench = app();
    press(&mut bench, KeyCode::Char('2'));
    press(&mut bench, KeyCode::Tab);
    set_target(&mut bench, "twelve");
    let Some(Modal::Reconcile { form, .. }) = bench.app.modal() else {
        panic!("the form closed");
    };
    assert_eq!(form.value(), "twelve");
    assert_eq!(bench.app.status(), "not an amount: \"twelve\"");
    assert_eq!(bench.app.cash().target(), None);
}

/// A target is the account's, so the filter carries it and the other ledger
/// has none of it.
#[test]
fn a_target_goes_where_its_account_goes() {
    let mut bench = app();
    press(&mut bench, KeyCode::Char('2'));
    press(&mut bench, KeyCode::Tab);
    set_target(&mut bench, "1200");
    press(&mut bench, KeyCode::Tab);
    assert_eq!(bench.app.cash().target(), None, "Rainy Day has no target");
    press(&mut bench, KeyCode::BackTab);
    assert_eq!(bench.app.cash().target(), Some(Cents(120_000)));
    press(&mut bench, KeyCode::Char('3'));
    press(&mut bench, KeyCode::Tab);
    assert_eq!(bench.app.credit().target(), None);
}

#[test]
fn a_message_under_a_form_outlives_its_time_and_a_later_one_does_not() {
    let mut bench = app();
    press(&mut bench, KeyCode::Char('4'));
    press(&mut bench, KeyCode::Char('a'));
    type_str(&mut bench, "/0");
    press(&mut bench, KeyCode::Enter);
    assert!(!bench.app.expire_status(STATUS_TTL * 10));
    assert!(bench.app.status().contains("divide by 0"));

    press(&mut bench, KeyCode::Esc);
    bench.now = 1_000;
    press(&mut bench, KeyCode::Char('U'));
    assert!(!bench.app.expire_status(1_000 + STATUS_TTL - 1));
    assert!(bench.app.expire_status(1_000 + STATUS_TTL));
    assert_eq!(bench.app.status(), "");
}

#[test]
fn the_app_wide_keys_are_drawn_only_where_they_are_answered() {
    let mut bench = app();
    for screen in ['1', '2', '3', '4', '5', '6', '7', '8', '9'] {
        press(&mut bench, KeyCode::Char(screen));
        assert!(bench.app.footer_chrome(), "screen {screen}");
    }
    for screen in ['2', '3', '4', '6', '7'] {
        press(&mut bench, KeyCode::Char(screen));
        press(&mut bench, KeyCode::Char('/'));
        assert!(!bench.app.footer_chrome(), "the box on screen {screen}");
        press(&mut bench, KeyCode::Esc);
        assert!(bench.app.footer_chrome(), "screen {screen}");
    }
    press(&mut bench, KeyCode::Char('4'));
    press(&mut bench, KeyCode::Char('A'));
    assert!(!bench.app.footer_chrome(), "a worksheet is open");
    press(&mut bench, KeyCode::Esc);
    assert_eq!(bench.app.status(), "cancelled");
    assert!(!bench.app.footer_chrome(), "a message takes the line");
    press(&mut bench, KeyCode::Char('?'));
    assert!(!bench.app.footer_chrome(), "the panel is open");
}

#[test]
fn a_footer_names_no_key_its_screen_refuses() {
    let mut bench = planning_app();
    let without = |bench: &Bench| match bench.app.footer() {
        Footer::Keys { without, .. } => without,
        _ => panic!("no keys are drawn"),
    };
    press(&mut bench, KeyCode::Char('2'));
    assert_eq!(without(&bench), None);
    press(&mut bench, KeyCode::Char('3'));
    assert_eq!(without(&bench), Some('t'));
    press(&mut bench, KeyCode::Char('5'));
    assert_eq!(without(&bench), Some('P'));
    press(&mut bench, KeyCode::Char('p'));
    assert_eq!(bench.app.status(), "pinned 50,000.00");
    press(&mut bench, KeyCode::Char('5'));
    assert_eq!(without(&bench), None);
    press(&mut bench, KeyCode::Char('P'));
    assert_eq!(bench.app.status(), "unpinned");
    assert_eq!(bench.store.pinned, None);
}

#[test]
fn a_pinned_plan_that_stops_computing_can_still_be_unpinned() {
    let mut bench = planning_app();
    press(&mut bench, KeyCode::Char('5'));
    press(&mut bench, KeyCode::Char('p'));
    assert_eq!(bench.store.pinned, Some(Cents(5_000_000)));
    bench.store.no_plan = Some("a gate points at a goal that is gone".to_string());
    bench.reload();
    assert!(bench.app.planning().has_message());
    press(&mut bench, KeyCode::Char('p'));
    assert_eq!(bench.app.status(), "nothing to pin");
    press(&mut bench, KeyCode::Char('P'));
    assert_eq!(bench.app.status(), "unpinned");
    assert_eq!(bench.store.pinned, None);
}

/// Entering the funds with no date of birth on record asks for one, and the
/// prompt takes the keys until it is answered.
#[test]
fn entering_the_funds_asks_for_a_birth_date_that_is_not_on_record() {
    let mut store = holdings();
    store.birth_date = false;
    let mut bench = Bench::new(store);
    press(&mut bench, KeyCode::Char('6'));
    assert_eq!(bench.app.screen(), Screen::Funds);
    assert!(is_open(&bench, Purpose::BirthDate));
    press(&mut bench, KeyCode::Down);
    assert_eq!(bench.app.funds().list().selected_index(), 0);

    type_str(&mut bench, "3/4");
    press(&mut bench, KeyCode::Enter);
    assert!(is_open(&bench, Purpose::BirthDate), "a shorthand was taken");
    for _ in 0..3 {
        press(&mut bench, KeyCode::Backspace);
    }
    type_str(&mut bench, "1982-03-04");
    press(&mut bench, KeyCode::Enter);
    assert!(bench.app.modal().is_none(), "{}", bench.app.status());

    press(&mut bench, KeyCode::Char('1'));
    press(&mut bench, KeyCode::Char('6'));
    assert!(bench.app.modal().is_none(), "it was asked for again");
}

#[test]
fn a_missing_birth_date_is_said_in_the_footer() {
    let mut store = holdings();
    store.birth_date = false;
    let mut bench = Bench::new(store);
    press(&mut bench, KeyCode::Char('6'));
    press(&mut bench, KeyCode::Esc);
    assert!(matches!(
        bench.app.footer(),
        Footer::Keys {
            topic: Topic::Funds,
            needs_birth_date: true,
            ..
        }
    ));
}

#[test]
fn the_worksheets_operators_are_handed_on_from_the_amount() {
    let mut bench = app();
    press(&mut bench, KeyCode::Char('4'));
    press(&mut bench, KeyCode::Char('A'));
    assert_eq!(worksheet(&bench).focus(), Focus::Amount);
    type_str(&mut bench, " *-zsw5");
    press(&mut bench, KeyCode::Backspace);
    type_str(&mut bench, "/2");
    assert_eq!(
        bench.ops,
        vec![
            SheetOp::Toggle,
            SheetOp::SelectAllVisible,
            SheetOp::ClearSelection,
            SheetOp::ZeroUntargeted,
            SheetOp::Spread,
            SheetOp::SpreadByWeight,
            SheetOp::Type('5'),
            SheetOp::Backspace,
            SheetOp::Divide(2),
        ]
    );
}

#[test]
fn a_slash_then_a_letter_begins_a_filter_on_the_lines() {
    let mut bench = app();
    press(&mut bench, KeyCode::Char('4'));
    press(&mut bench, KeyCode::Char('A'));
    type_str(&mut bench, "/Cou");
    assert!(worksheet(&bench).lines().is_searching());
    assert_eq!(worksheet(&bench).lines().search(), "Cou");
    let names: Vec<&str> = worksheet(&bench)
        .lines()
        .drawn()
        .iter()
        .map(|l| l.name.as_str())
        .collect();
    assert_eq!(names, ["Couch"]);
    assert!(bench.ops.is_empty());
}

#[test]
fn a_posted_worksheet_opens_the_one_behind_it() {
    let mut bench = planning_app();
    press(&mut bench, KeyCode::Char('5'));
    press(&mut bench, KeyCode::Char('t'));
    press(&mut bench, KeyCode::Enter);
    let first = worksheet(&bench).container();
    assert_eq!(bench.app.status(), "wrote 2 transfers, 2,300.00");
    press(&mut bench, KeyCode::Enter);
    assert_eq!(
        bench.app.status(),
        "posted 1,500.00 across 2 goals · U undoes it"
    );
    let second = worksheet(&bench).container();
    assert_ne!(first, second);
    press(&mut bench, KeyCode::Enter);
    assert!(bench.app.modal().is_none(), "a third worksheet opened");
    assert_eq!(
        bench.app.status(),
        "posted 800.00 across 2 goals · U undoes it"
    );
}

#[test]
fn a_failed_read_drops_the_worksheets_that_waited() {
    let mut bench = planning_app();
    press(&mut bench, KeyCode::Char('5'));
    press(&mut bench, KeyCode::Char('t'));
    press(&mut bench, KeyCode::Enter);
    assert!(bench.app.next_prefill().is_some());
    bench.app.fail("the disk is gone", 0);
    assert_eq!(bench.app.status(), "the disk is gone");
    assert!(bench.app.next_prefill().is_none());
    press(&mut bench, KeyCode::Esc);
    assert!(bench.app.modal().is_none(), "a stale worksheet opened");
}

/// Two lines naming one goal are merged, and what is spread joins the sheet
/// of the container it is spread over.
#[test]
fn a_worksheet_is_prefilled_with_what_its_lines_come_to() {
    let mut bench = planning_app();
    let bills = pointed(&bench, Line::Bills).unwrap();
    bench.store.pointed.retain(|p| p.0 != Line::CurrentHousing);
    bench.store.pointed.push((Line::CurrentHousing, bills));
    press(&mut bench, KeyCode::Char('5'));
    press(&mut bench, KeyCode::Char('t'));
    press(&mut bench, KeyCode::Enter);
    let (pot, shares) = figures(&bench);
    assert_eq!(pot, Cents(150_000));
    assert!(shares.contains(&(bills, Cents(150_000))));
    assert_eq!(worksheet(&bench).container_name(), "Rainy Day");
    assert_eq!(worksheet(&bench).kind(), BatchKind::Paycheck);
}

#[test]
fn a_second_payday_on_the_same_date_warns_without_blocking() {
    let mut bench = planning_app();
    press(&mut bench, KeyCode::Char('5'));
    press(&mut bench, KeyCode::Char('t'));
    press(&mut bench, KeyCode::Enter);
    press(&mut bench, KeyCode::Esc);
    press(&mut bench, KeyCode::Esc);
    assert!(bench.app.modal().is_none(), "a worksheet is still queued");
    press(&mut bench, KeyCode::Char('t'));
    assert_eq!(
        bench.app.status(),
        "2026-08-18 already carries matching rows"
    );
    press(&mut bench, KeyCode::Enter);
    assert_eq!(bench.store.paydays.len(), 2);
}

#[test]
fn a_rule_reports_what_was_done_with_it() {
    let mut bench = app_with_two_rows_on_every_list();
    press(&mut bench, KeyCode::Char('8'));
    press(&mut bench, KeyCode::Char('g'));
    assert_eq!(bench.app.status(), "Utilities: adopted 2, inserted 1");
    press(&mut bench, KeyCode::Char('G'));
    assert_eq!(
        bench.app.status(),
        "every recurring transaction: adopted 2, inserted 1"
    );
    press(&mut bench, KeyCode::Char('x'));
    assert_eq!(
        bench.app.status(),
        "Utilities ends 2027-01-01 — change that with e"
    );
    press(&mut bench, KeyCode::Char('P'));
    assert_eq!(
        bench.app.status(),
        "Utilities is now the paycheck transaction"
    );
    press(&mut bench, KeyCode::Char('d'));
    let Some(Modal::Confirm { label, .. }) = bench.app.modal() else {
        panic!("d asked nothing");
    };
    assert_eq!(
        label.text(),
        "Utilities · -100.00 · 0 ledger rows will be released, not deleted"
    );
    press(&mut bench, KeyCode::Char('y'));
    assert_eq!(bench.store.rules.len(), 1);
}

#[test]
fn enter_on_a_picker_with_nothing_ticked_says_so() {
    let mut bench = app_with_recurring_goals();
    open_september_picker(&mut bench);
    press(&mut bench, KeyCode::Char(' '));
    assert!(chosen(&bench).is_empty());
    press(&mut bench, KeyCode::Enter);
    assert_eq!(bench.app.status(), "nothing selected");
    assert!(bench.app.modal().is_some());
}

#[test]
fn seeding_with_an_empty_catalog_says_so() {
    let mut bench = app();
    press(&mut bench, KeyCode::Char('7'));
    press(&mut bench, KeyCode::Char('s'));
    assert_eq!(bench.app.status(), "there are no recurring goals");
}

#[test]
fn a_refresh_is_deferred_then_reported() {
    let mut bench = Bench::with_contact(holdings(), true);
    press(&mut bench, KeyCode::Char('6'));
    press(&mut bench, KeyCode::Char('g'));
    assert_eq!(bench.app.status(), "refreshing USM...");
    assert_eq!(bench.app.take_deferred(), Some(vec!["USM".to_string()]));
    assert!(!bench.app.has_deferred());
    let refreshed = moneybook::funds::Refreshed {
        updated: vec!["USM".to_string()],
        failed: vec![],
    };
    let request = bench.app.refreshed(&refreshed, 0);
    bench.serve(request);
    assert_eq!(bench.app.status(), "refreshed USM");
}

#[test]
fn page_down_moves_by_what_the_draw_fitted() {
    let mut bench = planning_app();
    press(&mut bench, KeyCode::Char('5'));
    bench.app.record_viewport(moneybook::cursor::Viewport {
        height: 3,
        offset: 0,
    });
    press(&mut bench, KeyCode::PageDown);
    assert_eq!(bench.app.planning().list().selected_index(), 3);

    cursor_to(&mut bench, Line::Bills);
    press(&mut bench, KeyCode::Char('e'));
    bench
        .app
        .record_modal(moneybook::cursor::Viewport::of_height(4));
    press(&mut bench, KeyCode::PageDown);
    assert_eq!(destination(&bench).selected_index(), 4);
}

#[test]
fn the_open_panel_scrolls_within_its_lines() {
    let mut bench = app();
    press(&mut bench, KeyCode::Char('?'));
    bench.app.record_help(30, 10);
    press(&mut bench, KeyCode::PageDown);
    press(&mut bench, KeyCode::Down);
    assert_eq!(bench.app.help().unwrap().offset(), 11);
    press(&mut bench, KeyCode::End);
    assert_eq!(bench.app.help().unwrap().offset(), 20);
    press(&mut bench, KeyCode::Down);
    assert_eq!(bench.app.help().unwrap().offset(), 20);
    press(&mut bench, KeyCode::Home);
    press(&mut bench, KeyCode::Up);
    assert_eq!(bench.app.help().unwrap().offset(), 0);
}

#[test]
fn the_scrub_moves_with_its_baseline() {
    let mut bench = app();
    shift_press(&mut bench, KeyCode::Right);
    let mut loaded = bench.store.load(Some(&bench.app));
    loaded.baseline = day(2026, 9, 1);
    bench
        .app
        .reload(loaded, moneybook::modal::Anchor::Keep, bench.now);
    assert_eq!(bench.app.scrubbed_days(), 7);
    assert_eq!(bench.app.adhoc(), day(2026, 9, 8));
}

#[test]
fn a_confirmed_write_that_is_refused_leaves_the_question_up() {
    let mut bench = app_with_recurring_goals();
    press(&mut bench, KeyCode::Char('7'));
    press(&mut bench, KeyCode::Char('d'));
    let Some(Modal::Confirm { label, .. }) = bench.app.modal() else {
        panic!("d asked nothing");
    };
    assert_eq!(
        label.text(),
        "Dropbox · 128.00 · 1 goal(s), open or closed, reference it"
    );
    press(&mut bench, KeyCode::Char('y'));
    assert!(bench.app.modal().is_some(), "the question closed");
    assert!(bench.app.status().contains("1 goal(s)"));
    press(&mut bench, KeyCode::Char('n'));
    assert!(bench.app.modal().is_none());
    assert_eq!(bench.app.status(), "delete cancelled");
}

#[test]
fn undoing_a_batch_names_it_first() {
    let mut bench = app();
    press(&mut bench, KeyCode::Char('4'));
    press(&mut bench, KeyCode::Down);
    press(&mut bench, KeyCode::Char('t'));
    type_str(&mut bench, "250");
    press(&mut bench, KeyCode::Enter);
    assert_eq!(bench.app.status(), "moved 250.00 · U undoes it");
    press(&mut bench, KeyCode::Char('U'));
    let Some(Modal::Confirm { label, .. }) = bench.app.modal() else {
        panic!("U asked nothing");
    };
    assert_eq!(label.text(), "transfer 2026-08-15 · 2 goals · 0.00");
    press(&mut bench, KeyCode::Char('n'));
    assert_eq!(bench.app.status(), "undo cancelled");
    assert_eq!(bench.store.batches.len(), 1);
}

#[test]
fn a_suggestion_fills_what_was_not_typed() {
    let mut bench = app();
    press(&mut bench, KeyCode::Char('2'));
    press(&mut bench, KeyCode::Char('a'));
    type_str(&mut bench, "Tra");
    assert_eq!(bench.app.popup().visible(), 1);
    press(&mut bench, KeyCode::Enter);
    assert_eq!(shown(&bench, DESCRIPTION), "Transfer");
    assert_eq!(shown(&bench, AMOUNT), "200.00");
    assert_eq!(shown_account(&bench), "SAV — Rainy Day");
    assert!(!bench.app.popup().is_open());
    assert!(bench.app.modal().is_some(), "accepting saved the form");
}
