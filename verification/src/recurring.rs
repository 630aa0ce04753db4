//! The two recurring screens: the transactions regenerated from a rule, and
//! the goals created from a catalog.

use crate::cursor::is_scroll;
use crate::date::Date;
use crate::ids::{RecurringGoalId, RecurringTxnId};
use crate::key::{KeyCode, KeyEvent};
use crate::money::Cents;
use crate::said::{self, PieceView, Said};
use crate::search::{answers, is_match, Listing, ListingView, Search, Sought, Unfiltered};
use crate::text::{decimal, write_number};
use vstd::prelude::*;
use vstd::string::*;

verus! {

/// A recurring transaction as the screen lists it.
#[derive(Debug)]
pub struct RecurringTxnRow {
    pub id: RecurringTxnId,
    pub description: String,
    pub cents: Cents,
    /// How many ledger rows were generated from it.
    pub owned: usize,
}

impl Sought for RecurringTxnRow {
    type Filter = Unfiltered;

    /// Nothing narrows this list.
    open spec fn found(&self, filter: Unfiltered, needle: Seq<char>) -> bool {
        true
    }

    fn is_found(&self, filter: Unfiltered, needle: &str) -> (found: bool) {
        true
    }
}

impl RecurringTxnRow {
    /// What a delete says of the rule: its rows are released, not deleted, so
    /// no balance moves.
    pub open spec fn release(self) -> Seq<PieceView> {
        said::name(self.description@) + said::words(" · "@) + said::amount(self.cents)
            + said::words(" · "@) + said::words(decimal(self.owned as int)) + said::words(
            " ledger rows will be released, not deleted"@,
        )
    }

    pub fn label(&self) -> (label: Said)
        ensures
            label@ == self.release(),
    {
        Said::of_name(&self.description).words(" · ").amount(self.cents).words(" · ").words(
            &write_number(self.owned as u64),
        ).words(" ledger rows will be released, not deleted")
    }
}

/// What a key on the recurring transactions asks for.
#[derive(Copy, Clone, Debug, PartialEq, Eq, Structural)]
pub enum RecurringTxnVerb {
    Answered,
    Add,
    Edit,
    Delete,
    Regenerate,
    RegenerateEvery,
    Extend,
    MakePaycheck,
}

/// What a key on the recurring transactions asks for, once it was none that
/// moves the cursor.
pub open spec fn txn_operator(code: KeyCode) -> RecurringTxnVerb {
    if code == KeyCode::Char('a') {
        RecurringTxnVerb::Add
    } else if code == KeyCode::Char('e') {
        RecurringTxnVerb::Edit
    } else if code == KeyCode::Char('d') {
        RecurringTxnVerb::Delete
    } else if code == KeyCode::Char('g') {
        RecurringTxnVerb::Regenerate
    } else if code == KeyCode::Char('G') {
        RecurringTxnVerb::RegenerateEvery
    } else if code == KeyCode::Char('x') {
        RecurringTxnVerb::Extend
    } else if code == KeyCode::Char('P') {
        RecurringTxnVerb::MakePaycheck
    } else {
        RecurringTxnVerb::Answered
    }
}

/// What a key leaves of the recurring transactions, and what it asks for.
pub open spec fn txns_pressed(list: ListingView<RecurringTxnRow>, key: KeyEvent) -> (
    ListingView<RecurringTxnRow>,
    RecurringTxnVerb,
) {
    (
        list.scrolled(key.code),
        if is_scroll(key.code) {
            RecurringTxnVerb::Answered
        } else {
            txn_operator(key.code)
        },
    )
}

/// Every key on the recurring transactions.
pub fn recurring_txn_key(list: &mut Listing<RecurringTxnRow>, key: KeyEvent) -> (verb:
    RecurringTxnVerb)
    ensures
        (final(list)@, verb) == txns_pressed(old(list)@, key),
{
    if list.scroll(key.code) {
        return RecurringTxnVerb::Answered;
    }
    match key.code {
        KeyCode::Char('a') => RecurringTxnVerb::Add,
        KeyCode::Char('e') => RecurringTxnVerb::Edit,
        KeyCode::Char('d') => RecurringTxnVerb::Delete,
        KeyCode::Char('g') => RecurringTxnVerb::Regenerate,
        KeyCode::Char('G') => RecurringTxnVerb::RegenerateEvery,
        KeyCode::Char('x') => RecurringTxnVerb::Extend,
        KeyCode::Char('P') => RecurringTxnVerb::MakePaycheck,
        _ => RecurringTxnVerb::Answered,
    }
}

/// What came of pushing a rule one horizon further out.
#[derive(Debug)]
pub enum Extended {
    /// Its rows reach further now, as the report says.
    Through { through: Date, report: String },
    /// The rule itself ends.
    Ends(Date),
    /// It reaches as far as a rule may.
    Ceiling(Date),
}

impl Extended {
    /// The words an extension is reported in. Both refusals name the date
    /// that binds.
    pub open spec fn words(self, description: Seq<char>) -> Seq<PieceView> {
        match self {
            Extended::Through { through, report } => said::name(description) + said::words(
                " extended through "@,
            ) + said::words(through@.iso()) + said::words(": "@) + said::words(report@),
            Extended::Ends(end) => said::name(description) + said::words(" ends "@) + said::words(
                end@.iso(),
            ) + said::words(" — change that with e"@),
            Extended::Ceiling(reach) => said::name(description) + said::words(
                " already reaches "@,
            ) + said::words(reach@.iso()) + said::words(", ten years out"@),
        }
    }

    /// What the status line says of an extension.
    pub fn status(&self, description: &str) -> (status: Said)
        ensures
            status@ == self.words(description@),
    {
        let status = Said::of_name(description);
        match self {
            Extended::Through { through, report } => status.words(" extended through ").words(
                &through.iso(),
            ).words(": ").words(report),
            Extended::Ends(end) => status.words(" ends ").words(&end.iso()).words(
                " — change that with e",
            ),
            Extended::Ceiling(reach) => status.words(" already reaches ").words(
                &reach.iso(),
            ).words(", ten years out"),
        }
    }
}

/// A catalog entry as the screen lists it.
#[derive(Debug)]
pub struct RecurringGoalRow {
    pub id: RecurringGoalId,
    pub name: String,
    pub month: i64,
    pub base: Cents,
}

/// What narrows the catalog beside a needle: one month of the year.
#[derive(Copy, Clone, Debug, PartialEq, Eq, Structural)]
pub struct MonthFilter {
    pub month: Option<i64>,
}

impl Sought for RecurringGoalRow {
    type Filter = MonthFilter;

    open spec fn found(&self, filter: MonthFilter, needle: Seq<char>) -> bool {
        (filter.month matches Some(month) ==> self.month == month) && answers(self.name@, needle)
    }

    fn is_found(&self, filter: MonthFilter, needle: &str) -> (found: bool) {
        if let Some(month) = filter.month {
            if self.month != month {
                return false;
            }
        }
        is_match(self.name.as_str(), needle)
    }
}

impl RecurringGoalRow {
    /// What a delete says of the entry: how many goals, open or closed,
    /// reference it, which is the number the delete is gated on.
    pub open spec fn references(self, goals: int) -> Seq<PieceView> {
        said::name(self.name@) + said::words(" · "@) + said::amount(self.base) + said::words(
            " · "@,
        ) + said::words(decimal(goals)) + said::words(" goal(s), open or closed, reference it"@)
    }

    pub fn label(&self, goals: usize) -> (label: Said)
        ensures
            label@ == self.references(goals as int),
    {
        Said::of_name(&self.name).words(" · ").amount(self.base).words(" · ").words(
            &write_number(goals as u64),
        ).words(" goal(s), open or closed, reference it")
    }
}

/// What a key on the catalog asks for.
#[derive(Copy, Clone, Debug, PartialEq, Eq, Structural)]
pub enum RecurringGoalVerb {
    Answered,
    Add,
    Edit,
    Delete,
    /// Create goals from the entries.
    Seed,
}

/// The month of the year after `month`.
pub open spec fn month_after(month: int) -> int {
    if month >= 12 {
        1
    } else {
        month + 1
    }
}

/// The month of the year before `month`.
pub open spec fn month_before(month: int) -> int {
    if month <= 1 {
        12
    } else {
        month - 1
    }
}

/// The catalog, and what narrows it.
#[derive(Debug)]
pub struct RecurringGoals {
    /// The month a step enters the filter at.
    this_month: i64,
    list: Listing<RecurringGoalRow>,
}

/// What a [`RecurringGoals`] stands for.
pub struct RecurringGoalsView {
    pub this_month: i64,
    pub list: ListingView<RecurringGoalRow>,
}

impl RecurringGoalsView {
    pub open spec fn with_list(self, list: ListingView<RecurringGoalRow>) -> RecurringGoalsView {
        RecurringGoalsView { list, ..self }
    }

    pub open spec fn month(self) -> Option<i64> {
        self.list.filter.month
    }

    /// The catalog narrowed to a month, or to none.
    pub open spec fn on_month(self, month: Option<i64>) -> RecurringGoalsView {
        self.with_list(self.list.filtered(MonthFilter { month }))
    }

    /// The next month's entries. From every month's, this month's.
    pub open spec fn month_on(self) -> RecurringGoalsView {
        self.on_month(
            match self.month() {
                Some(month) => Some(month_after(month as int) as i64),
                None => Some(self.this_month),
            },
        )
    }

    /// The month before's entries. From every month's, this month's.
    pub open spec fn month_back(self) -> RecurringGoalsView {
        self.on_month(
            match self.month() {
                Some(month) => Some(month_before(month as int) as i64),
                None => Some(self.this_month),
            },
        )
    }

    /// What a key leaves of the catalog, and what it asks for.
    pub open spec fn pressed(self, key: KeyEvent) -> (RecurringGoalsView, RecurringGoalVerb) {
        if is_scroll(key.code) {
            (self.with_list(self.list.scrolled(key.code)), RecurringGoalVerb::Answered)
        } else {
            match key.code {
                KeyCode::Esc => (
                    if self.list.search.needle().len() > 0 {
                        self.with_list(self.list.needle_escaped())
                    } else {
                        self.on_month(None)
                    },
                    RecurringGoalVerb::Answered,
                ),
                KeyCode::Char(c) => if c == '[' {
                    (self.month_back(), RecurringGoalVerb::Answered)
                } else if c == ']' {
                    (self.month_on(), RecurringGoalVerb::Answered)
                } else if c == '/' {
                    (
                        self.with_list(self.list.with_search(self.list.search.begun())),
                        RecurringGoalVerb::Answered,
                    )
                } else if c == 'a' {
                    (self, RecurringGoalVerb::Add)
                } else if c == 'e' {
                    (self, RecurringGoalVerb::Edit)
                } else if c == 'd' {
                    (self, RecurringGoalVerb::Delete)
                } else if c == 's' {
                    (self, RecurringGoalVerb::Seed)
                } else {
                    (self, RecurringGoalVerb::Answered)
                },
                _ => (self, RecurringGoalVerb::Answered),
            }
        }
    }
}

impl View for RecurringGoals {
    type V = RecurringGoalsView;

    closed spec fn view(&self) -> RecurringGoalsView {
        RecurringGoalsView { this_month: self.this_month, list: self.list@ }
    }
}

impl RecurringGoals {
    /// The catalog with nothing in it yet.
    pub fn new(this_month: i64) -> (goals: RecurringGoals)
        ensures
            goals@ == (RecurringGoalsView {
                this_month,
                list: ListingView::fresh(Seq::empty(), MonthFilter { month: None }),
            }),
            goals@.list.settled(),
    {
        let rows: Vec<RecurringGoalRow> = Vec::new();
        proof {
            assert(rows@ =~= Seq::empty());
        }
        RecurringGoals { this_month, list: Listing::new(rows, MonthFilter { month: None }) }
    }

    pub fn list(&self) -> (list: &Listing<RecurringGoalRow>)
        ensures
            list@ == self@.list,
    {
        &self.list
    }

    pub fn list_mut(&mut self) -> (list: &mut Listing<RecurringGoalRow>)
        ensures
            list@ == old(self)@.list,
            final(self)@ == old(self)@.with_list(final(list)@),
    {
        &mut self.list
    }

    pub fn selected_month(&self) -> (month: Option<i64>)
        ensures
            month == self@.month(),
    {
        self.list.filter().month
    }

    /// The entry under the cursor.
    pub fn selected(&self) -> (row: Option<&RecurringGoalRow>)
        requires
            self@.list.settled(),
        ensures
            match row {
                Some(row) => self@.list.chosen() == Some(*row),
                None => self@.list.chosen() is None,
            },
    {
        self.list.selected()
    }

    pub fn set_rows(&mut self, rows: Vec<RecurringGoalRow>)
        ensures
            final(self)@ == old(self)@.with_list(old(self)@.list.refilled(rows@)),
    {
        self.list.set_rows(rows);
    }

    fn set_month(&mut self, month: Option<i64>)
        ensures
            final(self)@ == old(self)@.on_month(month),
    {
        self.list.set_filter(MonthFilter { month });
    }

    fn next_month(&mut self)
        ensures
            final(self)@ == old(self)@.month_on(),
    {
        let month: i64 = match self.selected_month() {
            Some(month) => if month >= 12 {
                1
            } else {
                month + 1
            },
            None => self.this_month,
        };
        self.set_month(Some(month));
    }

    fn previous_month(&mut self)
        ensures
            final(self)@ == old(self)@.month_back(),
    {
        let month: i64 = match self.selected_month() {
            Some(month) => if month <= 1 {
                12
            } else {
                month - 1
            },
            None => self.this_month,
        };
        self.set_month(Some(month));
    }

    /// Every key on the catalog with no box open over it.
    pub fn recurring_goal_key(&mut self, key: KeyEvent) -> (verb: RecurringGoalVerb)
        ensures
            (final(self)@, verb) == old(self)@.pressed(key),
    {
        if self.list.scroll(key.code) {
            return RecurringGoalVerb::Answered;
        }
        match key.code {
            KeyCode::Esc => {
                if !self.list.escape_needle() {
                    self.set_month(None);
                }
                RecurringGoalVerb::Answered
            },
            KeyCode::Char('[') => {
                self.previous_month();
                RecurringGoalVerb::Answered
            },
            KeyCode::Char(']') => {
                self.next_month();
                RecurringGoalVerb::Answered
            },
            KeyCode::Char('/') => {
                self.list.begin_search();
                RecurringGoalVerb::Answered
            },
            KeyCode::Char('a') => RecurringGoalVerb::Add,
            KeyCode::Char('e') => RecurringGoalVerb::Edit,
            KeyCode::Char('d') => RecurringGoalVerb::Delete,
            KeyCode::Char('s') => RecurringGoalVerb::Seed,
            _ => RecurringGoalVerb::Answered,
        }
    }
}

/// A month stepped to is stepped back from, around the year.
pub proof fn the_year_comes_round(month: int)
    requires
        1 <= month <= 12,
    ensures
        1 <= month_after(month) <= 12,
        month_before(month_after(month)) == month,
        month_after(month_before(month)) == month,
{
}

/// `Esc` drops a kept needle before it touches the month.
pub proof fn a_needle_goes_before_the_month(goals: RecurringGoalsView, key: KeyEvent)
    requires
        key.code is Esc,
    ensures
        goals.list.search.needle().len() > 0 ==> ({
            let after = goals.pressed(key).0;
            &&& after.list.search.needle().len() == 0
            &&& after.month() == goals.month()
        }),
        goals.list.search.needle().len() == 0 ==> goals.pressed(key).0.month() is None,
{
}

/// Whatever key is pressed, the entries drawn are those the month and the
/// needle leave and the cursor is among them.
pub proof fn the_catalog_stays_settled(goals: RecurringGoalsView, key: KeyEvent)
    requires
        goals.list.settled(),
    ensures
        goals.pressed(key).0.list.settled(),
{
}

/// The month after is the next of the year and January after December; the
/// month before is the other way about.
pub proof fn months_follow_each_other(month: int)
    requires
        1 <= month <= 12,
    ensures
        month < 12 ==> month_after(month) == month + 1,
        month == 12 ==> month_after(month) == 1,
        month > 1 ==> month_before(month) == month - 1,
        month == 1 ==> month_before(month) == 12,
{
}

/// The brackets step the catalog's month, and from every month enter it at
/// this one.
pub proof fn the_catalog_steps_from_this_month(goals: RecurringGoalsView)
    requires
        goals.list.filter.month matches Some(month) ==> 1 <= month <= 12,
    ensures
        goals.list.filter.month is None ==> goals.month_on().list.filter.month == Some(
            goals.this_month,
        ) && goals.month_back().list.filter.month == Some(goals.this_month),
        goals.list.filter.month matches Some(month) ==> {
            &&& goals.month_on().list.filter.month == Some(
                if month < 12 {
                    (month + 1) as i64
                } else {
                    1
                },
            )
            &&& goals.month_back().list.filter.month == Some(
                if month > 1 {
                    (month - 1) as i64
                } else {
                    12
                },
            )
        },
        goals.month_on().list.rows == goals.list.rows,
        goals.month_back().list.rows == goals.list.rows,
{
}

/// An entry is drawn exactly where it is of the month the catalog is narrowed
/// to and its name answers the needle.
pub proof fn an_entry_is_drawn_in_its_month(
    row: RecurringGoalRow,
    filter: MonthFilter,
    needle: Seq<char>,
)
    ensures
        row.found(filter, needle) <==> answers(row.name@, needle) && (filter.month is None
            || filter.month == Some(row.month)),
{
}

/// A rule taken away says how many of its rows it leaves, and an entry how many
/// goals were made of it.
pub proof fn a_deletion_says_what_it_leaves(txn: RecurringTxnRow, goal: RecurringGoalRow, goals: int)
    ensures
        txn.release() == said::name(txn.description@) + said::words(" · "@) + said::amount(
            txn.cents,
        ) + said::words(" · "@) + said::words(decimal(txn.owned as int)) + said::words(
            " ledger rows will be released, not deleted"@,
        ),
        goal.references(goals) == said::name(goal.name@) + said::words(" · "@) + said::amount(
            goal.base,
        ) + said::words(" · "@) + said::words(decimal(goals)) + said::words(
            " goal(s), open or closed, reference it"@,
        ),
{
}

} // verus!
