//! The two ledgers: their rows, what narrows them, and what their keys ask
//! for.
//!
//! Cash and credit are one screen twice over. The month is shared between
//! them; the account a ledger is narrowed to, its needle and its targets are
//! its own.

use crate::amount::{amount_reading, parse_amount};
use crate::cursor::is_scroll;
use crate::date::{before, Date, DateView};
use crate::dial::{Dial, DialView};
use crate::fault::{Fault, FaultView};
use crate::ids::{AccountId, TxnId};
use crate::key::{KeyCode, KeyEvent};
use crate::label::{name_among, words, Account, Label, SegmentView};
use crate::money::{figure, fits, write_figure, Cents};
use crate::said::{self, PieceView, Said};
use crate::search::{answers, is_match, Listing, ListingView, Search, Sought, Unfiltered};
use crate::text::{trim, trimmed};
use crate::value_form::{slot_text, ValueForm, ValueFormView};
use vstd::prelude::*;
use vstd::string::*;

verus! {

/// What sort of account a row belongs to.
#[derive(Copy, Clone, Debug, PartialEq, Eq, Structural)]
pub enum Kind {
    Cash,
    Credit,
    Investment,
}

/// Whose balance a ledger's border quotes.
#[derive(Copy, Clone, Debug, PartialEq, Eq, Structural)]
pub enum Quoted {
    Account(AccountId),
    /// Every account of a kind.
    Kind(Kind),
}

/// One row of a ledger.
#[derive(Debug)]
pub struct LedgerRow {
    pub id: TxnId,
    pub date: Date,
    pub description: String,
    pub cents: Cents,
}

/// What a description is drawn as: an em dash where there is none.
pub open spec fn shown(description: Seq<char>) -> Seq<char> {
    if description.len() == 0 {
        "—"@
    } else {
        description
    }
}

/// What a description is drawn as: an em dash where there is none.
pub fn render_description(description: &str) -> (text: &str)
    ensures
        text@ == shown(description@),
{
    if description.unicode_len() == 0 {
        "—"
    } else {
        description
    }
}

/// How a description is said: it is the owner's own, and the em dash in its
/// place is not.
pub open spec fn described(description: Seq<char>) -> Seq<PieceView> {
    if description.len() == 0 {
        said::words("—"@)
    } else {
        said::name(description)
    }
}

pub fn describe(description: &str) -> (said: Said)
    ensures
        said@ == described(description@),
{
    if description.unicode_len() == 0 {
        Said::of("—")
    } else {
        Said::of_name(description)
    }
}

impl LedgerRow {
    /// The row in one line: its date, its description and its amount.
    pub open spec fn summary(self) -> Seq<PieceView> {
        said::words(self.date@.iso()) + said::words("  "@) + described(self.description@)
            + said::words("  "@) + said::amount(self.cents)
    }

    /// The row in one line, as a question about it names it.
    pub fn label(&self) -> (label: Said)
        ensures
            label@ == self.summary(),
    {
        Said::of(&self.date.iso()).words("  ").join(&describe(&self.description)).words(
            "  ",
        ).amount(self.cents)
    }
}

impl Sought for LedgerRow {
    type Filter = Unfiltered;

    open spec fn found(&self, filter: Unfiltered, needle: Seq<char>) -> bool {
        answers(self.description@, needle)
    }

    fn is_found(&self, filter: Unfiltered, needle: &str) -> (found: bool) {
        is_match(self.description.as_str(), needle)
    }
}

/// A month's count from the year zero, so that a month on is one more.
pub open spec fn month_number(date: DateView) -> int {
    date.year * 12 + date.month - 1
}

/// A month's count from the year zero.
pub fn month_of(date: Date) -> (month: i64)
    ensures
        month == month_number(date@),
{
    let year: i64 = date.year() as i64;
    let month: i64 = date.month() as i64;
    year * 12 + month - 1
}

/// The place of the last of the first `upto` rows drawn that is dated on or
/// before `day`; the first row's where none is.
pub open spec fn last_by(list: ListingView<LedgerRow>, day: DateView, upto: int) -> int
    decreases upto,
{
    if upto <= 0 {
        0
    } else if !before(day, list.row(upto - 1).date@) {
        upto - 1
    } else {
        last_by(list, day, upto - 1)
    }
}

/// What a ledger's key asks for beyond the ledger itself.
#[derive(Copy, Clone, Debug, PartialEq, Eq, Structural)]
pub enum LedgerVerb {
    Answered,
    /// Both ledgers are on this one's month now, and re-queried.
    SyncMonth,
    /// Other rows, with the cursor back on today.
    Anchor,
    Reconcile,
    Add,
    Transfer,
    Payment,
    Edit,
    Delete,
}

/// One of the two ledgers.
#[derive(Debug)]
pub struct Ledger {
    kind: Kind,
    accounts: Vec<Account>,
    /// The account the rows are narrowed to.
    dial: Dial,
    /// The month the rows are queried over.
    window: i64,
    /// The first and the last month there are rows in.
    range: Option<(i64, i64)>,
    list: Listing<LedgerRow>,
    /// What a statement says each account holds, for the accounts it was
    /// typed on.
    targets: Vec<(AccountId, Cents)>,
    total: Cents,
}

/// What a [`Ledger`] stands for.
pub struct LedgerView {
    pub kind: Kind,
    pub accounts: Seq<Account>,
    pub dial: DialView,
    pub window: int,
    pub range: Option<(i64, i64)>,
    pub list: ListingView<LedgerRow>,
    pub targets: Map<AccountId, Cents>,
    pub total: Cents,
}

impl LedgerView {
    /// A ledger over the month `today` is in, with nothing in it yet.
    pub open spec fn blank(kind: Kind, today: DateView) -> LedgerView {
        LedgerView {
            kind,
            accounts: Seq::empty(),
            dial: DialView { choices: Seq::empty(), at: None },
            window: month_number(today),
            range: None,
            list: ListingView::fresh(Seq::empty(), Unfiltered),
            targets: Map::empty(),
            total: Cents(0),
        }
    }

    /// The account the rows are narrowed to; `None` under All.
    pub open spec fn account(self) -> Option<AccountId> {
        match self.dial.chosen() {
            Some(id) => Some(AccountId(id)),
            None => None,
        }
    }

    /// Whose balance the border quotes: the account the ledger is narrowed
    /// to, or the whole kind's.
    pub open spec fn quoted(self) -> Quoted {
        match self.account() {
            Some(id) => Quoted::Account(id),
            None => Quoted::Kind(self.kind),
        }
    }

    /// The month before this one, as far back as there are rows.
    pub open spec fn month_back(self) -> LedgerView {
        match self.range {
            Some((first, _)) => if self.window > first {
                LedgerView { window: self.window - 1, ..self }
            } else {
                self
            },
            None => self,
        }
    }

    /// The month after this one, as far on as there are rows.
    pub open spec fn month_on(self) -> LedgerView {
        match self.range {
            Some((_, last)) => if self.window < last {
                LedgerView { window: self.window + 1, ..self }
            } else {
                self
            },
            None => self,
        }
    }

    /// Every account, over the month `today` is in.
    pub open spec fn unfiltered(self, today: DateView) -> LedgerView {
        LedgerView { dial: self.dial.cleared(), window: month_number(today), ..self }
    }

    pub open spec fn with_list(self, list: ListingView<LedgerRow>) -> LedgerView {
        LedgerView { list, ..self }
    }

    /// The target typed on the account the ledger is narrowed to.
    pub open spec fn target(self) -> Option<Cents> {
        match self.account() {
            Some(id) => if self.targets.dom().contains(id) {
                Some(self.targets[id])
            } else {
                None
            },
            None => None,
        }
    }

    /// The ledger with a target set on the account it is narrowed to, or
    /// taken away from it.
    pub open spec fn targeted(self, target: Option<Cents>) -> LedgerView {
        match self.account() {
            Some(id) => LedgerView {
                targets: match target {
                    Some(cents) => self.targets.insert(id, cents),
                    None => self.targets.remove(id),
                },
                ..self
            },
            None => self,
        }
    }

    /// The ledger on the last row drawn that is dated on or before `day`.
    pub open spec fn anchored(self, day: DateView) -> LedgerView {
        self.with_list(
            self.list.on(last_by(self.list, day, self.list.visible.len() as int)),
        )
    }

    /// What a key leaves of the ledger, and what it asks for.
    pub open spec fn pressed(self, key: KeyEvent, today: DateView) -> (LedgerView, LedgerVerb) {
        if is_scroll(key.code) {
            (self.with_list(self.list.scrolled(key.code)), LedgerVerb::Answered)
        } else {
            match key.code {
                KeyCode::Tab => (
                    LedgerView { dial: self.dial.forward(), ..self },
                    LedgerVerb::Anchor,
                ),
                KeyCode::BackTab => (
                    LedgerView { dial: self.dial.back(), ..self },
                    LedgerVerb::Anchor,
                ),
                KeyCode::Esc => if self.list.search.needle().len() > 0 {
                    (self.with_list(self.list.needle_escaped()), LedgerVerb::Answered)
                } else {
                    (self.unfiltered(today), LedgerVerb::SyncMonth)
                },
                KeyCode::Char(c) => if c == '[' {
                    (self.month_back(), LedgerVerb::SyncMonth)
                } else if c == ']' {
                    (self.month_on(), LedgerVerb::SyncMonth)
                } else if c == '/' {
                    (
                        self.with_list(self.list.with_search(self.list.search.begun())),
                        LedgerVerb::Answered,
                    )
                } else {
                    (self, self.operator(c))
                },
                _ => (self, LedgerVerb::Answered),
            }
        }
    }

    /// What a letter asks for. `t` is the cash ledger's: a transfer leaves an
    /// account one holds, and there is none on the other for it to start
    /// from.
    pub open spec fn operator(self, c: char) -> LedgerVerb {
        if c == 'r' {
            LedgerVerb::Reconcile
        } else if c == 'a' {
            LedgerVerb::Add
        } else if c == 't' && self.kind is Cash {
            LedgerVerb::Transfer
        } else if c == 'p' {
            LedgerVerb::Payment
        } else if c == 'e' {
            LedgerVerb::Edit
        } else if c == 'd' {
            LedgerVerb::Delete
        } else {
            LedgerVerb::Answered
        }
    }

    /// The words a reconciliation is asked for in.
    pub open spec fn reconcile_label(self, id: AccountId) -> Seq<SegmentView> {
        seq![
            words("Target · "@),
            SegmentView { words: name_among(self.accounts, id), account: Some(id) },
        ]
    }

    /// The form a reconciliation is typed into: on the target already set,
    /// where there is one.
    pub open spec fn reconcile_form(self, id: AccountId) -> ValueFormView {
        ValueFormView::of_money(
            self.reconcile_label(id),
            match self.target() {
                Some(cents) => figure(cents),
                None => Seq::empty(),
            },
        )
    }
}

/// What the accounts' targets come to.
pub open spec fn looked_up(targets: Seq<(AccountId, Cents)>) -> Map<AccountId, Cents>
    decreases targets.len(),
{
    if targets.len() == 0 {
        Map::empty()
    } else {
        looked_up(targets.drop_last()).insert(targets.last().0, targets.last().1)
    }
}

/// The ids a ledger's accounts are cycled through by.
pub open spec fn ids_of(accounts: Seq<Account>) -> Seq<i64> {
    Seq::new(accounts.len(), |i: int| accounts[i].id.0)
}

/// The ids of `accounts`, in their order.
pub fn account_ids(accounts: &Vec<Account>) -> (ids: Vec<i64>)
    ensures
        ids@ == ids_of(accounts@),
{
    let mut ids: Vec<i64> = Vec::new();
    let mut at: usize = 0;
    while at < accounts.len()
        invariant
            at <= accounts@.len(),
            ids@ == ids_of(accounts@.take(at as int)),
        decreases accounts@.len() - at,
    {
        ids.push(accounts[at].id.0);
        at = at + 1;
        proof {
            assert(ids@ =~= ids_of(accounts@.take(at as int)));
        }
    }
    proof {
        assert(accounts@.take(at as int) =~= accounts@);
    }
    ids
}

impl View for Ledger {
    type V = LedgerView;

    closed spec fn view(&self) -> LedgerView {
        LedgerView {
            kind: self.kind,
            accounts: self.accounts@,
            dial: self.dial@,
            window: self.window as int,
            range: self.range,
            list: self.list@,
            targets: looked_up(self.targets@),
            total: self.total,
        }
    }
}

impl Ledger {
    /// A ledger of one kind, over the month `today` is in, with nothing in it
    /// yet.
    pub fn new(kind: Kind, today: Date) -> (ledger: Ledger)
        ensures
            ledger@ == LedgerView::blank(kind, today@),
            ledger@.list.settled(),
    {
        let accounts: Vec<Account> = Vec::new();
        let ids: Vec<i64> = Vec::new();
        let rows: Vec<LedgerRow> = Vec::new();
        let targets: Vec<(AccountId, Cents)> = Vec::new();
        let ledger = Ledger {
            kind,
            accounts,
            dial: Dial::new(ids),
            window: month_of(today),
            range: None,
            list: Listing::new(rows, Unfiltered),
            targets,
            total: Cents(0),
        };
        proof {
            assert(rows@ =~= Seq::empty());
            assert(accounts@ =~= Seq::empty());
            assert(ids@ =~= Seq::empty());
            assert(looked_up(targets@) =~= Map::empty());
        }
        ledger
    }

    pub fn kind(&self) -> (kind: Kind)
        ensures
            kind == self@.kind,
    {
        self.kind
    }

    pub fn window(&self) -> (window: i64)
        ensures
            window == self@.window,
    {
        self.window
    }

    pub fn list(&self) -> (list: &Listing<LedgerRow>)
        ensures
            list@ == self@.list,
    {
        &self.list
    }

    pub fn list_mut(&mut self) -> (list: &mut Listing<LedgerRow>)
        ensures
            list@ == old(self)@.list,
            final(self)@ == old(self)@.with_list(final(list)@),
    {
        &mut self.list
    }

    pub fn total(&self) -> (total: Cents)
        ensures
            total == self@.total,
    {
        self.total
    }

    /// The account the rows are narrowed to; `None` under All.
    pub fn selected_account(&self) -> (id: Option<AccountId>)
        ensures
            id == self@.account(),
    {
        match self.dial.chosen() {
            Some(id) => Some(AccountId(id)),
            None => None,
        }
    }

    pub fn account_name(&self, id: AccountId) -> (name: String)
        ensures
            name@ == name_among(self@.accounts, id),
    {
        Account::named(&self.accounts, id).name
    }

    /// The row under the cursor.
    pub fn selected(&self) -> (row: Option<&LedgerRow>)
        requires
            self@.list.settled(),
        ensures
            match row {
                Some(row) => self@.list.chosen() == Some(*row),
                None => self@.list.chosen() is None,
            },
    {
        self.list.selected()
    }

    /// Hold other accounts, staying on the one the ledger is narrowed to
    /// wherever it is still there.
    pub fn set_accounts(&mut self, accounts: Vec<Account>)
        ensures
            final(self)@ == (LedgerView {
                dial: old(self)@.dial.over(ids_of(accounts@)),
                accounts: accounts@,
                ..old(self)@
            }),
    {
        self.dial.set_choices(account_ids(&accounts));
        self.accounts = accounts;
    }

    pub fn set_range(&mut self, range: Option<(i64, i64)>)
        ensures
            final(self)@ == (LedgerView { range, ..old(self)@ }),
    {
        self.range = range;
    }

    pub fn set_window(&mut self, window: i64)
        ensures
            final(self)@ == (LedgerView { window: window as int, ..old(self)@ }),
    {
        self.window = window;
    }

    /// Hold other rows, the cursor staying at its index.
    pub fn set_rows(&mut self, rows: Vec<LedgerRow>)
        ensures
            final(self)@ == old(self)@.with_list(old(self)@.list.refilled(rows@)),
    {
        self.list.set_rows(rows);
    }

    pub fn set_total(&mut self, total: Cents)
        ensures
            final(self)@ == (LedgerView { total, ..old(self)@ }),
    {
        self.total = total;
    }

    /// Put the cursor on the last row dated on or before `day`, which is
    /// where the rows just entered are.
    pub fn select_at_or_before(&mut self, day: Date)
        requires
            old(self)@.list.settled(),
        ensures
            final(self)@ == old(self)@.anchored(day@),
    {
        let mut upto: usize = self.list.len();
        while upto > 0 && day.is_before(self.list.row(upto - 1).date)
            invariant
                upto <= self@.list.visible.len(),
                self@ == old(self)@,
                self@.list.settled(),
                last_by(self@.list, day@, self@.list.visible.len() as int) == last_by(
                    self@.list,
                    day@,
                    upto as int,
                ),
            ensures
                upto > 0 ==> !before(day@, self@.list.row(upto - 1).date@),
            decreases upto,
        {
            upto = upto - 1;
        }
        if upto > 0 {
            self.list.select(upto - 1);
        } else {
            self.list.select(0);
        }
    }

    /// Every key on a ledger with no box open over it.
    pub fn ledger_key(&mut self, key: KeyEvent, today: Date) -> (verb: LedgerVerb)
        ensures
            (final(self)@, verb) == old(self)@.pressed(key, today@),
    {
        if self.list.scroll(key.code) {
            return LedgerVerb::Answered;
        }
        match key.code {
            KeyCode::Tab => {
                self.dial.next();
                LedgerVerb::Anchor
            },
            KeyCode::BackTab => {
                self.dial.previous();
                LedgerVerb::Anchor
            },
            // Both filters at once, once a kept needle is gone: the account
            // back to All, and the window -- which has no All to reach --
            // back to the month the screen opens on.
            KeyCode::Esc => {
                if self.list.escape_needle() {
                    LedgerVerb::Answered
                } else {
                    self.clear_filters(today);
                    LedgerVerb::SyncMonth
                }
            },
            KeyCode::Char('[') => {
                self.previous_month();
                LedgerVerb::SyncMonth
            },
            KeyCode::Char(']') => {
                self.next_month();
                LedgerVerb::SyncMonth
            },
            KeyCode::Char('/') => {
                self.list.begin_search();
                LedgerVerb::Answered
            },
            KeyCode::Char('r') => LedgerVerb::Reconcile,
            KeyCode::Char('a') => LedgerVerb::Add,
            KeyCode::Char('t') => if self.kind == Kind::Cash {
                LedgerVerb::Transfer
            } else {
                LedgerVerb::Answered
            },
            KeyCode::Char('p') => LedgerVerb::Payment,
            KeyCode::Char('e') => LedgerVerb::Edit,
            KeyCode::Char('d') => LedgerVerb::Delete,
            _ => LedgerVerb::Answered,
        }
    }

    /// Answer a key while the box is open.
    pub fn box_key(&mut self, key: KeyEvent)
        ensures
            final(self)@ == old(self)@.with_list(old(self)@.list.box_pressed(key)),
    {
        self.list.box_key(key);
    }

    fn clear_filters(&mut self, today: Date)
        ensures
            final(self)@ == old(self)@.unfiltered(today@),
    {
        self.dial.clear();
        self.window = month_of(today);
    }

    fn previous_month(&mut self)
        ensures
            final(self)@ == old(self)@.month_back(),
    {
        if let Some((first, _)) = self.range {
            if self.window > first {
                self.window = self.window - 1;
            }
        }
    }

    fn next_month(&mut self)
        ensures
            final(self)@ == old(self)@.month_on(),
    {
        if let Some((_, last)) = self.range {
            if self.window < last {
                self.window = self.window + 1;
            }
        }
    }

    /// The balance the border quotes.
    pub fn quoted(&self) -> (quoted: Quoted)
        ensures
            quoted == self@.quoted(),
    {
        match self.selected_account() {
            Some(id) => Quoted::Account(id),
            None => Quoted::Kind(self.kind()),
        }
    }

    /// The target typed on the account the ledger is narrowed to.
    pub fn target(&self) -> (target: Option<Cents>)
        ensures
            target == self@.target(),
    {
        match self.selected_account() {
            None => None,
            Some(id) => {
                let mut at: usize = self.targets.len();
                proof {
                    assert(self.targets@.take(at as int) =~= self.targets@);
                }
                while at > 0
                    invariant
                        at <= self.targets@.len(),
                        self@.account() == Some(id),
                        looked_up(self.targets@).dom().contains(id) == looked_up(
                            self.targets@.take(at as int),
                        ).dom().contains(id),
                        looked_up(self.targets@)[id] == looked_up(
                            self.targets@.take(at as int),
                        )[id],
                    decreases at,
                {
                    proof {
                        assert(self.targets@.take(at as int).drop_last() =~= self.targets@.take(
                            at - 1,
                        ));
                    }
                    if self.targets[at - 1].0 == id {
                        return Some(self.targets[at - 1].1);
                    }
                    at = at - 1;
                }
                None
            },
        }
    }

    /// Set the target of the account the ledger is narrowed to, or take it
    /// away.
    pub fn set_target(&mut self, target: Option<Cents>)
        ensures
            final(self)@ == old(self)@.targeted(target),
    {
        let ghost was = *self;
        if let Some(id) = self.selected_account() {
            let mut kept: Vec<(AccountId, Cents)> = Vec::new();
            let mut at: usize = 0;
            while at < self.targets.len()
                invariant
                    at <= self.targets@.len(),
                    *self == was,
                    looked_up(kept@) =~= looked_up(self.targets@.take(at as int)).remove(id),
                decreases self.targets@.len() - at,
            {
                let ghost so_far = kept@;
                proof {
                    assert(self.targets@.take(at + 1).drop_last() =~= self.targets@.take(
                        at as int,
                    ));
                }
                let pair = self.targets[at];
                if pair.0 != id {
                    kept.push(pair);
                    proof {
                        assert(kept@.drop_last() =~= so_far);
                    }
                }
                at = at + 1;
            }
            proof {
                assert(self.targets@.take(at as int) =~= self.targets@);
            }
            let ghost cleared = kept@;
            if let Some(cents) = target {
                kept.push((id, cents));
                proof {
                    assert(kept@.drop_last() =~= cleared);
                }
            }
            self.targets = kept;
            proof {
                assert(self@.targets =~= was@.targeted(target).targets);
            }
        }
    }

    /// `r`: the balance a statement says the narrowed account holds.
    ///
    /// Only under an account filter: under All the border quotes the whole
    /// kind's balance, which no statement names. Opens on the target already
    /// set, so a figure being corrected is edited rather than retyped.
    pub fn open_reconcile(&self) -> (opened: Option<(AccountId, ValueForm)>)
        ensures
            match opened {
                Some((id, form)) => self@.account() == Some(id) && form@
                    == self@.reconcile_form(id),
                None => self@.account() is None,
            },
    {
        let id = self.selected_account()?;
        let label = Label::plain("Target · ").account(Account::named(&self.accounts, id));
        proof {
            assert(label@ =~= self@.reconcile_label(id));
            reveal_strlit("");
            assert(""@ =~= Seq::<char>::empty());
        }
        let form = match self.target() {
            Some(cents) => ValueForm::money(label, &write_figure(cents)),
            None => ValueForm::money(label, ""),
        };
        Some((id, form))
    }

    /// Take what was typed into a reconciliation: the status it leaves, or
    /// why it is refused.
    ///
    /// An empty field clears the target: that is how one goes away, since
    /// `Esc` means "leave the figure alone".
    pub fn reconcile(&mut self, id: AccountId, raw: &str) -> (status: Result<Said, Fault>)
        ensures
            match reconciled(old(self)@, id, raw@) {
                Ok((ledger, words)) => status is Ok && status->Ok_0@ == words && final(self)@
                    == ledger,
                Err(why) => status is Err && status->Err_0@ == why && final(self)@ == old(self)@,
            },
    {
        let text: &str = trim(raw);
        let target: Option<Cents> = if text.unicode_len() == 0 {
            None
        } else {
            match parse_amount(text) {
                Ok(cents) => Some(cents),
                Err(why) => return Err(why),
            }
        };
        let name = Said::of_name(&self.account_name(id));
        let status = match target {
            Some(cents) => name.words(" target ").amount(cents),
            None => name.words(" target cleared"),
        };
        self.set_target(target);
        Ok(status)
    }
}

/// What typing `raw` into the reconciliation of `id` comes to: the ledger
/// with its target and the words that report it, or why it is refused.
pub open spec fn reconciled(ledger: LedgerView, id: AccountId, raw: Seq<char>) -> Result<
    (LedgerView, Seq<PieceView>),
    FaultView,
> {
    let text = trimmed(raw);
    let name = said::name(name_among(ledger.accounts, id));
    if text.len() == 0 {
        Ok((ledger.targeted(None), name + said::words(" target cleared"@)))
    } else {
        match amount_reading(text) {
            Ok(cents) => Ok(
                (
                    ledger.targeted(Some(Cents(cents as i64))),
                    name + said::words(" target "@) + said::amount(Cents(cents as i64)),
                ),
            ),
            Err(why) => Err(why),
        }
    }
}

/// The anchor is the last row drawn that is dated on or before the day: every
/// row below it is dated after, and where no row is, it is the first.
pub proof fn the_anchor_is_the_last_row_on_or_before(list: ListingView<LedgerRow>, day: DateView)
    requires
        list.visible.len() > 0,
    ensures
        ({
            let place = last_by(list, day, list.visible.len() as int);
            &&& 0 <= place < list.visible.len()
            &&& before(day, list.row(place).date@) ==> place == 0
            &&& forall|i: int|
                place < i < list.visible.len() ==> before(day, (#[trigger] list.row(i)).date@)
        }),
{
    lemma_last_by(list, day, list.visible.len() as int);
}

proof fn lemma_last_by(list: ListingView<LedgerRow>, day: DateView, upto: int)
    requires
        0 <= upto <= list.visible.len(),
        upto < list.visible.len() ==> forall|i: int|
            upto <= i < list.visible.len() ==> before(day, (#[trigger] list.row(i)).date@),
    ensures
        ({
            let place = last_by(list, day, upto);
            &&& 0 <= place
            &&& upto > 0 ==> place < upto
            &&& list.visible.len() > 0 && before(day, list.row(place).date@) ==> place == 0
            &&& forall|i: int|
                place < i < list.visible.len() ==> before(day, (#[trigger] list.row(i)).date@)
        }),
    decreases upto,
{
    if upto > 0 && before(day, list.row(upto - 1).date@) {
        lemma_last_by(list, day, upto - 1);
    }
}

/// A month stepped to is stepped back from, wherever there was one to step
/// to.
pub proof fn a_month_step_is_undone(ledger: LedgerView)
    requires
        ledger.range matches Some((first, last)) ==> first <= ledger.window <= last,
    ensures
        ledger.month_on() != ledger ==> ledger.month_on().month_back() == ledger,
        ledger.month_back() != ledger ==> ledger.month_back().month_on() == ledger,
{
}

/// `Esc` drops a kept needle before it touches either filter.
pub proof fn a_needle_goes_before_the_filters(
    ledger: LedgerView,
    key: KeyEvent,
    today: DateView,
)
    requires
        key.code is Esc,
    ensures
        ledger.list.search.needle().len() > 0 ==> ({
            let after = ledger.pressed(key, today).0;
            &&& after.list.search.needle().len() == 0
            &&& after.dial == ledger.dial
            &&& after.window == ledger.window
        }),
        ledger.list.search.needle().len() == 0 ==> ({
            let after = ledger.pressed(key, today).0;
            &&& after.account() is None
            &&& after.window == month_number(today)
        }),
{
}

/// A target is the account's it was typed on: every other account keeps its
/// own, and so does this one under another filter.
pub proof fn a_target_is_one_accounts_own(
    ledger: LedgerView,
    target: Option<Cents>,
    other: AccountId,
)
    requires
        ledger.account() is Some,
        ledger.account() != Some(other),
    ensures
        ledger.targeted(target).target() == target,
        ledger.targeted(target).targets.dom().contains(other)
            <==> ledger.targets.dom().contains(other),
        ledger.targets.dom().contains(other) ==> ledger.targeted(target).targets[other]
            == ledger.targets[other],
{
}

/// An anchor leaves the cursor among the rows drawn.
pub proof fn an_anchored_ledger_is_settled(ledger: LedgerView, day: DateView)
    requires
        ledger.list.settled(),
    ensures
        ledger.anchored(day).list.settled(),
{
    if ledger.list.visible.len() > 0 {
        the_anchor_is_the_last_row_on_or_before(ledger.list, day);
    }
}

/// Whatever key is pressed, the rows drawn are those the needle leaves and
/// the cursor is among them.
pub proof fn a_ledger_stays_settled(ledger: LedgerView, key: KeyEvent, day: DateView)
    requires
        ledger.list.settled(),
    ensures
        ledger.pressed(key, day).0.list.settled(),
{
}

/// A month on is one more and a year on is twelve, so that no two months share
/// a number and the next is the one after.
pub proof fn months_are_numbered_in_a_row(date: DateView, other: DateView)
    requires
        date.valid(),
        other.valid(),
    ensures
        month_number(date) == month_number(other) <==> date.year == other.year && date.month
            == other.month,
        date.year == other.year && date.month + 1 == other.month ==> month_number(other)
            == month_number(date) + 1,
        date.month == 12 && other.month == 1 && date.year + 1 == other.year ==> month_number(
            other,
        ) == month_number(date) + 1,
{
}

/// A ledger steps one month at a time, no further than there are rows.
pub proof fn a_ledger_steps_a_month(ledger: LedgerView, first: i64, last: i64)
    requires
        ledger.range == Some((first, last)),
    ensures
        ledger.window < last ==> ledger.month_on().window == ledger.window + 1,
        ledger.window >= last ==> ledger.month_on().window == ledger.window,
        ledger.window > first ==> ledger.month_back().window == ledger.window - 1,
        ledger.window <= first ==> ledger.month_back().window == ledger.window,
        ledger.month_on().dial == ledger.dial,
        ledger.month_on().list == ledger.list,
        ledger.month_back().dial == ledger.dial,
        ledger.month_back().list == ledger.list,
{
}

/// The last target set on an account is the one it has, and the others' are
/// their own.
pub proof fn a_target_set_last_is_the_one_held(
    targets: Seq<(AccountId, Cents)>,
    id: AccountId,
    cents: Cents,
    other: AccountId,
)
    ensures
        looked_up(targets.push((id, cents))).dom().contains(id),
        looked_up(targets.push((id, cents)))[id] == cents,
        other != id ==> looked_up(targets.push((id, cents))).dom().contains(other)
            == looked_up(targets).dom().contains(other),
        other != id ==> looked_up(targets.push((id, cents)))[other] == looked_up(targets)[other],
        !looked_up(Seq::empty()).dom().contains(id),
{
    assert(targets.push((id, cents)).drop_last() =~= targets);
}

/// The border quotes the balance of the account a ledger is narrowed to, and
/// of its whole kind under All.
pub proof fn the_border_quotes_what_is_listed(ledger: LedgerView)
    ensures
        ledger.dial.at matches Some(at) ==> ledger.quoted() == Quoted::Account(
            AccountId(ledger.dial.choices[at]),
        ) && ledger.account() == Some(AccountId(ledger.dial.choices[at])),
        ledger.dial.at is None ==> ledger.quoted() == Quoted::Kind(ledger.kind)
            && ledger.account() is None,
{
}

/// A reconciliation sets the figure that was typed on the account being
/// reconciled, an empty one takes it away, and one that does not read changes
/// nothing.
pub proof fn a_reconciliation_sets_what_was_typed(
    ledger: LedgerView,
    id: AccountId,
    raw: Seq<char>,
)
    requires
        ledger.account() == Some(id),
    ensures
        trimmed(raw).len() == 0 ==> (reconciled(ledger, id, raw) matches Ok((after, _))
            && after.target() is None),
        trimmed(raw).len() > 0 ==> match amount_reading(trimmed(raw)) {
            Ok(cents) => fits(cents) ==> (reconciled(ledger, id, raw) matches Ok((after, _))
                && after.target() matches Some(set) && set.0 == cents),
            Err(why) => reconciled(ledger, id, raw) == Err::<
                (LedgerView, Seq<PieceView>),
                FaultView,
            >(why),
        },
{
}

/// The form a reconciliation opens on holds the target already set, written
/// out, and nothing where none is.
pub proof fn a_reconciliation_opens_on_its_target(ledger: LedgerView, id: AccountId)
    requires
        ledger.account() == Some(id),
    ensures
        ledger.targets.dom().contains(id) ==> slot_text(ledger.reconcile_form(id).slot) == figure(
            ledger.targets[id],
        ),
        !ledger.targets.dom().contains(id) ==> slot_text(ledger.reconcile_form(id).slot).len()
            == 0,
        ledger.reconcile_form(id).money,
{
}

/// A ledger's needle is looked for in the description of each row, and the row
/// is drawn exactly where it is there.
pub proof fn a_ledger_row_is_found_by_its_description(row: LedgerRow, needle: Seq<char>)
    ensures
        row.found(Unfiltered, needle) <==> answers(row.description@, needle),
{
}

/// A row with no description is called a dash, and any other by its own.
pub proof fn a_row_is_called_by_its_description(description: Seq<char>)
    ensures
        description.len() > 0 ==> shown(description) == description && described(description)
            == said::name(description),
        description.len() == 0 ==> shown(description) == "—"@ && described(description)
            == said::words("—"@),
{
}

/// With nothing searched for, `Esc` shows every account of the ledger again
/// and goes back to this month; the targets stay.
pub proof fn a_ledger_is_cleared_to_this_month(ledger: LedgerView, today: DateView, key: KeyEvent)
    requires
        key.code is Esc,
        ledger.list.search.needle().len() == 0,
    ensures
        ({
            let (after, verb) = ledger.pressed(key, today);
            &&& after.account() is None
            &&& after.window == 12 * today.year + today.month - 1
            &&& after.targets == ledger.targets
            &&& after.list == ledger.list
            &&& verb == LedgerVerb::SyncMonth
        }),
{
}

/// A reconciliation is titled by the account it is for.
pub proof fn a_reconciliation_names_its_account(ledger: LedgerView, id: AccountId)
    ensures
        ledger.reconcile_label(id).len() == 2,
        ledger.reconcile_label(id)[1].account == Some(id),
        ledger.reconcile_label(id)[1].words == name_among(ledger.accounts, id),
{
}

/// The accounts of a ledger are dialled through in the order they are listed.
pub proof fn accounts_are_dialled_in_order(accounts: Seq<Account>, at: int)
    requires
        0 <= at < accounts.len(),
    ensures
        ids_of(accounts).len() == accounts.len(),
        ids_of(accounts)[at] == accounts[at].id.0,
{
}

} // verus!
