//! The funds screen: the holdings in each investment account, and refreshing
//! what their funds are made of.

use crate::cursor::is_scroll;
use crate::date::Date;
use crate::dial::{Dial, DialView};
use crate::ids::{AccountId, HoldingId};
use crate::key::{KeyCode, KeyEvent};
use crate::label::Account;
use crate::ledger::{account_ids, ids_of};
use crate::money::{fits, BasisPoints, Cents};
use crate::said::{self, join, joined, parts_of, PieceView, Said};
use crate::search::{answers, is_match, Listing, ListingView, Search, Sought};
use crate::text::{decimal, same_text, write_number};
use vstd::prelude::*;
use vstd::string::*;

verus! {

/// What a slice of a fund is invested in.
#[derive(Copy, Clone, Debug, PartialEq, Eq, Structural)]
pub enum AssetClass {
    UsStock,
    IntlStock,
    UsBond,
    IntlBond,
    Cash,
    Unclassified,
}

impl AssetClass {
    /// Which asset classes count as stock, wherever the listing.
    pub open spec fn stock(self) -> bool {
        self is UsStock || self is IntlStock
    }

    pub fn is_stock(self) -> (stock: bool)
        ensures
            stock == self.stock(),
    {
        match self {
            AssetClass::UsStock | AssetClass::IntlStock => true,
            _ => false,
        }
    }
}

/// One class's weight in a fund.
#[derive(Copy, Clone, Debug, PartialEq, Eq, Structural)]
pub struct Slice {
    pub class: AssetClass,
    pub weight: BasisPoints,
}

/// What a fund said it was made of, and when.
#[derive(Debug)]
pub struct Mix {
    pub ticker: String,
    /// The fund's name as a row shows it.
    pub name: Option<String>,
    pub report_date: Date,
    pub slices: Vec<Slice>,
}

/// How an account's gains are taxed.
#[derive(Copy, Clone, Debug, PartialEq, Eq, Structural)]
pub enum TaxTreatment {
    Taxable,
    Deferred,
    Exempt,
}

/// An investment account, and how it is taxed where that is on record.
#[derive(Debug)]
pub struct InvestmentAccount {
    pub account: Account,
    pub tax_treatment: Option<TaxTreatment>,
}

/// A fund held in an account.
#[derive(Debug)]
pub struct Holding {
    pub id: HoldingId,
    pub account: AccountId,
    pub ticker: String,
    pub balance: Cents,
}

/// A holding as the screen lists it. What comes of a fund's composition is
/// blank until one has been fetched.
#[derive(Debug)]
pub struct FundRow {
    pub id: HoldingId,
    pub account: Account,
    pub ticker: String,
    pub name: Option<String>,
    pub balance: Cents,
    pub stock_percent: Option<BasisPoints>,
    pub as_of: Option<Date>,
    pub tax_treatment: Option<TaxTreatment>,
}

/// What the stock slices of a fund come to.
pub open spec fn stock_in(slices: Seq<Slice>) -> int
    decreases slices.len(),
{
    if slices.len() == 0 {
        0
    } else {
        let before = stock_in(slices.drop_last());
        if slices.last().class.stock() {
            before + slices.last().weight.0
        } else {
            before
        }
    }
}

proof fn lemma_stock_bounds(slices: Seq<Slice>)
    ensures
        -0x8000_0000_0000_0000 * slices.len() <= stock_in(slices) <= 0x8000_0000_0000_0000
            * slices.len(),
    decreases slices.len(),
{
    if slices.len() > 0 {
        lemma_stock_bounds(slices.drop_last());
    }
}

/// The stock share of a fund's composition -- U.S. plus international -- out
/// of its published slices.
pub fn stock_share(mix: &Mix) -> (share: BasisPoints)
    requires
        fits(stock_in(mix.slices@)),
    ensures
        share.0 == stock_in(mix.slices@),
{
    let mut share: i128 = 0;
    let mut at: usize = 0;
    while at < mix.slices.len()
        invariant
            at <= mix.slices@.len(),
            share == stock_in(mix.slices@.take(at as int)),
        decreases mix.slices@.len() - at,
    {
        proof {
            assert(mix.slices@.take(at + 1).drop_last() =~= mix.slices@.take(at as int));
            lemma_stock_bounds(mix.slices@.take(at as int));
        }
        if mix.slices[at].class.is_stock() {
            share = share + mix.slices[at].weight.0 as i128;
        }
        at = at + 1;
    }
    proof {
        assert(mix.slices@.take(at as int) =~= mix.slices@);
    }
    BasisPoints(share as i64)
}

/// The first of `mixes` published for `ticker`.
pub open spec fn mix_for(mixes: Seq<Mix>, ticker: Seq<char>) -> Option<Mix>
    decreases mixes.len(),
{
    if mixes.len() == 0 {
        None
    } else if mixes[0].ticker@ == ticker {
        Some(mixes[0])
    } else {
        mix_for(mixes.drop_first(), ticker)
    }
}

fn find_mix<'a>(mixes: &'a Vec<Mix>, ticker: &str) -> (mix: Option<&'a Mix>)
    ensures
        match mix {
            Some(mix) => mix_for(mixes@, ticker@) == Some(*mix) && mixes@.contains(*mix),
            None => mix_for(mixes@, ticker@) is None,
        },
{
    let mut at: usize = 0;
    proof {
        assert(mixes@.skip(0) =~= mixes@);
    }
    while at < mixes.len()
        invariant
            at <= mixes@.len(),
            mix_for(mixes@, ticker@) == mix_for(mixes@.skip(at as int), ticker@),
        decreases mixes@.len() - at,
    {
        proof {
            assert(mixes@.skip(at as int).drop_first() =~= mixes@.skip(at + 1));
        }
        if same_text(mixes[at].ticker.as_str(), ticker) {
            return Some(&mixes[at]);
        }
        at = at + 1;
    }
    None
}

/// How the account of a holding is taxed, where it is listed and on record.
pub open spec fn treatment_of(accounts: Seq<InvestmentAccount>, id: AccountId) -> Option<
    TaxTreatment,
>
    decreases accounts.len(),
{
    if accounts.len() == 0 {
        None
    } else if accounts[0].account.id == id {
        accounts[0].tax_treatment
    } else {
        treatment_of(accounts.drop_first(), id)
    }
}

/// What the listed accounts call `id`.
pub open spec fn account_word(accounts: Seq<InvestmentAccount>, id: AccountId) -> Seq<char>
    decreases accounts.len(),
{
    if accounts.len() == 0 {
        "?"@
    } else if accounts[0].account.id == id {
        accounts[0].account.name@
    } else {
        account_word(accounts.drop_first(), id)
    }
}

fn find_account(accounts: &Vec<InvestmentAccount>, id: AccountId) -> (found: (
    Account,
    Option<TaxTreatment>,
))
    ensures
        found.0.id == id,
        found.0.name@ == account_word(accounts@, id),
        found.1 == treatment_of(accounts@, id),
{
    let mut at: usize = 0;
    proof {
        assert(accounts@.skip(0) =~= accounts@);
    }
    while at < accounts.len()
        invariant
            at <= accounts@.len(),
            account_word(accounts@, id) == account_word(accounts@.skip(at as int), id),
            treatment_of(accounts@, id) == treatment_of(accounts@.skip(at as int), id),
        decreases accounts@.len() - at,
    {
        proof {
            assert(accounts@.skip(at as int).drop_first() =~= accounts@.skip(at + 1));
        }
        if accounts[at].account.id == id {
            return (accounts[at].account.clone(), accounts[at].tax_treatment);
        }
        at = at + 1;
    }
    (Account { id, name: "?".to_owned() }, None)
}

/// Whether `row` is what the screen lists for `holding`: the holding itself,
/// and whatever its fund's composition says of it.
pub open spec fn row_of(
    row: FundRow,
    holding: Holding,
    mixes: Seq<Mix>,
    accounts: Seq<InvestmentAccount>,
) -> bool {
    let mix = mix_for(mixes, holding.ticker@);
    &&& row.id == holding.id
    &&& row.account.id == holding.account
    &&& row.account.name@ == account_word(accounts, holding.account)
    &&& row.ticker@ == holding.ticker@
    &&& row.balance == holding.balance
    &&& row.tax_treatment == treatment_of(accounts, holding.account)
    &&& match mix {
        Some(mix) => {
            &&& row.name is Some == mix.name is Some
            &&& mix.name is Some ==> row.name->0@ == mix.name->0@
            &&& row.stock_percent matches Some(share) && share.0 == stock_in(mix.slices@)
            &&& row.as_of == Some(mix.report_date)
        },
        None => row.name is None && row.stock_percent is None && row.as_of is None,
    }
}

/// The rows the screen lists: one for each holding, in order, priced by the
/// composition of its fund wherever one is on record.
pub fn fund_rows(holdings: Vec<Holding>, mixes: &Vec<Mix>, accounts: &Vec<InvestmentAccount>) -> (rows:
    Vec<FundRow>)
    requires
        forall|i: int| 0 <= i < mixes@.len() ==> fits(stock_in((#[trigger] mixes@[i]).slices@)),
    ensures
        rows@.len() == holdings@.len(),
        forall|i: int|
            0 <= i < rows@.len() ==> row_of(#[trigger] rows@[i], holdings@[i], mixes@, accounts@),
{
    let mut rows: Vec<FundRow> = Vec::new();
    let mut at: usize = 0;
    while at < holdings.len()
        invariant
            at <= holdings@.len(),
            rows@.len() == at,
            forall|i: int|
                0 <= i < mixes@.len() ==> fits(stock_in((#[trigger] mixes@[i]).slices@)),
            forall|i: int|
                0 <= i < rows@.len() ==> row_of(
                    #[trigger] rows@[i],
                    holdings@[i],
                    mixes@,
                    accounts@,
                ),
        decreases holdings@.len() - at,
    {
        let held: &Holding = &holdings[at];
        let (account, tax_treatment) = find_account(accounts, held.account);
        let (name, stock_percent, as_of) = match find_mix(mixes, held.ticker.as_str()) {
            Some(mix) => {
                proof {
                    let i = mixes@.index_of(*mix);
                    assert(mixes@[i] == *mix);
                }
                let name = match &mix.name {
                    Some(name) => Some(name.clone()),
                    None => None,
                };
                (name, Some(stock_share(mix)), Some(mix.report_date))
            },
            None => (None, None, None),
        };
        rows.push(
            FundRow {
                id: held.id,
                account,
                ticker: held.ticker.clone(),
                name,
                balance: held.balance,
                stock_percent,
                as_of,
                tax_treatment,
            },
        );
        at = at + 1;
    }
    rows
}

/// What narrows the holdings beside a needle.
#[derive(Copy, Clone, Debug, PartialEq, Eq, Structural)]
pub struct FundFilter {
    pub account: Option<i64>,
}

impl Sought for FundRow {
    type Filter = FundFilter;

    /// A needle matches the words a reader can see: the ticker, or the name.
    open spec fn found(&self, filter: FundFilter, needle: Seq<char>) -> bool {
        &&& (filter.account matches Some(id) ==> self.account.id.0 == id)
        &&& (answers(self.ticker@, needle) || (self.name matches Some(name) && answers(
            name@,
            needle,
        )))
    }

    fn is_found(&self, filter: FundFilter, needle: &str) -> (found: bool) {
        if let Some(id) = filter.account {
            if self.account.id.0 != id {
                return false;
            }
        }
        if is_match(self.ticker.as_str(), needle) {
            return true;
        }
        match &self.name {
            Some(name) => is_match(name.as_str(), needle),
            None => false,
        }
    }
}

impl FundRow {
    /// The holding in one line: its ticker, its account and its balance.
    pub open spec fn summary(self) -> Seq<PieceView> {
        said::name(self.ticker@) + said::words("  "@) + said::name(self.account.name@)
            + said::words("  "@) + said::whole_amount(self.balance)
    }

    /// The holding in one line, as a question about it names it.
    pub fn label(&self) -> (label: Said)
        ensures
            label@ == self.summary(),
    {
        Said::of_name(&self.ticker).words("  ").name(&self.account.name).words("  ").whole_amount(
            self.balance,
        )
    }
}

/// What a key on the screen asks for beyond the screen itself.
#[derive(Copy, Clone, Debug, PartialEq, Eq, Structural)]
pub enum FundsVerb {
    Answered,
    Add,
    Edit,
    Delete,
    RefreshSelected,
    RefreshEvery,
}

/// What a letter asks for.
pub open spec fn operator(c: char) -> FundsVerb {
    if c == 'a' {
        FundsVerb::Add
    } else if c == 'e' {
        FundsVerb::Edit
    } else if c == 'd' {
        FundsVerb::Delete
    } else if c == 'g' {
        FundsVerb::RefreshSelected
    } else if c == 'G' {
        FundsVerb::RefreshEvery
    } else {
        FundsVerb::Answered
    }
}

/// What the summary weighs a portfolio by.
#[derive(Copy, Clone, Debug, PartialEq, Eq, Structural)]
pub enum Class {
    UsStock,
    IntlStock,
    Bonds,
    Other,
}

/// Each fund's ticker and what it is made of.
pub open spec fn compositions(mixes: Seq<Mix>) -> Seq<(Seq<char>, Seq<Slice>)> {
    Seq::new(mixes.len(), |i: int| (mixes[i].ticker@, mixes[i].slices@))
}

/// What the first composition on record under `ticker` holds.
pub open spec fn composition_of(
    compositions: Seq<(Seq<char>, Seq<Slice>)>,
    ticker: Seq<char>,
) -> Option<Seq<Slice>>
    decreases compositions.len(),
{
    if compositions.len() == 0 {
        None
    } else if compositions[0].0 == ticker {
        Some(compositions[0].1)
    } else {
        composition_of(compositions.drop_first(), ticker)
    }
}

proof fn lemma_compositions(mixes: Seq<Mix>, ticker: Seq<char>)
    ensures
        composition_of(compositions(mixes), ticker) == (match mix_for(mixes, ticker) {
            Some(mix) => Some(mix.slices@),
            None => None,
        }),
    decreases mixes.len(),
{
    if mixes.len() > 0 {
        lemma_compositions(mixes.drop_first(), ticker);
        assert(compositions(mixes).drop_first() =~= compositions(mixes.drop_first()));
    }
}

/// The holdings, and what narrows them.
#[derive(Debug)]
pub struct Funds {
    accounts: Vec<Account>,
    dial: Dial,
    list: Listing<FundRow>,
    /// What each fund is made of: a row reads only its stock share, and the
    /// summary the whole of it.
    mixes: Vec<Mix>,
    /// What each class should come to. One without a target is blank.
    targets: Vec<(Class, BasisPoints)>,
    needs_birth_date: bool,
}

/// What a [`Funds`] stands for.
pub struct FundsView {
    pub accounts: Seq<Account>,
    pub dial: DialView,
    pub list: ListingView<FundRow>,
    pub compositions: Seq<(Seq<char>, Seq<Slice>)>,
    pub targets: Seq<(Class, BasisPoints)>,
    pub needs_birth_date: bool,
}

impl FundsView {
    /// The screen with nothing on it yet.
    pub open spec fn blank() -> FundsView {
        FundsView {
            accounts: Seq::empty(),
            dial: DialView { choices: Seq::empty(), at: None },
            list: ListingView::fresh(Seq::empty(), FundFilter { account: None }),
            compositions: Seq::empty(),
            targets: Seq::empty(),
            needs_birth_date: false,
        }
    }

    pub open spec fn with_list(self, list: ListingView<FundRow>) -> FundsView {
        FundsView { list, ..self }
    }

    /// The holdings the dial leaves.
    pub open spec fn dialled(self) -> FundsView {
        self.with_list(self.list.filtered(FundFilter { account: self.dial.chosen() }))
    }

    /// The screen over other holdings.
    pub open spec fn refilled(self, accounts: Seq<Account>, rows: Seq<FundRow>) -> FundsView {
        FundsView {
            accounts,
            dial: self.dial.over(ids_of(accounts)),
            list: self.list.refilled(rows),
            ..self
        }.dialled()
    }

    /// The account the holdings are narrowed to; `None` under All.
    pub open spec fn account(self) -> Option<AccountId> {
        match self.dial.chosen() {
            Some(id) => Some(AccountId(id)),
            None => None,
        }
    }

    /// What a key leaves of the screen, and what it asks for.
    pub open spec fn pressed(self, key: KeyEvent) -> (FundsView, FundsVerb) {
        if is_scroll(key.code) {
            (self.with_list(self.list.scrolled(key.code)), FundsVerb::Answered)
        } else {
            match key.code {
                KeyCode::Tab => (
                    FundsView { dial: self.dial.forward(), ..self }.dialled(),
                    FundsVerb::Answered,
                ),
                KeyCode::BackTab => (
                    FundsView { dial: self.dial.back(), ..self }.dialled(),
                    FundsVerb::Answered,
                ),
                KeyCode::Esc => (
                    if self.list.search.needle().len() > 0 {
                        self.with_list(self.list.needle_escaped())
                    } else {
                        FundsView { dial: self.dial.cleared(), ..self }.dialled()
                    },
                    FundsVerb::Answered,
                ),
                KeyCode::Char(c) => if c == '/' {
                    (
                        self.with_list(self.list.with_search(self.list.search.begun())),
                        FundsVerb::Answered,
                    )
                } else {
                    (self, operator(c))
                },
                _ => (self, FundsVerb::Answered),
            }
        }
    }
}

impl View for Funds {
    type V = FundsView;

    closed spec fn view(&self) -> FundsView {
        FundsView {
            accounts: self.accounts@,
            dial: self.dial@,
            list: self.list@,
            compositions: compositions(self.mixes@),
            targets: self.targets@,
            needs_birth_date: self.needs_birth_date,
        }
    }
}

impl Funds {
    /// The screen with nothing on it yet.
    pub fn new() -> (funds: Funds)
        ensures
            funds@ == FundsView::blank(),
            funds@.list.settled(),
    {
        let rows: Vec<FundRow> = Vec::new();
        let accounts: Vec<Account> = Vec::new();
        let none: Vec<i64> = Vec::new();
        let mixes: Vec<Mix> = Vec::new();
        let targets: Vec<(Class, BasisPoints)> = Vec::new();
        proof {
            assert(rows@ =~= Seq::empty());
            assert(accounts@ =~= Seq::empty());
            assert(none@ =~= Seq::empty());
            assert(compositions(mixes@) =~= Seq::empty());
            assert(targets@ =~= Seq::empty());
        }
        Funds {
            accounts,
            dial: Dial::new(none),
            list: Listing::new(rows, FundFilter { account: None }),
            mixes,
            targets,
            needs_birth_date: false,
        }
    }

    pub fn list(&self) -> (list: &Listing<FundRow>)
        ensures
            list@ == self@.list,
    {
        &self.list
    }

    pub fn list_mut(&mut self) -> (list: &mut Listing<FundRow>)
        ensures
            list@ == old(self)@.list,
            final(self)@ == old(self)@.with_list(final(list)@),
    {
        &mut self.list
    }

    /// The account the holdings are narrowed to; `None` under All.
    pub fn filter_account(&self) -> (id: Option<AccountId>)
        ensures
            id == self@.account(),
    {
        match self.dial.chosen() {
            Some(id) => Some(AccountId(id)),
            None => None,
        }
    }

    /// Whether the bond target has no birth date to be read off.
    pub fn needs_birth_date(&self) -> (needs: bool)
        ensures
            needs == self@.needs_birth_date,
    {
        self.needs_birth_date
    }

    /// The holding under the cursor.
    pub fn selected(&self) -> (row: Option<&FundRow>)
        requires
            self@.list.settled(),
        ensures
            match row {
                Some(row) => self@.list.chosen() == Some(*row),
                None => self@.list.chosen() is None,
            },
    {
        self.list.selected()
    }

    /// Hold what each fund is made of.
    pub fn set_mixes(&mut self, mixes: Vec<Mix>)
        ensures
            final(self)@ == (FundsView { compositions: compositions(mixes@), ..old(self)@ }),
    {
        self.mixes = mixes;
    }

    /// Hold what each class should come to.
    pub fn set_targets(&mut self, targets: Vec<(Class, BasisPoints)>)
        ensures
            final(self)@ == (FundsView { targets: targets@, ..old(self)@ }),
    {
        self.targets = targets;
    }

    /// What a fund is made of, where that is on record.
    pub fn composition(&self, ticker: &str) -> (slices: Option<&Vec<Slice>>)
        ensures
            match slices {
                Some(slices) => composition_of(self@.compositions, ticker@) == Some(slices@),
                None => composition_of(self@.compositions, ticker@) is None,
            },
    {
        proof {
            lemma_compositions(self.mixes@, ticker@);
        }
        match find_mix(&self.mixes, ticker) {
            Some(mix) => Some(&mix.slices),
            None => None,
        }
    }

    /// What each class should come to.
    pub fn targets(&self) -> (targets: &Vec<(Class, BasisPoints)>)
        ensures
            targets@ == self@.targets,
    {
        &self.targets
    }

    pub fn set_needs_birth_date(&mut self, needs: bool)
        ensures
            final(self)@ == (FundsView { needs_birth_date: needs, ..old(self)@ }),
    {
        self.needs_birth_date = needs;
    }

    /// Hold other holdings, in the accounts they are held in.
    pub fn set_rows(&mut self, accounts: Vec<Account>, rows: Vec<FundRow>)
        ensures
            final(self)@ == old(self)@.refilled(accounts@, rows@),
    {
        self.dial.set_choices(account_ids(&accounts));
        self.accounts = accounts;
        self.list.set_rows(rows);
        self.redial();
    }

    fn redial(&mut self)
        ensures
            final(self)@ == old(self)@.dialled(),
    {
        let filter = FundFilter { account: self.dial.chosen() };
        self.list.set_filter(filter);
    }

    /// Every key on the screen with no box open over it.
    pub fn funds_key(&mut self, key: KeyEvent) -> (verb: FundsVerb)
        ensures
            (final(self)@, verb) == old(self)@.pressed(key),
    {
        if self.list.scroll(key.code) {
            return FundsVerb::Answered;
        }
        match key.code {
            KeyCode::Esc => {
                if !self.list.escape_needle() {
                    self.dial.clear();
                    self.redial();
                }
                FundsVerb::Answered
            },
            KeyCode::Tab => {
                self.dial.next();
                self.redial();
                FundsVerb::Answered
            },
            KeyCode::BackTab => {
                self.dial.previous();
                self.redial();
                FundsVerb::Answered
            },
            KeyCode::Char('/') => {
                self.list.begin_search();
                FundsVerb::Answered
            },
            KeyCode::Char('a') => FundsVerb::Add,
            KeyCode::Char('e') => FundsVerb::Edit,
            KeyCode::Char('d') => FundsVerb::Delete,
            KeyCode::Char('g') => FundsVerb::RefreshSelected,
            KeyCode::Char('G') => FundsVerb::RefreshEvery,
            _ => FundsVerb::Answered,
        }
    }
}

/// What became of a refresh: the tickers that were updated, and those that
/// were not with the reason each gave.
#[derive(Debug)]
pub struct Refreshed {
    pub updated: Vec<String>,
    pub failed: Vec<(String, String)>,
}

/// Each fund by its ticker.
pub open spec fn tickers_of(tickers: Seq<String>) -> Seq<Seq<PieceView>> {
    Seq::new(tickers.len(), |i: int| said::name(tickers[i]@))
}

fn tickers(named: &Vec<String>) -> (parts: Vec<Said>)
    ensures
        parts_of(parts@) == tickers_of(named@),
{
    let mut parts: Vec<Said> = Vec::new();
    let mut at: usize = 0;
    while at < named.len()
        invariant
            at <= named@.len(),
            parts@.len() == at,
            forall|i: int| 0 <= i < at ==> (#[trigger] parts@[i])@ == said::name(named@[i]@),
        decreases named@.len() - at,
    {
        parts.push(Said::of_name(&named[at]));
        at = at + 1;
    }
    proof {
        assert(parts_of(parts@) =~= tickers_of(named@));
    }
    parts
}

/// Each failure as it is reported: the ticker, and why.
pub open spec fn failures_of(failed: Seq<(String, String)>) -> Seq<Seq<PieceView>> {
    Seq::new(failed.len(), |i: int| failure_of(failed[i]))
}

pub open spec fn failure_of(failure: (String, String)) -> Seq<PieceView> {
    said::name(failure.0@) + said::words(": "@) + said::words(failure.1@)
}

fn failures(failed: &Vec<(String, String)>) -> (parts: Vec<Said>)
    ensures
        parts_of(parts@) == failures_of(failed@),
{
    let mut parts: Vec<Said> = Vec::new();
    let mut at: usize = 0;
    while at < failed.len()
        invariant
            at <= failed@.len(),
            parts@.len() == at,
            forall|i: int| 0 <= i < at ==> (#[trigger] parts@[i])@ == failure_of(failed@[i]),
        decreases failed@.len() - at,
    {
        parts.push(Said::of_name(&failed[at].0).words(": ").words(&failed[at].1));
        at = at + 1;
    }
    proof {
        assert(parts_of(parts@) =~= failures_of(failed@));
    }
    parts
}

impl Refreshed {
    /// The words a refresh is reported in: honest about a run that updated
    /// some tickers and failed others.
    pub open spec fn words(self) -> Seq<PieceView> {
        let updated = joined(tickers_of(self.updated@), ", "@);
        let failed = joined(failures_of(self.failed@), "; "@);
        if self.updated@.len() == 0 && self.failed@.len() == 0 {
            said::words("nothing to refresh"@)
        } else if self.failed@.len() == 0 {
            said::words("refreshed "@) + updated
        } else if self.updated@.len() == 0 {
            said::words("failed to refresh "@) + failed
        } else {
            said::words("refreshed "@) + updated + said::words("; failed to refresh "@) + failed
        }
    }
}

/// What a refresh leaves on the status line.
pub fn refresh_status(refreshed: &Refreshed) -> (status: Said)
    ensures
        status@ == refreshed.words(),
{
    if refreshed.updated.len() == 0 && refreshed.failed.len() == 0 {
        return Said::of("nothing to refresh");
    }
    if refreshed.updated.len() == 0 {
        return Said::of("failed to refresh ").join(&join(&failures(&refreshed.failed), "; "));
    }
    let status = Said::of("refreshed ").join(&join(&tickers(&refreshed.updated), ", "));
    if refreshed.failed.len() > 0 {
        status.words("; failed to refresh ").join(&join(&failures(&refreshed.failed), "; "))
    } else {
        status
    }
}

/// The words a refresh is announced in.
pub open spec fn announced(tickers: Seq<String>) -> Seq<PieceView> {
    if tickers.len() == 1 {
        said::words("refreshing "@) + said::name(tickers[0]@) + said::words("..."@)
    } else {
        said::words("refreshing "@) + said::words(decimal(tickers.len() as int)) + said::words(
            " funds..."@,
        )
    }
}

/// What the status line says while a refresh has the screen frozen.
///
/// One ticker is named, several are counted: naming the one confirms which
/// row it was, and the count is the part that says how long this is going to
/// take.
pub fn refreshing_status(tickers: &[String]) -> (status: Said)
    ensures
        status@ == announced(tickers@),
{
    if tickers.len() == 1 {
        Said::of("refreshing ").name(&tickers[0]).words("...")
    } else {
        Said::of("refreshing ").words(&write_number(tickers.len() as u64)).words(" funds...")
    }
}

/// What a request to refresh `tickers` says, and whether there is anything to
/// fetch. Nothing is fetched without a contact to give, nor for no ticker.
pub open spec fn refresh_reply(contact: bool, tickers: Seq<String>) -> (Seq<PieceView>, bool) {
    if !contact {
        (
            said::words("no SEC contact configured -- add sec_contact to the config file"@),
            false,
        )
    } else if tickers.len() == 0 {
        (said::words("nothing to refresh"@), false)
    } else {
        (announced(tickers), true)
    }
}

/// Say what is about to happen, and whether the fetch is to follow.
///
/// The fetch blocks whoever runs it, so a sentence set beside it would not be
/// drawn until the fetch it describes was over: it is left for later.
pub fn announce_refresh(contact: bool, tickers: &[String]) -> (reply: (Said, bool))
    ensures
        (reply.0@, reply.1) == refresh_reply(contact, tickers@),
{
    if !contact {
        (Said::of("no SEC contact configured -- add sec_contact to the config file"), false)
    } else if tickers.len() == 0 {
        (Said::of("nothing to refresh"), false)
    } else {
        (refreshing_status(tickers), true)
    }
}

/// `Esc` drops a kept needle before it touches the account filter.
pub proof fn a_needle_goes_before_the_account(funds: FundsView, key: KeyEvent)
    requires
        key.code is Esc,
    ensures
        funds.list.search.needle().len() > 0 ==> ({
            let after = funds.pressed(key).0;
            &&& after.list.search.needle().len() == 0
            &&& after.dial == funds.dial
        }),
        funds.list.search.needle().len() == 0 ==> funds.pressed(key).0.account() is None,
{
}

/// Every holding an account filter leaves is that account's.
pub proof fn a_filter_leaves_one_accounts_holdings(funds: FundsView, place: int)
    requires
        funds.list.settled(),
        funds.list.filter.account is Some,
        0 <= place < funds.list.visible.len(),
    ensures
        funds.list.row(place).account.id.0 == funds.list.filter.account->0,
{
    crate::search::a_row_drawn_is_found(funds.list, place);
}

/// Whatever key is pressed, the holdings drawn are those the filter and the
/// needle leave and the cursor is among them.
pub proof fn the_funds_stay_settled(funds: FundsView, key: KeyEvent)
    requires
        funds.list.settled(),
    ensures
        funds.pressed(key).0.list.settled(),
        funds.dialled().list.settled(),
{
}

/// Stock is what is in U.S. and international stock. Each such slice adds its
/// own weight, and bonds, cash and what is not classified add nothing.
pub proof fn only_stock_slices_are_stock(slices: Seq<Slice>, next: Slice)
    ensures
        stock_in(Seq::empty()) == 0,
        next.class is UsStock || next.class is IntlStock ==> stock_in(slices.push(next))
            == stock_in(slices) + next.weight.0,
        next.class is UsBond || next.class is IntlBond || next.class is Cash
            || next.class is Unclassified ==> stock_in(slices.push(next)) == stock_in(slices),
{
    assert(slices.push(next).drop_last() =~= slices);
}

/// A holding is priced by the first composition on record under its ticker, and
/// is blank where none is.
pub proof fn a_holding_is_priced_by_its_own_fund(
    row: FundRow,
    holding: Holding,
    mixes: Seq<Mix>,
    accounts: Seq<InvestmentAccount>,
    at: int,
)
    requires
        row_of(row, holding, mixes, accounts),
    ensures
        row.id == holding.id,
        row.account.id == holding.account,
        row.ticker@ == holding.ticker@,
        row.balance == holding.balance,
        0 <= at < mixes.len() && mixes[at].ticker@ == holding.ticker@ && (forall|i: int|
            0 <= i < at ==> (#[trigger] mixes[i]).ticker@ != holding.ticker@)
            ==> {
            &&& row.stock_percent is Some
            &&& (row.stock_percent matches Some(share) && share.0 == stock_in(mixes[at].slices@))
            &&& row.as_of == Some(mixes[at].report_date)
            &&& (row.name is Some == mixes[at].name is Some)
            &&& (row.name is Some ==> row.name->0@ == mixes[at].name->0@)
        },
        (forall|i: int|
            0 <= i < mixes.len() ==> (#[trigger] mixes[i]).ticker@ != holding.ticker@) ==> {
            &&& row.stock_percent is None
            &&& row.as_of is None
            &&& row.name is None
        },
{
    lemma_mix_for(mixes, holding.ticker@, at);
}

proof fn lemma_mix_for(mixes: Seq<Mix>, ticker: Seq<char>, at: int)
    ensures
        0 <= at < mixes.len() && mixes[at].ticker@ == ticker && (forall|i: int|
            0 <= i < at ==> (#[trigger] mixes[i]).ticker@ != ticker)
            ==> mix_for(mixes, ticker) == Some(mixes[at]),
        (forall|i: int| 0 <= i < mixes.len() ==> (#[trigger] mixes[i]).ticker@ != ticker)
            ==> mix_for(mixes, ticker) is None,
    decreases mixes.len(),
{
    if mixes.len() > 0 {
        let rest = mixes.drop_first();
        lemma_mix_for(rest, ticker, at - 1);
        if 0 <= at < mixes.len() && mixes[at].ticker@ == ticker && (forall|i: int|
            0 <= i < at ==> (#[trigger] mixes[i]).ticker@ != ticker) {
            if at > 0 {
                assert(mixes[0].ticker@ != ticker);
                assert(rest[at - 1] == mixes[at]);
                assert forall|i: int| 0 <= i < at - 1 implies (
                #[trigger] rest[i]).ticker@ != ticker by {
                    assert(rest[i] == mixes[i + 1]);
                }
            }
        }
        if forall|i: int| 0 <= i < mixes.len() ==> (#[trigger] mixes[i]).ticker@ != ticker {
            assert(mixes[0].ticker@ != ticker);
            assert forall|i: int| 0 <= i < rest.len() implies (#[trigger] rest[i]).ticker@
                != ticker by {
                assert(rest[i] == mixes[i + 1]);
            }
        }
    }
}

/// A holding goes by the name and the tax treatment of its own account, and by
/// a question mark where that account is gone.
pub proof fn a_holding_names_its_own_account(
    accounts: Seq<InvestmentAccount>,
    id: AccountId,
    at: int,
)
    ensures
        0 <= at < accounts.len() && accounts[at].account.id == id && (forall|i: int|
            0 <= i < at ==> (#[trigger] accounts[i]).account.id != id)
            ==> account_word(accounts, id) == accounts[at].account.name@ && treatment_of(
            accounts,
            id,
        ) == accounts[at].tax_treatment,
        (forall|i: int| 0 <= i < accounts.len() ==> (#[trigger] accounts[i]).account.id != id)
            ==> account_word(accounts, id) == "?"@ && treatment_of(accounts, id) is None,
    decreases accounts.len(),
{
    if accounts.len() > 0 {
        let rest = accounts.drop_first();
        a_holding_names_its_own_account(rest, id, at - 1);
        if 0 <= at < accounts.len() && accounts[at].account.id == id && (forall|i: int|
            0 <= i < at ==> (#[trigger] accounts[i]).account.id != id) {
            if at > 0 {
                assert(accounts[0].account.id != id);
                assert(rest[at - 1] == accounts[at]);
                assert forall|i: int| 0 <= i < at - 1 implies (
                #[trigger] rest[i]).account.id != id by {
                    assert(rest[i] == accounts[i + 1]);
                }
            }
        }
        if forall|i: int| 0 <= i < accounts.len() ==> (#[trigger] accounts[i]).account.id != id {
            assert(accounts[0].account.id != id);
            assert forall|i: int| 0 <= i < rest.len() implies (#[trigger] rest[i]).account.id
                != id by {
                assert(rest[i] == accounts[i + 1]);
            }
        }
    }
}

/// A fund is made of the slices first listed beside it, wherever in the
/// list it stands, and one not listed of nothing known.
pub proof fn a_fund_is_made_of_its_own_slices(
    listed: Seq<(Seq<char>, Seq<Slice>)>,
    ticker: Seq<char>,
)
    ensures
        forall|at: int|
            0 <= at < listed.len() && (#[trigger] listed[at]).0 == ticker && (forall|other: int|
                0 <= other < at ==> (#[trigger] listed[other]).0
                    != ticker) ==> composition_of(listed, ticker) == Some(listed[at].1),
        (forall|at: int| 0 <= at < listed.len() ==> (#[trigger] listed[at]).0 != ticker)
            ==> composition_of(listed, ticker) is None,
    decreases listed.len(),
{
    if listed.len() > 0 {
        let rest = listed.drop_first();
        a_fund_is_made_of_its_own_slices(rest, ticker);
        assert forall|at: int|
            0 <= at < listed.len() && (#[trigger] listed[at]).0 == ticker && (forall|other: int|
                0 <= other < at ==> (#[trigger] listed[other]).0
                    != ticker) implies composition_of(listed, ticker) == Some(listed[at].1) by {
            if at > 0 {
                assert(listed[0].0 != ticker);
                assert(rest[at - 1] == listed[at]);
                assert forall|other: int|
                    0 <= other < at - 1 implies (#[trigger] rest[other]).0
                    != ticker by {
                    assert(rest[other] == listed[other + 1]);
                }
            }
        }
        if forall|at: int| 0 <= at < listed.len() ==> (#[trigger] listed[at]).0 != ticker {
            assert(listed[0].0 != ticker);
            assert forall|at: int| 0 <= at < rest.len() implies (#[trigger] rest[at]).0
                != ticker by {
                assert(rest[at] == listed[at + 1]);
            }
        }
    }
}

/// What is known of each fund is listed under its own ticker, in order.
pub proof fn each_fund_is_listed_under_its_ticker(mixes: Seq<Mix>, at: int)
    requires
        0 <= at < mixes.len(),
    ensures
        compositions(mixes).len() == mixes.len(),
        compositions(mixes)[at].0 == mixes[at].ticker@,
        compositions(mixes)[at].1 == mixes[at].slices@,
{
}

/// Funds are refreshed only where there is a contact to give and something to
/// refresh, and the reply says which of the two is missing.
pub proof fn a_refresh_needs_a_contact_and_a_fund(contact: bool, tickers: Seq<String>)
    ensures
        refresh_reply(contact, tickers).1 <==> contact && tickers.len() > 0,
        !contact ==> refresh_reply(contact, tickers).0 == said::words(
            "no SEC contact configured -- add sec_contact to the config file"@,
        ),
        contact && tickers.len() == 0 ==> refresh_reply(contact, tickers).0 == said::words(
            "nothing to refresh"@,
        ),
        contact && tickers.len() == 1 ==> refresh_reply(contact, tickers).0 == said::words(
            "refreshing "@,
        ) + said::name(tickers[0]@) + said::words("..."@),
        contact && tickers.len() > 1 ==> refresh_reply(contact, tickers).0 == said::words(
            "refreshing "@,
        ) + said::words(decimal(tickers.len() as int)) + said::words(" funds..."@),
{
}

/// A refresh names every fund it updated and every one it failed, each failure
/// with its reason.
pub proof fn a_refresh_names_every_fund(refreshed: Refreshed, at: int)
    ensures
        0 <= at < refreshed.updated@.len() ==> tickers_of(refreshed.updated@)[at] == said::name(
            refreshed.updated@[at]@,
        ),
        tickers_of(refreshed.updated@).len() == refreshed.updated@.len(),
        0 <= at < refreshed.failed@.len() ==> failures_of(refreshed.failed@)[at] == said::name(
            refreshed.failed@[at].0@,
        ) + said::words(": "@) + said::words(refreshed.failed@[at].1@),
        failures_of(refreshed.failed@).len() == refreshed.failed@.len(),
        refreshed.updated@.len() > 0 && refreshed.failed@.len() > 0 ==> refreshed.words()
            == said::words("refreshed "@) + joined(tickers_of(refreshed.updated@), ", "@)
            + said::words("; failed to refresh "@) + joined(failures_of(refreshed.failed@), "; "@),
        refreshed.updated@.len() > 0 && refreshed.failed@.len() == 0 ==> refreshed.words()
            == said::words("refreshed "@) + joined(tickers_of(refreshed.updated@), ", "@),
        refreshed.updated@.len() == 0 && refreshed.failed@.len() > 0 ==> refreshed.words()
            == said::words("failed to refresh "@) + joined(failures_of(refreshed.failed@), "; "@),
        refreshed.updated@.len() == 0 && refreshed.failed@.len() == 0 ==> refreshed.words()
            == said::words("nothing to refresh"@),
{
}

/// A holding is found by its ticker or by its fund's name, in the account the
/// list is narrowed to or in any.
pub proof fn a_holding_is_found_by_ticker_or_name(
    row: FundRow,
    filter: FundFilter,
    needle: Seq<char>,
)
    ensures
        row.found(filter, needle) <==> (filter.account is None || filter.account == Some(
            row.account.id.0,
        )) && (answers(row.ticker@, needle) || (row.name matches Some(name) && answers(
            name@,
            needle,
        ))),
{
}

} // verus!
