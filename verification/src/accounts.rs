//! The accounts screen: what an account is called and where it stands, which
//! savings block it holds, and which forms open on it.

use crate::cursor::is_scroll;
use crate::ids::AccountId;
use crate::key::{KeyCode, KeyEvent};
use crate::label::Account;
use crate::ledger::Kind;
use crate::search::{Listing, ListingView, Sought, Unfiltered};
use vstd::prelude::*;
use vstd::string::*;

verus! {

/// A block of savings, each of which one account may hold.
#[derive(Copy, Clone, Debug, PartialEq, Eq, Structural)]
pub enum SavingsBlock {
    Goals,
    Buckets,
}

impl SavingsBlock {
    /// The block's place in [`Containers`].
    pub open spec fn place(self) -> int {
        match self {
            SavingsBlock::Goals => 0,
            SavingsBlock::Buckets => 1,
        }
    }
}

/// A form that moves money, each of which may open on one account.
#[derive(Copy, Clone, Debug, PartialEq, Eq, Structural)]
pub enum Source {
    Transfer,
    Payment,
}

impl Source {
    /// The form's place in [`Defaults`].
    pub open spec fn place(self) -> int {
        match self {
            Source::Transfer => 0,
            Source::Payment => 1,
        }
    }
}

/// The account each savings block names, one for each block in its place.
pub type Containers = [Option<AccountId>; 2];

/// The account each money form opens on, one for each form in its place.
pub type Defaults = [Option<AccountId>; 2];

/// Which savings block a mapping gives `id`: the first naming it.
pub open spec fn block_held(containers: Seq<Option<AccountId>>, id: AccountId) -> Option<
    SavingsBlock,
> {
    if containers[0] == Some(id) {
        Some(SavingsBlock::Goals)
    } else if containers[1] == Some(id) {
        Some(SavingsBlock::Buckets)
    } else {
        None
    }
}

/// Which money forms a mapping opens on `id`, in their order.
pub open spec fn sources_held(defaults: Seq<Option<AccountId>>, id: AccountId) -> Seq<Source> {
    let transfer = if defaults[0] == Some(id) {
        seq![Source::Transfer]
    } else {
        Seq::empty()
    };
    if defaults[1] == Some(id) {
        transfer.push(Source::Payment)
    } else {
        transfer
    }
}

/// Which savings block `id` is the container for, if either, against a
/// mapping that has already been read.
pub fn block_of(containers: &Containers, id: AccountId) -> (block: Option<SavingsBlock>)
    ensures
        block == block_held(containers@, id),
{
    if names(containers[0], id) {
        Some(SavingsBlock::Goals)
    } else if names(containers[1], id) {
        Some(SavingsBlock::Buckets)
    } else {
        None
    }
}

/// Which money forms open on `id`, against a mapping that has already been
/// read. A list rather than an option: the two are independent, so an account
/// may answer for both.
pub fn sources_of(defaults: &Defaults, id: AccountId) -> (sources: Vec<Source>)
    ensures
        sources@ == sources_held(defaults@, id),
{
    let mut sources: Vec<Source> = Vec::new();
    if names(defaults[0], id) {
        sources.push(Source::Transfer);
    }
    if names(defaults[1], id) {
        sources.push(Source::Payment);
    }
    proof {
        assert(sources@ =~= sources_held(defaults@, id));
    }
    sources
}

fn names(account: Option<AccountId>, id: AccountId) -> (named: bool)
    ensures
        named == (account == Some(id)),
{
    match account {
        Some(named) => named == id,
        None => false,
    }
}

/// What a key of the mapping is written to.
#[derive(Copy, Clone, Debug, PartialEq, Eq, Structural)]
pub enum KeyWrite {
    /// Point it at the account.
    Point,
    /// It names the account and is not to: clear it.
    Clear,
    /// It names another account, or none.
    Keep,
}

/// What one key of a mapping is written to, given what it names and whether
/// it is to name `id`. A key is only ever cleared when `id` is what it names.
pub open spec fn key_write(named: Option<AccountId>, id: AccountId, wanted: bool) -> KeyWrite {
    if wanted {
        KeyWrite::Point
    } else if named == Some(id) {
        KeyWrite::Clear
    } else {
        KeyWrite::Keep
    }
}

/// What a key names once it has been written.
pub open spec fn key_after(named: Option<AccountId>, id: AccountId, write: KeyWrite) -> Option<
    AccountId,
> {
    match write {
        KeyWrite::Point => Some(id),
        KeyWrite::Clear => None,
        KeyWrite::Keep => named,
    }
}

fn write_for(named: Option<AccountId>, id: AccountId, wanted: bool) -> (write: KeyWrite)
    ensures
        write == key_write(named, id, wanted),
{
    if wanted {
        KeyWrite::Point
    } else if names(named, id) {
        KeyWrite::Clear
    } else {
        KeyWrite::Keep
    }
}

/// Point `id` at `block`, and off whichever block it held.
///
/// An account cannot claim both blocks; what it can do is move off the one it
/// had, and that has to clear the key rather than leave it naming an account
/// that no longer answers for it.
pub fn set_savings_block(
    containers: &Containers,
    id: AccountId,
    block: Option<SavingsBlock>,
) -> (writes: [KeyWrite; 2])
    ensures
        writes@[0] == key_write(containers@[0], id, block == Some(SavingsBlock::Goals)),
        writes@[1] == key_write(containers@[1], id, block == Some(SavingsBlock::Buckets)),
{
    let (goals, buckets) = match block {
        Some(SavingsBlock::Goals) => (true, false),
        Some(SavingsBlock::Buckets) => (false, true),
        None => (false, false),
    };
    [write_for(containers[0], id, goals), write_for(containers[1], id, buckets)]
}

/// Point the forms in `wanted` at `id`, and off whichever ones it used to
/// answer for.
///
/// The same rule as [`set_savings_block`]'s, over a set rather than one
/// value: one account may answer for both.
pub fn set_default_sources(defaults: &Defaults, id: AccountId, wanted: &Vec<Source>) -> (writes: [
    KeyWrite;
    2])
    ensures
        writes@[0] == key_write(defaults@[0], id, wanted@.contains(Source::Transfer)),
        writes@[1] == key_write(defaults@[1], id, wanted@.contains(Source::Payment)),
{
    [
        write_for(defaults[0], id, is_wanted(wanted, Source::Transfer)),
        write_for(defaults[1], id, is_wanted(wanted, Source::Payment)),
    ]
}

fn is_wanted(wanted: &Vec<Source>, source: Source) -> (found: bool)
    ensures
        found == wanted@.contains(source),
{
    let mut at: usize = 0;
    while at < wanted.len()
        invariant
            at <= wanted@.len(),
            forall|i: int| 0 <= i < at ==> wanted@[i] != source,
        decreases wanted@.len() - at,
    {
        if wanted[at] == source {
            return true;
        }
        at = at + 1;
    }
    false
}

/// One of the writes that saving an account stands for.
#[derive(Copy, Clone, Debug, PartialEq, Eq, Structural)]
pub enum AccountWrite {
    Name,
    Color,
    Group,
    Policy,
    /// Its place among the accounts of its kind.
    Order,
    Block(SavingsBlock, KeyWrite),
    Default(Source, KeyWrite),
}

/// The writes saving `id` stands for, in their order.
pub open spec fn account_writes_of(
    containers: Seq<Option<AccountId>>,
    defaults: Seq<Option<AccountId>>,
    id: AccountId,
    block: Option<SavingsBlock>,
    wanted: Seq<Source>,
) -> Seq<AccountWrite> {
    seq![
        AccountWrite::Name,
        AccountWrite::Color,
        AccountWrite::Group,
        AccountWrite::Policy,
        AccountWrite::Order,
        AccountWrite::Block(
            SavingsBlock::Goals,
            key_write(containers[0], id, block == Some(SavingsBlock::Goals)),
        ),
        AccountWrite::Block(
            SavingsBlock::Buckets,
            key_write(containers[1], id, block == Some(SavingsBlock::Buckets)),
        ),
        AccountWrite::Default(
            Source::Transfer,
            key_write(defaults[0], id, wanted.contains(Source::Transfer)),
        ),
        AccountWrite::Default(
            Source::Payment,
            key_write(defaults[1], id, wanted.contains(Source::Payment)),
        ),
    ]
}

/// The writes saving `id` stands for, in their order.
///
/// The order is written after the band, because it renumbers by position and
/// a band change could move the row. The keys read no column at all, which is
/// why they can follow.
pub fn account_writes(
    containers: &Containers,
    defaults: &Defaults,
    id: AccountId,
    block: Option<SavingsBlock>,
    wanted: &Vec<Source>,
) -> (writes: Vec<AccountWrite>)
    ensures
        writes@ == account_writes_of(containers@, defaults@, id, block, wanted@),
{
    let blocks = set_savings_block(containers, id, block);
    let sources = set_default_sources(defaults, id, wanted);
    let writes: Vec<AccountWrite> = vec![
        AccountWrite::Name,
        AccountWrite::Color,
        AccountWrite::Group,
        AccountWrite::Policy,
        AccountWrite::Order,
        AccountWrite::Block(SavingsBlock::Goals, blocks[0]),
        AccountWrite::Block(SavingsBlock::Buckets, blocks[1]),
        AccountWrite::Default(Source::Transfer, sources[0]),
        AccountWrite::Default(Source::Payment, sources[1]),
    ];
    proof {
        assert(writes@ =~= account_writes_of(containers@, defaults@, id, block, wanted@));
    }
    writes
}

/// An account as it is on record.
#[derive(Debug)]
pub struct AccountRecord {
    pub account: Account,
    pub code: String,
    pub kind: Kind,
    /// The band the overview groups it in.
    pub group: String,
    /// How its interest is posted.
    pub policy: String,
}

/// An account as the screen lists it.
#[derive(Debug)]
pub struct AccountRow {
    pub record: AccountRecord,
    pub block: Option<SavingsBlock>,
    pub defaults: Vec<Source>,
}

impl Sought for AccountRow {
    type Filter = Unfiltered;

    /// Nothing narrows this list.
    open spec fn found(&self, filter: Unfiltered, needle: Seq<char>) -> bool {
        true
    }

    fn is_found(&self, filter: Unfiltered, needle: &str) -> (found: bool) {
        true
    }
}

/// The rows the screen lists: one for each account, in order, with the block
/// it holds and the forms that open on it.
pub fn account_rows(accounts: Vec<AccountRecord>, containers: &Containers, defaults: &Defaults) -> (rows:
    Vec<AccountRow>)
    ensures
        rows@.len() == accounts@.len(),
        forall|i: int|
            0 <= i < rows@.len() ==> {
                let row = #[trigger] rows@[i];
                &&& row.record == accounts@[i]
                &&& row.block == block_held(containers@, accounts@[i].account.id)
                &&& row.defaults@ == sources_held(defaults@, accounts@[i].account.id)
            },
{
    let mut accounts = accounts;
    let ghost all = accounts@;
    let mut rows: Vec<AccountRow> = Vec::new();
    while accounts.len() > 0
        invariant
            accounts@.len() + rows@.len() == all.len(),
            forall|i: int| 0 <= i < accounts@.len() ==> accounts@[i] == all[rows@.len() + i],
            forall|i: int|
                0 <= i < rows@.len() ==> {
                    let row = #[trigger] rows@[i];
                    &&& row.record == all[i]
                    &&& row.block == block_held(containers@, all[i].account.id)
                    &&& row.defaults@ == sources_held(defaults@, all[i].account.id)
                },
        decreases accounts@.len(),
    {
        let record: AccountRecord = accounts.remove(0);
        let id = record.account.id;
        let block = block_of(containers, id);
        let sources = sources_of(defaults, id);
        rows.push(AccountRow { record, block, defaults: sources });
    }
    rows
}

/// How many of the first `upto` rows are accounts of `kind`.
pub open spec fn of_kind(rows: Seq<AccountRow>, kind: Kind, upto: int) -> int
    decreases upto,
{
    if upto <= 0 {
        0
    } else {
        of_kind(rows, kind, upto - 1) + (if rows[upto - 1].record.kind == kind {
            1int
        } else {
            0int
        })
    }
}

proof fn lemma_of_kind(rows: Seq<AccountRow>, kind: Kind, upto: int)
    requires
        0 <= upto <= rows.len(),
    ensures
        0 <= of_kind(rows, kind, upto) <= upto,
    decreases upto,
{
    if upto > 0 {
        lemma_of_kind(rows, kind, upto - 1);
    }
}

/// How many accounts of `kind` there are, which is where a new one is placed.
pub fn count_of_kind(rows: &Vec<AccountRow>, kind: Kind) -> (count: usize)
    ensures
        count == of_kind(rows@, kind, rows@.len() as int),
{
    let mut count: usize = 0;
    let mut at: usize = 0;
    while at < rows.len()
        invariant
            at <= rows@.len(),
            count == of_kind(rows@, kind, at as int),
        decreases rows@.len() - at,
    {
        proof {
            lemma_of_kind(rows@, kind, at as int);
        }
        if rows[at].record.kind == kind {
            count = count + 1;
        }
        at = at + 1;
    }
    count
}

/// The row listing `id`: past the last where none does.
pub open spec fn row_listing(rows: Seq<AccountRow>, id: AccountId, from: int) -> int
    decreases rows.len() - from,
{
    if from < 0 || from >= rows.len() || rows[from].record.account.id == id {
        from
    } else {
        row_listing(rows, id, from + 1)
    }
}

/// Where an account stands among those of its own kind, and how many there
/// are.
pub fn position_of(rows: &Vec<AccountRow>, id: AccountId) -> (position: Option<(usize, usize)>)
    ensures
        ({
            let at = row_listing(rows@, id, 0);
            if at < rows@.len() {
                let kind = rows@[at].record.kind;
                &&& position is Some
                &&& (position->0).0 == of_kind(rows@, kind, at)
                &&& (position->0).1 == of_kind(rows@, kind, rows@.len() as int)
            } else {
                position is None
            }
        }),
{
    let mut at: usize = 0;
    while at < rows.len() && rows[at].record.account.id != id
        invariant
            at <= rows@.len(),
            row_listing(rows@, id, 0) == row_listing(rows@, id, at as int),
        ensures
            at < rows@.len() ==> rows@[at as int].record.account.id == id,
        decreases rows@.len() - at,
    {
        at = at + 1;
    }
    if at == rows.len() {
        return None;
    }
    let kind: Kind = rows[at].record.kind;
    let mut place: usize = 0;
    let mut before: usize = 0;
    while before < at
        invariant
            before <= at < rows@.len(),
            place == of_kind(rows@, kind, before as int),
        decreases at - before,
    {
        proof {
            lemma_of_kind(rows@, kind, before as int);
        }
        if rows[before].record.kind == kind {
            place = place + 1;
        }
        before = before + 1;
    }
    Some((place, count_of_kind(rows, kind)))
}

/// What a key on the screen asks for.
#[derive(Copy, Clone, Debug, PartialEq, Eq, Structural)]
pub enum AccountsVerb {
    Answered,
    Add,
    Edit,
}

/// What a key leaves of the accounts, and what it asks for.
pub open spec fn accounts_pressed(list: ListingView<AccountRow>, key: KeyEvent) -> (
    ListingView<AccountRow>,
    AccountsVerb,
) {
    (
        list.scrolled(key.code),
        if is_scroll(key.code) {
            AccountsVerb::Answered
        } else if key.code == KeyCode::Char('a') {
            AccountsVerb::Add
        } else if key.code == KeyCode::Char('e') {
            AccountsVerb::Edit
        } else {
            AccountsVerb::Answered
        },
    )
}

/// Every key on the accounts.
pub fn accounts_key(list: &mut Listing<AccountRow>, key: KeyEvent) -> (verb: AccountsVerb)
    ensures
        (final(list)@, verb) == accounts_pressed(old(list)@, key),
{
    if list.scroll(key.code) {
        return AccountsVerb::Answered;
    }
    match key.code {
        KeyCode::Char('a') => AccountsVerb::Add,
        KeyCode::Char('e') => AccountsVerb::Edit,
        _ => AccountsVerb::Answered,
    }
}

/// Writing an account's block gives it that block and no other, and leaves
/// every other account the block it held unless it was the one taken.
pub proof fn a_block_is_written_for_one_account(
    containers: Seq<Option<AccountId>>,
    id: AccountId,
    block: Option<SavingsBlock>,
    other: AccountId,
)
    requires
        containers.len() == 2,
        other != id,
    ensures
        ({
            let after = seq![
                key_after(
                    containers[0],
                    id,
                    key_write(containers[0], id, block == Some(SavingsBlock::Goals)),
                ),
                key_after(
                    containers[1],
                    id,
                    key_write(containers[1], id, block == Some(SavingsBlock::Buckets)),
                ),
            ];
            &&& block_held(after, id) == block
            &&& containers[0] == Some(other) && block != Some(SavingsBlock::Goals) ==> after[0]
                == Some(other)
            &&& containers[1] == Some(other) && block != Some(SavingsBlock::Buckets) ==> after[1]
                == Some(other)
        }),
{
    let goals = key_write(containers[0], id, block == Some(SavingsBlock::Goals));
    let buckets = key_write(containers[1], id, block == Some(SavingsBlock::Buckets));
    let after = seq![
        key_after(containers[0], id, goals),
        key_after(containers[1], id, buckets),
    ];
    assert(after[0] == key_after(containers[0], id, goals));
    assert(after[1] == key_after(containers[1], id, buckets));
    match block {
        Some(SavingsBlock::Goals) => {},
        Some(SavingsBlock::Buckets) => {},
        None => {},
    }
}

/// Writing an account's forms opens exactly those on it, and leaves every
/// other account the forms that were not taken from it.
pub proof fn forms_are_written_for_one_account(
    defaults: Seq<Option<AccountId>>,
    id: AccountId,
    transfer: bool,
    payment: bool,
    other: AccountId,
)
    requires
        defaults.len() == 2,
        other != id,
    ensures
        ({
            let after = seq![
                key_after(defaults[0], id, key_write(defaults[0], id, transfer)),
                key_after(defaults[1], id, key_write(defaults[1], id, payment)),
            ];
            &&& (after[0] == Some(id)) == transfer
            &&& (after[1] == Some(id)) == payment
            &&& defaults[0] == Some(other) && !transfer ==> after[0] == Some(other)
            &&& defaults[1] == Some(other) && !payment ==> after[1] == Some(other)
        }),
{
}

/// An account holds a block exactly where that block's key names it, and a
/// form opens on it exactly where that form's key does.
pub proof fn a_key_is_read_for_what_it_names(
    containers: Seq<Option<AccountId>>,
    defaults: Seq<Option<AccountId>>,
    id: AccountId,
)
    requires
        containers.len() == 2,
        defaults.len() == 2,
    ensures
        containers[0] == Some(id) ==> block_held(containers, id) == Some(SavingsBlock::Goals),
        containers[0] != Some(id) && containers[1] == Some(id) ==> block_held(containers, id)
            == Some(SavingsBlock::Buckets),
        containers[0] != Some(id) && containers[1] != Some(id) ==> block_held(
            containers,
            id,
        ) is None,
        sources_held(defaults, id).contains(Source::Transfer) <==> defaults[0] == Some(id),
        sources_held(defaults, id).contains(Source::Payment) <==> defaults[1] == Some(id),
{
    let held = sources_held(defaults, id);
    if defaults[0] == Some(id) {
        assert(held[0] == Source::Transfer);
    }
    if defaults[1] == Some(id) {
        assert(held[held.len() - 1] == Source::Payment);
    }
}

/// Saving an account writes each of its keys once and nothing twice, its place
/// after its band, and clears no key that names another account.
pub proof fn an_account_is_saved_whole(
    containers: Seq<Option<AccountId>>,
    defaults: Seq<Option<AccountId>>,
    id: AccountId,
    block: Option<SavingsBlock>,
    wanted: Seq<Source>,
)
    requires
        containers.len() == 2,
        defaults.len() == 2,
    ensures
        ({
            let writes = account_writes_of(containers, defaults, id, block, wanted);
            &&& writes.contains(AccountWrite::Name)
            &&& writes.contains(AccountWrite::Color)
            &&& writes.contains(AccountWrite::Policy)
            &&& exists|i: int, j: int|
                0 <= i < j < writes.len() && #[trigger] writes[i] == AccountWrite::Group
                    && #[trigger] writes[j] == AccountWrite::Order
            &&& forall|i: int, j: int|
                0 <= i < j < writes.len() ==> #[trigger] writes[i] != #[trigger] writes[j]
            &&& writes.contains(AccountWrite::Block(SavingsBlock::Goals, KeyWrite::Point))
                <==> block == Some(SavingsBlock::Goals)
            &&& writes.contains(AccountWrite::Block(SavingsBlock::Buckets, KeyWrite::Point))
                <==> block == Some(SavingsBlock::Buckets)
            &&& writes.contains(AccountWrite::Block(SavingsBlock::Goals, KeyWrite::Clear))
                <==> block != Some(SavingsBlock::Goals) && containers[0] == Some(id)
            &&& writes.contains(AccountWrite::Block(SavingsBlock::Buckets, KeyWrite::Clear))
                <==> block != Some(SavingsBlock::Buckets) && containers[1] == Some(id)
            &&& writes.contains(AccountWrite::Default(Source::Transfer, KeyWrite::Point))
                <==> wanted.contains(Source::Transfer)
            &&& writes.contains(AccountWrite::Default(Source::Payment, KeyWrite::Point))
                <==> wanted.contains(Source::Payment)
            &&& writes.contains(AccountWrite::Default(Source::Transfer, KeyWrite::Clear))
                <==> !wanted.contains(Source::Transfer) && defaults[0] == Some(id)
            &&& writes.contains(AccountWrite::Default(Source::Payment, KeyWrite::Clear))
                <==> !wanted.contains(Source::Payment) && defaults[1] == Some(id)
        }),
{
    let writes = account_writes_of(containers, defaults, id, block, wanted);
    assert(writes[0] == AccountWrite::Name);
    assert(writes[1] == AccountWrite::Color);
    assert(writes[2] == AccountWrite::Group);
    assert(writes[3] == AccountWrite::Policy);
    assert(writes[4] == AccountWrite::Order);
    assert(writes[5] is Block && writes[6] is Block && writes[7] is Default && writes[8] is Default);
}

/// Each account counts among those of its own kind and of no other, and where
/// it stands is how many of them come before it.
pub proof fn an_account_counts_among_its_kind(rows: Seq<AccountRow>, kind: Kind, upto: int)
    requires
        0 <= upto < rows.len(),
    ensures
        of_kind(rows, kind, 0) == 0,
        rows[upto].record.kind == kind ==> of_kind(rows, kind, upto + 1) == of_kind(
            rows,
            kind,
            upto,
        ) + 1,
        rows[upto].record.kind != kind ==> of_kind(rows, kind, upto + 1) == of_kind(
            rows,
            kind,
            upto,
        ),
{
}

/// The row that lists an account is the first that has its id; there is none
/// where no row has it.
pub proof fn an_account_is_found_by_its_id(rows: Seq<AccountRow>, id: AccountId)
    ensures
        ({
            let at = row_listing(rows, id, 0);
            &&& 0 <= at <= rows.len()
            &&& at < rows.len() ==> rows[at].record.account.id == id
            &&& forall|i: int| 0 <= i < at ==> (#[trigger] rows[i]).record.account.id != id
        }),
{
    lemma_row_listing(rows, id, 0);
}

proof fn lemma_row_listing(rows: Seq<AccountRow>, id: AccountId, from: int)
    requires
        0 <= from <= rows.len(),
    ensures
        ({
            let at = row_listing(rows, id, from);
            &&& from <= at <= rows.len()
            &&& at < rows.len() ==> rows[at].record.account.id == id
            &&& forall|i: int| from <= i < at ==> (#[trigger] rows[i]).record.account.id != id
        }),
    decreases rows.len() - from,
{
    if from < rows.len() && rows[from].record.account.id != id {
        lemma_row_listing(rows, id, from + 1);
    }
}

} // verus!
