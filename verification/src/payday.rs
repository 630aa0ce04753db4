//! A payday: the transfers a plan calls for, and the worksheets they open on
//! the goals they land on.

use crate::date::{Date, DateView};
use crate::fault::Fault;
use crate::field::{dated, DateField, DateFieldView};
use crate::form_keys::arrow_step;
use crate::ids::{AccountId, GoalId};
use crate::key::{KeyCode, KeyEvent};
use crate::money::{fits, sum, sums_fit, total, Cents};
use crate::plan_line::{Destination, Line};
use crate::posting::amounts;
use crate::said::{self, PieceView, Said};
use crate::step::{week_step, Step};
use crate::text::{decimal, quoted, write_number};
use vstd::prelude::*;
use vstd::string::*;

verus! {

/// How far either side of the transfer date a payday already written is
/// looked for, in business days.
///
/// Wide enough to reach the day a run being corrected landed on, and narrow
/// enough that it cannot reach the payday before this one, which is ten
/// business days back.
pub const DUPLICATE_SCAN_DAYS: i64 = 2;

/// Where `goal` first stands among `shares`: past the last where it has none.
pub open spec fn share_place(shares: Seq<(GoalId, Cents)>, goal: GoalId) -> int
    decreases shares.len(),
{
    if shares.len() == 0 || shares[0].0 == goal {
        0
    } else {
        1 + share_place(shares.drop_first(), goal)
    }
}

/// What `goal` is down for.
pub open spec fn share_of(shares: Seq<(GoalId, Cents)>, goal: GoalId) -> int {
    let at = share_place(shares, goal);
    if at < shares.len() {
        shares[at].1.0 as int
    } else {
        0
    }
}

/// The shares with `amount` added to whatever `goal` is down for.
pub open spec fn with_share(
    shares: Seq<(GoalId, Cents)>,
    goal: GoalId,
    amount: Cents,
) -> Seq<(GoalId, Cents)> {
    let at = share_place(shares, goal);
    if at < shares.len() {
        shares.update(at, (goal, Cents((shares[at].1.0 + amount.0) as i64)))
    } else {
        shares.push((goal, amount))
    }
}

proof fn lemma_share_place(shares: Seq<(GoalId, Cents)>, goal: GoalId, at: int)
    requires
        0 <= at <= shares.len(),
        forall|i: int| 0 <= i < at ==> (#[trigger] shares[i]).0 != goal,
        at < shares.len() ==> shares[at].0 == goal,
    ensures
        share_place(shares, goal) == at,
    decreases at,
{
    if at > 0 {
        assert(shares[0].0 != goal);
        let rest = shares.drop_first();
        assert forall|i: int| 0 <= i < at - 1 implies (#[trigger] rest[i]).0 != goal by {
            assert(rest[i] == shares[i + 1]);
        }
        lemma_share_place(rest, goal, at - 1);
    }
}

proof fn lemma_place_found(shares: Seq<(GoalId, Cents)>, goal: GoalId)
    ensures
        0 <= share_place(shares, goal) <= shares.len(),
        share_place(shares, goal) < shares.len() ==> shares[share_place(shares, goal)].0 == goal,
        forall|i: int|
            0 <= i < share_place(shares, goal) ==> (#[trigger] shares[i]).0 != goal,
    decreases shares.len(),
{
    if shares.len() > 0 && shares[0].0 != goal {
        let rest = shares.drop_first();
        lemma_place_found(rest, goal);
        assert forall|i: int| 0 <= i < share_place(shares, goal) implies (
        #[trigger] shares[i]).0 != goal by {
            if i > 0 {
                assert(shares[i] == rest[i - 1]);
            }
        }
    }
}

fn find_share(shares: &Vec<(GoalId, Cents)>, goal: GoalId) -> (at: usize)
    ensures
        at == share_place(shares@, goal),
        at <= shares@.len(),
        at < shares@.len() ==> shares@[at as int].0 == goal,
{
    let mut at: usize = 0;
    while at < shares.len() && shares[at].0 != goal
        invariant
            at <= shares@.len(),
            forall|i: int| 0 <= i < at ==> (#[trigger] shares@[i]).0 != goal,
        ensures
            at < shares@.len() ==> shares@[at as int].0 == goal,
        decreases shares@.len() - at,
    {
        at = at + 1;
    }
    proof {
        lemma_share_place(shares@, goal, at as int);
    }
    at
}

/// What `goal` is down for: nothing, where it has no share.
pub fn down_for(shares: &Vec<(GoalId, Cents)>, goal: GoalId) -> (cents: Cents)
    ensures
        cents.0 == share_of(shares@, goal),
{
    let at: usize = find_share(shares, goal);
    if at < shares.len() {
        shares[at].1
    } else {
        Cents::zero()
    }
}

/// Add `amount` to whatever `goal` is already down for.
///
/// Two lines of a plan may name one goal, and the transfer merges such lines
/// into one. A second entry under the same id would leave a sheet short by
/// the second line.
pub fn add_share(shares: &mut Vec<(GoalId, Cents)>, goal: GoalId, amount: Cents)
    requires
        fits(share_of(old(shares)@, goal) + amount.0),
    ensures
        final(shares)@ == with_share(old(shares)@, goal, amount),
{
    let at: usize = find_share(shares, goal);
    if at < shares.len() {
        let held: Cents = shares[at].1;
        shares.set(at, (goal, Cents(held.0 + amount.0)));
    } else {
        shares.push((goal, amount));
    }
}

/// No goal is down twice.
pub open spec fn once_each(shares: Seq<(GoalId, Cents)>) -> bool {
    forall|i: int, j: int|
        0 <= i < j < shares.len() ==> (#[trigger] shares[i]).0 != (#[trigger] shares[j]).0
}

/// What the shares come to.
pub open spec fn shared_total(shares: Seq<(GoalId, Cents)>) -> int
    decreases shares.len(),
{
    if shares.len() == 0 {
        0
    } else {
        shared_total(shares.drop_last()) + shares.last().1.0
    }
}

proof fn lemma_total_updated(shares: Seq<(GoalId, Cents)>, at: int, share: (GoalId, Cents))
    requires
        0 <= at < shares.len(),
    ensures
        shared_total(shares.update(at, share)) == shared_total(shares) + share.1.0
            - shares[at].1.0,
    decreases shares.len(),
{
    let after = shares.update(at, share);
    if at == shares.len() - 1 {
        assert(after.drop_last() =~= shares.drop_last());
    } else {
        lemma_total_updated(shares.drop_last(), at, share);
        assert(after.drop_last() =~= shares.drop_last().update(at, share));
    }
}

/// However many lines name a goal it is down once, for all they came to; no
/// other goal is touched, and nothing of the money is lost.
pub proof fn a_share_is_added_to_one_goal(
    shares: Seq<(GoalId, Cents)>,
    goal: GoalId,
    amount: Cents,
    other: GoalId,
)
    requires
        once_each(shares),
        other != goal,
        fits(share_of(shares, goal) + amount.0),
    ensures
        once_each(with_share(shares, goal, amount)),
        share_of(with_share(shares, goal, amount), goal) == share_of(shares, goal) + amount.0,
        share_of(with_share(shares, goal, amount), other) == share_of(shares, other),
        shared_total(with_share(shares, goal, amount)) == shared_total(shares) + amount.0,
{
    let at = share_place(shares, goal);
    let after = with_share(shares, goal, amount);
    lemma_place_found(shares, goal);
    lemma_place_found(shares, other);
    lemma_share_place(after, goal, at);
    let place = share_place(shares, other);
    if at < shares.len() {
        lemma_total_updated(shares, at, after[at]);
        lemma_share_place(after, other, place);
    } else {
        assert(after.drop_last() =~= shares);
        if place < shares.len() {
            lemma_share_place(after, other, place);
        } else {
            lemma_share_place(after, other, after.len() as int);
        }
    }
}

/// One movement a payday makes.
#[derive(Debug)]
pub enum TransferRow {
    /// Into an account, for the lines that land there.
    Transfer { to: AccountId, cents: Cents, lines: Vec<(Line, Cents)> },
    /// Out of the books.
    Withdrawal { line: Line, cents: Cents },
}

impl TransferRow {
    pub open spec fn amount(self) -> Cents {
        match self {
            TransferRow::Transfer { cents, .. } => cents,
            TransferRow::Withdrawal { cents, .. } => cents,
        }
    }

    pub fn cents(&self) -> (cents: Cents)
        ensures
            cents == self.amount(),
    {
        match self {
            TransferRow::Transfer { cents, .. } => *cents,
            TransferRow::Withdrawal { cents, .. } => *cents,
        }
    }
}

/// What each movement comes to.
pub open spec fn amounts_of(rows: Seq<TransferRow>) -> Seq<Cents> {
    Seq::new(rows.len(), |i: int| rows[i].amount())
}

/// What a payday's movements come to together, where that fits.
pub fn transfers_total(rows: &Vec<TransferRow>) -> (all: Option<Cents>)
    ensures
        match all {
            Some(all) => all.0 == sum(amounts_of(rows@)) && sums_fit(amounts_of(rows@)),
            None => !sums_fit(amounts_of(rows@)),
        },
{
    let mut amounts: Vec<Cents> = Vec::new();
    let mut at: usize = 0;
    while at < rows.len()
        invariant
            at <= rows@.len(),
            amounts@ == amounts_of(rows@.take(at as int)),
        decreases rows@.len() - at,
    {
        amounts.push(rows[at].cents());
        at = at + 1;
        proof {
            assert(amounts@ =~= amounts_of(rows@.take(at as int)));
        }
    }
    proof {
        assert(rows@.take(at as int) =~= rows@);
    }
    total(&amounts)
}

/// The words a payday is reported in.
pub open spec fn wrote_words(rows: int, all: Cents) -> Seq<PieceView> {
    said::words("wrote "@) + said::words(decimal(rows)) + said::words(" transfers, "@)
        + said::amount(all)
}

/// What the status line says of a payday that was written.
pub fn wrote_status(rows: usize, all: Cents) -> (status: Said)
    ensures
        status@ == wrote_words(rows as int, all),
{
    Said::of("wrote ").words(&write_number(rows as u64)).words(" transfers, ").amount(all)
}

/// The goal a line points at, if it points at one.
pub open spec fn pointed_at(pointed: Seq<(Line, GoalId)>, line: Line) -> Option<GoalId>
    decreases pointed.len(),
{
    if pointed.len() == 0 {
        None
    } else if pointed[0].0 == line {
        Some(pointed[0].1)
    } else {
        pointed_at(pointed.drop_first(), line)
    }
}

fn find_pointed(pointed: &Vec<(Line, GoalId)>, line: Line) -> (goal: Option<GoalId>)
    ensures
        goal == pointed_at(pointed@, line),
{
    let mut at: usize = 0;
    proof {
        assert(pointed@.skip(0) =~= pointed@);
    }
    while at < pointed.len()
        invariant
            at <= pointed@.len(),
            pointed_at(pointed@, line) == pointed_at(pointed@.skip(at as int), line),
        decreases pointed@.len() - at,
    {
        proof {
            assert(pointed@.skip(at as int).drop_first() =~= pointed@.skip(at + 1));
        }
        if pointed[at].0 == line {
            return Some(pointed[at].1);
        }
        at = at + 1;
    }
    None
}

/// What the plug comes to once it is fitted to what its goals ask, in the
/// container it lands in.
#[derive(Debug)]
pub struct Spread {
    pub container: Option<AccountId>,
    /// What every goal no line claims asks, whatever its container.
    pub asks: Vec<Ask>,
    pub shares: Vec<(GoalId, Cents)>,
}

/// The plug among a transfer's lines: the first that is spread and is not
/// nothing.
pub open spec fn plug_among(lines: Seq<(Line, Cents)>) -> Option<Cents>
    decreases lines.len(),
{
    if lines.len() == 0 {
        None
    } else if lines[0].0.lands_in() is Spread && lines[0].1.0 != 0 {
        Some(lines[0].1)
    } else {
        plug_among(lines.drop_first())
    }
}

/// The plug a payday brings `container`.
pub open spec fn plug_of(rows: Seq<TransferRow>, container: AccountId) -> Option<Cents>
    decreases rows.len(),
{
    if rows.len() == 0 {
        None
    } else {
        match rows[0] {
            TransferRow::Transfer { to, lines, .. } if to == container && plug_among(
                lines@,
            ) is Some => plug_among(lines@),
            _ => plug_of(rows.drop_first(), container),
        }
    }
}

fn find_plug(lines: &Vec<(Line, Cents)>) -> (plug: Option<Cents>)
    ensures
        plug == plug_among(lines@),
{
    let mut at: usize = 0;
    proof {
        assert(lines@.skip(0) =~= lines@);
    }
    while at < lines.len()
        invariant
            at <= lines@.len(),
            plug_among(lines@) == plug_among(lines@.skip(at as int)),
        decreases lines@.len() - at,
    {
        proof {
            assert(lines@.skip(at as int).drop_first() =~= lines@.skip(at + 1));
        }
        let (line, cents) = lines[at];
        if let Destination::Spread = line.destination() {
            if cents.0 != 0 {
                return Some(cents);
            }
        }
        at = at + 1;
    }
    None
}

fn plug_in(rows: &Vec<TransferRow>, container: AccountId) -> (plug: Option<Cents>)
    ensures
        plug == plug_of(rows@, container),
{
    let mut at: usize = 0;
    proof {
        assert(rows@.skip(0) =~= rows@);
    }
    while at < rows.len()
        invariant
            at <= rows@.len(),
            plug_of(rows@, container) == plug_of(rows@.skip(at as int), container),
        decreases rows@.len() - at,
    {
        proof {
            assert(rows@.skip(at as int).drop_first() =~= rows@.skip(at + 1));
        }
        if let TransferRow::Transfer { to, lines, .. } = &rows[at] {
            if *to == container {
                if let Some(plug) = find_plug(lines) {
                    return Some(plug);
                }
            }
        }
        at = at + 1;
    }
    None
}

/// What the plug of a payday is fitted to: how much it is, and the asks of
/// the goals in the container it lands in. Nothing, where there is no plug.
pub open spec fn plug_asks_of(
    rows: Seq<TransferRow>,
    container: Option<AccountId>,
    asks: Seq<Ask>,
) -> Option<(Cents, Seq<(GoalId, Cents)>)> {
    match container {
        Some(id) => match plug_of(rows, id) {
            Some(plug) => Some((plug, asks_within(asks, id))),
            None => None,
        },
        None => None,
    }
}

/// What the plug of a payday is fitted to.
pub fn plug_asks(rows: &Vec<TransferRow>, container: Option<AccountId>, asks: &Vec<Ask>) -> (plug:
    Option<(Cents, Vec<(GoalId, Cents)>)>)
    ensures
        match plug {
            Some((plug, asked)) => plug_asks_of(rows@, container, asks@) == Some((plug, asked@)),
            None => plug_asks_of(rows@, container, asks@) is None,
        },
{
    let id = container?;
    match plug_in(rows, id) {
        Some(plug) => Some((plug, asks_in(asks, id))),
        None => None,
    }
}

/// Whether `shares` fit a plug to what is asked of it. Asks that fit are met
/// in full, and the rest of the plug is left to be placed by hand; asks that
/// do not are met out of the plug and no further.
pub open spec fn fitted(
    plug: Cents,
    asked: Seq<(GoalId, Cents)>,
    shares: Seq<(GoalId, Cents)>,
) -> bool {
    if sum(amounts(asked)) <= plug.0 {
        shares == asked
    } else {
        sum(amounts(shares)) <= plug.0
    }
}

impl Spread {
    /// The shares are what the plug of `rows` comes to, fitted to its asks.
    pub open spec fn fits_plug(self, rows: Seq<TransferRow>) -> bool {
        plug_asks_of(rows, self.container, self.asks@) matches Some((plug, asked)) ==> fitted(
            plug,
            asked,
            self.shares@,
        )
    }

    fn is_fitted(&self, rows: &Vec<TransferRow>) -> (fits: bool)
        ensures
            fits == self.fits_plug(rows@),
    {
        match plug_asks(rows, self.container, &self.asks) {
            Some((plug, asked)) => if wide_total(&asked) <= plug.0 as i128 {
                same_shares(&self.shares, &asked)
            } else {
                wide_total(&self.shares) <= plug.0 as i128
            },
            None => true,
        }
    }
}

proof fn lemma_wide(shares: Seq<(GoalId, Cents)>)
    ensures
        -0x8000_0000_0000_0000 * shares.len() <= sum(amounts(shares)) <= 0x8000_0000_0000_0000
            * shares.len(),
    decreases shares.len(),
{
    if shares.len() > 0 {
        lemma_wide(shares.drop_last());
        assert(amounts(shares).drop_last() =~= amounts(shares.drop_last()));
    }
}

fn wide_total(shares: &Vec<(GoalId, Cents)>) -> (all: i128)
    ensures
        all == sum(amounts(shares@)),
{
    let mut all: i128 = 0;
    let mut at: usize = 0;
    while at < shares.len()
        invariant
            at <= shares@.len(),
            all == sum(amounts(shares@.take(at as int))),
        decreases shares@.len() - at,
    {
        proof {
            lemma_wide(shares@.take(at as int));
            let next = amounts(shares@.take(at + 1));
            assert(next.drop_last() =~= amounts(shares@.take(at as int)));
        }
        all = all + shares[at].1.0 as i128;
        at = at + 1;
    }
    proof {
        assert(shares@.take(at as int) =~= shares@);
    }
    all
}

fn same_shares(one: &Vec<(GoalId, Cents)>, other: &Vec<(GoalId, Cents)>) -> (same: bool)
    ensures
        same == (one@ == other@),
{
    if one.len() != other.len() {
        return false;
    }
    let mut at: usize = 0;
    while at < one.len()
        invariant
            at <= one@.len(),
            one@.len() == other@.len(),
            forall|i: int| 0 <= i < at ==> one@[i] == other@[i],
        decreases one@.len() - at,
    {
        if one[at].0 != other[at].0 || one[at].1 != other[at].1 {
            assert(one@[at as int] != other@[at as int]);
            return false;
        }
        at = at + 1;
    }
    proof {
        assert(one@ =~= other@);
    }
    true
}

/// One after another, `added` to `shares`; nothing where a share would not
/// fit.
pub open spec fn with_shares(
    shares: Seq<(GoalId, Cents)>,
    added: Seq<(GoalId, Cents)>,
) -> Option<Seq<(GoalId, Cents)>>
    decreases added.len(),
{
    if added.len() == 0 {
        Some(shares)
    } else {
        match with_shares(shares, added.drop_last()) {
            Some(before) => {
                let (goal, amount) = added.last();
                if fits(share_of(before, goal) + amount.0) {
                    Some(with_share(before, goal, amount))
                } else {
                    None
                }
            },
            None => None,
        }
    }
}

/// What one line adds to the shares of the container it lands in: the goal it
/// points at takes it whole, the plug is spread over what its goals ask, and a
/// line that names an account allocates nothing.
pub open spec fn line_adds(
    line: Line,
    amount: Cents,
    to: AccountId,
    pointed: Seq<(Line, GoalId)>,
    spread: Spread,
) -> Seq<(GoalId, Cents)> {
    match line.lands_in() {
        Destination::Goal => match pointed_at(pointed, line) {
            Some(goal) => seq![(goal, amount)],
            None => Seq::empty(),
        },
        Destination::Spread => if spread.container == Some(to) && amount.0 != 0 {
            spread.shares@
        } else {
            Seq::empty()
        },
        Destination::Account => Seq::empty(),
    }
}

/// The shares a transfer's lines come to; nothing where one would not fit.
pub open spec fn shares_of(
    lines: Seq<(Line, Cents)>,
    to: AccountId,
    pointed: Seq<(Line, GoalId)>,
    spread: Spread,
) -> Option<Seq<(GoalId, Cents)>>
    decreases lines.len(),
{
    if lines.len() == 0 {
        Some(Seq::empty())
    } else {
        match shares_of(lines.drop_last(), to, pointed, spread) {
            Some(before) => with_shares(
                before,
                line_adds(lines.last().0, lines.last().1, to, pointed, spread),
            ),
            None => None,
        }
    }
}

/// A worksheet waiting to open: the container, the date its transfer was
/// written for, its pot, and the shares it opens with.
#[derive(Debug)]
pub struct Prefill {
    pub container: AccountId,
    pub date: Date,
    pub pot: Cents,
    pub shares: Vec<(GoalId, Cents)>,
}

/// What a [`Prefill`] stands for.
pub struct PrefillView {
    pub container: AccountId,
    pub date: DateView,
    pub pot: Cents,
    pub shares: Seq<(GoalId, Cents)>,
}

impl View for Prefill {
    type V = PrefillView;

    open spec fn view(&self) -> PrefillView {
        PrefillView {
            container: self.container,
            date: self.date@,
            pot: self.pot,
            shares: self.shares@,
        }
    }
}

pub open spec fn prefills_view(prefills: Seq<Prefill>) -> Seq<PrefillView> {
    Seq::new(prefills.len(), |i: int| prefills[i]@)
}

/// What a goal no line claims asks of a paycheck.
#[derive(Copy, Clone, Debug, PartialEq, Eq, Structural)]
pub struct Ask {
    pub goal: GoalId,
    pub container: AccountId,
    pub cents: Cents,
}

/// The asks of one container's goals, in order.
pub open spec fn asks_within(asks: Seq<Ask>, container: AccountId) -> Seq<(GoalId, Cents)>
    decreases asks.len(),
{
    if asks.len() == 0 {
        Seq::empty()
    } else {
        let before = asks_within(asks.drop_last(), container);
        if asks.last().container == container {
            before.push((asks.last().goal, asks.last().cents))
        } else {
            before
        }
    }
}

/// What the plug is fitted to: the asks of the goals in the container it
/// lands in, and no other's.
pub fn asks_in(asks: &Vec<Ask>, container: AccountId) -> (within: Vec<(GoalId, Cents)>)
    ensures
        within@ == asks_within(asks@, container),
{
    let mut within: Vec<(GoalId, Cents)> = Vec::new();
    let mut at: usize = 0;
    while at < asks.len()
        invariant
            at <= asks@.len(),
            within@ == asks_within(asks@.take(at as int), container),
        decreases asks@.len() - at,
    {
        proof {
            assert(asks@.take(at + 1).drop_last() =~= asks@.take(at as int));
        }
        if asks[at].container == container {
            within.push((asks[at].goal, asks[at].cents));
        }
        at = at + 1;
    }
    proof {
        assert(asks@.take(at as int) =~= asks@);
    }
    within
}

/// One prefilled worksheet per container a transfer landed in, in order;
/// nothing where a share would not fit. A transfer every line of which names
/// an account has nothing to allocate and opens none.
pub open spec fn prefills_of(
    date: DateView,
    rows: Seq<TransferRow>,
    pointed: Seq<(Line, GoalId)>,
    spread: Spread,
) -> Option<Seq<PrefillView>>
    decreases rows.len(),
{
    if rows.len() == 0 {
        Some(Seq::empty())
    } else {
        match (prefills_of(date, rows.drop_last(), pointed, spread), rows.last()) {
            (Some(before), TransferRow::Transfer { to, cents, lines }) => match shares_of(
                lines@,
                to,
                pointed,
                spread,
            ) {
                Some(shares) => if shares.len() > 0 {
                    Some(before.push(PrefillView { container: to, date, pot: cents, shares }))
                } else {
                    Some(before)
                },
                None => None,
            },
            (before, TransferRow::Withdrawal { .. }) => before,
            (None, _) => None,
        }
    }
}

proof fn lemma_no_shares(
    shares: Seq<(GoalId, Cents)>,
    added: Seq<(GoalId, Cents)>,
    at: int,
)
    requires
        0 <= at <= added.len(),
        with_shares(shares, added.take(at)) is None,
    ensures
        with_shares(shares, added) is None,
    decreases added.len() - at,
{
    if at < added.len() {
        assert(added.take(at + 1).drop_last() =~= added.take(at));
        lemma_no_shares(shares, added, at + 1);
    } else {
        assert(added.take(at) =~= added);
    }
}

fn add_shares(shares: &mut Vec<(GoalId, Cents)>, added: &Vec<(GoalId, Cents)>) -> (fitted: bool)
    ensures
        match with_shares(old(shares)@, added@) {
            Some(after) => fitted && final(shares)@ == after,
            None => !fitted,
        },
{
    let ghost start = shares@;
    let mut at: usize = 0;
    while at < added.len()
        invariant
            at <= added@.len(),
            start == old(shares)@,
            with_shares(start, added@.take(at as int)) == Some(shares@),
        decreases added@.len() - at,
    {
        proof {
            assert(added@.take(at + 1).drop_last() =~= added@.take(at as int));
        }
        let (goal, amount) = added[at];
        if !has_room(shares, goal, amount) {
            proof {
                lemma_no_shares(start, added@, at + 1);
            }
            return false;
        }
        add_share(shares, goal, amount);
        at = at + 1;
    }
    proof {
        assert(added@.take(at as int) =~= added@);
    }
    true
}

fn has_room(shares: &Vec<(GoalId, Cents)>, goal: GoalId, amount: Cents) -> (room: bool)
    ensures
        room == fits(share_of(shares@, goal) + amount.0),
{
    let at: usize = find_share(shares, goal);
    if at < shares.len() {
        let all: i128 = shares[at].1.0 as i128 + amount.0 as i128;
        i64::MIN as i128 <= all && all <= i64::MAX as i128
    } else {
        true
    }
}

fn line_shares(
    line: Line,
    amount: Cents,
    to: AccountId,
    pointed: &Vec<(Line, GoalId)>,
    spread: &Spread,
) -> (added: Vec<(GoalId, Cents)>)
    ensures
        added@ == line_adds(line, amount, to, pointed@, *spread),
{
    let mut added: Vec<(GoalId, Cents)> = Vec::new();
    match line.destination() {
        Destination::Goal => {
            if let Some(goal) = find_pointed(pointed, line) {
                added.push((goal, amount));
            }
        },
        Destination::Spread => {
            let here = match spread.container {
                Some(container) => container == to,
                None => false,
            };
            if here && amount.0 != 0 {
                return copy_shares(&spread.shares);
            }
        },
        Destination::Account => {},
    }
    proof {
        assert(added@ =~= line_adds(line, amount, to, pointed@, *spread));
    }
    added
}

fn copy_shares(shares: &Vec<(GoalId, Cents)>) -> (copy: Vec<(GoalId, Cents)>)
    ensures
        copy@ == shares@,
{
    let mut copy: Vec<(GoalId, Cents)> = Vec::new();
    let mut at: usize = 0;
    while at < shares.len()
        invariant
            at <= shares@.len(),
            copy@ == shares@.take(at as int),
        decreases shares@.len() - at,
    {
        copy.push(shares[at]);
        at = at + 1;
        proof {
            assert(copy@ =~= shares@.take(at as int));
        }
    }
    proof {
        assert(shares@.take(at as int) =~= shares@);
    }
    copy
}

proof fn lemma_no_lines(
    lines: Seq<(Line, Cents)>,
    to: AccountId,
    pointed: Seq<(Line, GoalId)>,
    spread: Spread,
    at: int,
)
    requires
        0 <= at <= lines.len(),
        shares_of(lines.take(at), to, pointed, spread) is None,
    ensures
        shares_of(lines, to, pointed, spread) is None,
    decreases lines.len() - at,
{
    if at < lines.len() {
        assert(lines.take(at + 1).drop_last() =~= lines.take(at));
        lemma_no_lines(lines, to, pointed, spread, at + 1);
    } else {
        assert(lines.take(at) =~= lines);
    }
}

fn row_shares(
    lines: &Vec<(Line, Cents)>,
    to: AccountId,
    pointed: &Vec<(Line, GoalId)>,
    spread: &Spread,
) -> (shares: Option<Vec<(GoalId, Cents)>>)
    ensures
        match shares_of(lines@, to, pointed@, *spread) {
            Some(all) => shares is Some && shares->0@ == all,
            None => shares is None,
        },
{
    let mut shares: Vec<(GoalId, Cents)> = Vec::new();
    let mut at: usize = 0;
    while at < lines.len()
        invariant
            at <= lines@.len(),
            shares_of(lines@.take(at as int), to, pointed@, *spread) == Some(shares@),
        decreases lines@.len() - at,
    {
        proof {
            assert(lines@.take(at + 1).drop_last() =~= lines@.take(at as int));
        }
        let (line, amount) = lines[at];
        let added = line_shares(line, amount, to, pointed, spread);
        if !add_shares(&mut shares, &added) {
            proof {
                lemma_no_lines(lines@, to, pointed@, *spread, at + 1);
            }
            return None;
        }
        at = at + 1;
    }
    proof {
        assert(lines@.take(at as int) =~= lines@);
    }
    Some(shares)
}

proof fn lemma_no_prefills(
    date: DateView,
    rows: Seq<TransferRow>,
    pointed: Seq<(Line, GoalId)>,
    spread: Spread,
    at: int,
)
    requires
        0 <= at <= rows.len(),
        prefills_of(date, rows.take(at), pointed, spread) is None,
    ensures
        prefills_of(date, rows, pointed, spread) is None,
    decreases rows.len() - at,
{
    if at < rows.len() {
        assert(rows.take(at + 1).drop_last() =~= rows.take(at));
        lemma_no_prefills(date, rows, pointed, spread, at + 1);
    } else {
        assert(rows.take(at) =~= rows);
    }
}

/// One prefilled worksheet per container a transfer landed in.
///
/// Each container's lines are the goals its own lines of the plan name, at
/// those lines' amounts; the container holding the unclaimed goals also
/// carries the plug, as it was fitted to what they ask. `date` is the
/// transfer's, and each sheet opens on it: an allocation is the transfer read
/// from the container's side.
pub fn worksheet_prefills(
    date: Date,
    rows: &Vec<TransferRow>,
    pointed: &Vec<(Line, GoalId)>,
    spread: &Spread,
) -> (prefills: Option<Vec<Prefill>>)
    ensures
        match prefills_of(date@, rows@, pointed@, *spread) {
            Some(all) => prefills is Some && prefills_view(prefills->0@) == all,
            None => prefills is None,
        },
{
    let mut prefills: Vec<Prefill> = Vec::new();
    let mut at: usize = 0;
    proof {
        assert(prefills_view(prefills@) =~= Seq::empty());
    }
    while at < rows.len()
        invariant
            at <= rows@.len(),
            prefills_of(date@, rows@.take(at as int), pointed@, *spread) == Some(
                prefills_view(prefills@),
            ),
        decreases rows@.len() - at,
    {
        let ghost before = prefills@;
        proof {
            assert(rows@.take(at + 1).drop_last() =~= rows@.take(at as int));
        }
        if let TransferRow::Transfer { to, cents, lines } = &rows[at] {
            match row_shares(lines, *to, pointed, spread) {
                Some(shares) => {
                    if shares.len() > 0 {
                        prefills.push(
                            Prefill { container: *to, date, pot: *cents, shares },
                        );
                        proof {
                            assert(prefills_view(prefills@) =~= prefills_view(before).push(
                                prefills@[before.len() as int]@,
                            ));
                        }
                    }
                },
                None => {
                    proof {
                        lemma_no_prefills(date@, rows@, pointed@, *spread, at + 1);
                    }
                    return None;
                },
            }
        }
        at = at + 1;
    }
    proof {
        assert(rows@.take(at as int) =~= rows@);
    }
    Some(prefills)
}

/// Every sheet a payday opens gives each goal one line.
pub proof fn a_sheet_lists_each_goal_once(
    lines: Seq<(Line, Cents)>,
    to: AccountId,
    pointed: Seq<(Line, GoalId)>,
    spread: Spread,
)
    ensures
        shares_of(lines, to, pointed, spread) matches Some(shares) ==> once_each(shares),
    decreases lines.len(),
{
    if lines.len() > 0 {
        a_sheet_lists_each_goal_once(lines.drop_last(), to, pointed, spread);
        if let Some(before) = shares_of(lines.drop_last(), to, pointed, spread) {
            let added = line_adds(lines.last().0, lines.last().1, to, pointed, spread);
            lemma_added_once_each(before, added);
        }
    }
}

proof fn lemma_added_once_each(shares: Seq<(GoalId, Cents)>, added: Seq<(GoalId, Cents)>)
    requires
        once_each(shares),
    ensures
        with_shares(shares, added) matches Some(after) ==> once_each(after) && shared_total(after)
            == shared_total(shares) + shared_total(added),
    decreases added.len(),
{
    if added.len() > 0 {
        lemma_added_once_each(shares, added.drop_last());
        if let Some(before) = with_shares(shares, added.drop_last()) {
            let (goal, amount) = added.last();
            if fits(share_of(before, goal) + amount.0) {
                let other = GoalId(
                    if goal.0 == 0 {
                        1
                    } else {
                        0
                    },
                );
                a_share_is_added_to_one_goal(before, goal, amount, other);
            }
        }
    }
}

/// Two lines naming one goal give it one share, for what both came to.
pub proof fn lines_naming_one_goal_are_merged(
    one: (Line, Cents),
    other: (Line, Cents),
    to: AccountId,
    pointed: Seq<(Line, GoalId)>,
    spread: Spread,
    goal: GoalId,
)
    requires
        one.0.lands_in() is Goal,
        other.0.lands_in() is Goal,
        pointed_at(pointed, one.0) == Some(goal),
        pointed_at(pointed, other.0) == Some(goal),
        fits(one.1.0 + other.1.0),
    ensures
        shares_of(seq![one, other], to, pointed, spread) == Some(
            seq![(goal, Cents((one.1.0 + other.1.0) as i64))],
        ),
{
    let first = seq![one];
    let both = seq![one, other];
    assert(both.drop_last() =~= first);
    assert(first.drop_last() =~= Seq::empty());
    let added = seq![(goal, one.1)];
    assert(added.drop_last() =~= Seq::empty());
    let empty = Seq::<(GoalId, Cents)>::empty();
    assert(with_shares(empty, added.drop_last()) == Some(empty));
    assert(with_share(empty, goal, one.1) =~= added);
    assert(with_shares(empty, added) == Some(added));
    assert(shares_of(Seq::empty(), to, pointed, spread) == Some(empty));
    assert(shares_of(first, to, pointed, spread) == Some(added));
    let more = seq![(goal, other.1)];
    assert(more.drop_last() =~= Seq::empty());
    assert(with_shares(added, more.drop_last()) == Some(added));
    assert(share_place(added, goal) == 0);
    let merged = seq![(goal, Cents((one.1.0 + other.1.0) as i64))];
    assert(with_share(added, goal, other.1) =~= merged);
    assert(with_shares(added, more) == Some(merged));
}

/// What a key asks of whoever holds the transfers.
#[derive(Copy, Clone, Debug, PartialEq, Eq, Structural)]
pub enum TransfersVerb {
    Answered,
    Cancel,
    Commit,
}

/// The movements a payday is about to make, and the date they are made on.
#[derive(Debug)]
pub struct TransferConfirm {
    rows: Vec<TransferRow>,
    date: DateField,
}

/// What a [`TransferConfirm`] stands for.
pub struct TransfersView {
    pub rows: Seq<TransferRow>,
    pub date: DateFieldView,
}

impl TransfersView {
    /// What a key leaves of the transfers, and what it asks for. The date is
    /// text, and the arrows step it.
    pub open spec fn pressed(self, key: KeyEvent) -> (TransfersView, TransfersVerb) {
        match key.code {
            KeyCode::Esc => (self, TransfersVerb::Cancel),
            KeyCode::Enter => (self, TransfersVerb::Commit),
            KeyCode::Left | KeyCode::Right => (
                TransfersView { date: self.date.stepped(arrow_step(key)), ..self },
                TransfersVerb::Answered,
            ),
            _ => (
                TransfersView { date: self.date.edited(key), ..self },
                TransfersVerb::Answered,
            ),
        }
    }
}

/// A payday as it is to be written: when, how many movements, what they come
/// to, and the worksheets they open.
#[derive(Debug)]
pub struct Payday {
    pub date: Date,
    pub rows: usize,
    pub all: Cents,
    pub prefills: Vec<Prefill>,
}

/// Why a payday cannot be written.
#[derive(Debug)]
pub enum PaydayFault {
    /// Its date does not read.
    Date(Fault),
    /// The plug was not fitted to what its goals ask.
    Misfit,
    /// Its amounts do not fit together.
    TooLarge,
}

impl PaydayFault {
    pub open spec fn words(self) -> Seq<char> {
        match self {
            PaydayFault::Date(fault) => fault@.status(quoted(fault@.subject())),
            PaydayFault::Misfit => "the plug does not fit what its goals ask"@,
            PaydayFault::TooLarge => "the transfers do not add up"@,
        }
    }

    pub fn status(&self) -> (status: String)
        ensures
            status@ == self.words(),
    {
        match self {
            PaydayFault::Date(fault) => fault.status(),
            PaydayFault::Misfit => "the plug does not fit what its goals ask".to_owned(),
            PaydayFault::TooLarge => "the transfers do not add up".to_owned(),
        }
    }
}

/// Whether `payday` is what the confirmed transfers come to: all of it worked
/// out from them, or the fault of their date.
pub open spec fn comes_to(
    payday: Result<Payday, PaydayFault>,
    confirm: TransfersView,
    pointed: Seq<(Line, GoalId)>,
    spread: Spread,
) -> bool {
    let amounts = amounts_of(confirm.rows);
    match payday {
        Ok(payday) => {
            &&& dated(Ok(payday.date), confirm.date.reading())
            &&& spread.fits_plug(confirm.rows)
            &&& payday.rows == confirm.rows.len()
            &&& sums_fit(amounts)
            &&& payday.all.0 == sum(amounts)
            &&& prefills_of(payday.date@, confirm.rows, pointed, spread) == Some(
                prefills_view(payday.prefills@),
            )
        },
        Err(PaydayFault::Date(fault)) => dated(Err(fault), confirm.date.reading()),
        Err(PaydayFault::Misfit) => confirm.date.reading() is Ok && !spread.fits_plug(
            confirm.rows,
        ),
        Err(PaydayFault::TooLarge) => confirm.date.reading() matches Ok(date) && spread.fits_plug(
            confirm.rows,
        ) && (!sums_fit(amounts) || prefills_of(date, confirm.rows, pointed, spread) is None),
    }
}

impl View for TransferConfirm {
    type V = TransfersView;

    closed spec fn view(&self) -> TransfersView {
        TransfersView { rows: self.rows@, date: self.date@ }
    }
}

impl TransferConfirm {
    /// The movements, opening on `date`.
    pub fn new(rows: Vec<TransferRow>, today: Date, date: Date) -> (confirm: TransferConfirm)
        ensures
            confirm@.rows == rows@,
            confirm@.date == DateFieldView::on(today@, date@),
    {
        TransferConfirm { rows, date: DateField::on(today, date) }
    }

    pub fn rows(&self) -> (rows: &Vec<TransferRow>)
        ensures
            rows@ == self@.rows,
    {
        &self.rows
    }

    pub fn date(&self) -> (date: &DateField)
        ensures
            date@ == self@.date,
    {
        &self.date
    }

    /// What writing the transfers comes to, worked out before anything is
    /// written: a date that does not read refuses the payday with nothing on
    /// the ledger.
    pub fn commit(&self, pointed: &Vec<(Line, GoalId)>, spread: &Spread) -> (payday: Result<
        Payday,
        PaydayFault,
    >)
        ensures
            comes_to(payday, self@, pointed@, *spread),
    {
        let date = match self.date.parse() {
            Ok(date) => date,
            Err(fault) => return Err(PaydayFault::Date(fault)),
        };
        if !spread.is_fitted(&self.rows) {
            return Err(PaydayFault::Misfit);
        }
        match (
            worksheet_prefills(date, &self.rows, pointed, spread),
            transfers_total(&self.rows),
        ) {
            (Some(prefills), Some(all)) => Ok(
                Payday { date, rows: self.rows.len(), all, prefills },
            ),
            _ => Err(PaydayFault::TooLarge),
        }
    }

    /// Every key while the transfers are being confirmed.
    pub fn transfers_key(&mut self, key: KeyEvent) -> (verb: TransfersVerb)
        ensures
            (final(self)@, verb) == old(self)@.pressed(key),
    {
        match key.code {
            KeyCode::Esc => TransfersVerb::Cancel,
            KeyCode::Enter => TransfersVerb::Commit,
            KeyCode::Left => {
                self.date.step(week_step(key, Step::previous_week(), Step::previous()));
                TransfersVerb::Answered
            },
            KeyCode::Right => {
                self.date.step(week_step(key, Step::next_week(), Step::next()));
                TransfersVerb::Answered
            },
            _ => {
                let _ = self.date.edit(key);
                TransfersVerb::Answered
            },
        }
    }
}

/// Days named one after another, as a sentence names them.
pub open spec fn listed_days(days: Seq<DateView>) -> Seq<char>
    decreases days.len(),
{
    if days.len() == 0 {
        Seq::empty()
    } else if days.len() == 1 {
        days[0].iso()
    } else {
        commas(days.drop_last()) + " and "@ + days.last().iso()
    }
}

/// Days with a comma between each two.
pub open spec fn commas(days: Seq<DateView>) -> Seq<char>
    decreases days.len(),
{
    if days.len() == 0 {
        Seq::empty()
    } else if days.len() == 1 {
        days[0].iso()
    } else {
        commas(days.drop_last()) + ", "@ + days.last().iso()
    }
}

pub open spec fn days_of(days: Seq<Date>) -> Seq<DateView> {
    Seq::new(days.len(), |i: int| days[i]@)
}

/// The words that warn of days already carrying a payday's rows. A warning,
/// not a refusal: a second run with a corrected date is a real case.
pub open spec fn clash_words(days: Seq<DateView>) -> Seq<char> {
    listed_days(days) + " already "@ + (if days.len() == 1 {
        "carries"@
    } else {
        "carry"@
    }) + " matching rows"@
}

/// What the status line says where a payday's rows are already on the days
/// around it; `None` where they are on none.
pub fn clash_status(days: &Vec<Date>) -> (status: Option<String>)
    ensures
        match status {
            Some(status) => days@.len() > 0 && status@ == clash_words(days_of(days@)),
            None => days@.len() == 0,
        },
{
    let len: usize = days.len();
    if len == 0 {
        return None;
    }
    let ghost listed = days_of(days@);
    let mut text: String = days[0].iso();
    let mut at: usize = 1;
    proof {
        assert(listed.take(1)[0] == listed[0]);
    }
    while at + 1 < len
        invariant
            1 <= at <= len,
            len == days@.len(),
            at < len || len == 1,
            listed == days_of(days@),
            text@ == commas(listed.take(at as int)),
        decreases len - at,
    {
        proof {
            assert(listed.take(at + 1).drop_last() =~= listed.take(at as int));
        }
        text.append(", ");
        text.append(&days[at].iso());
        at = at + 1;
    }
    if at < len {
        proof {
            assert(listed.drop_last() =~= listed.take(at as int));
        }
        text.append(" and ");
        text.append(&days[at].iso());
    }
    proof {
        assert(text@ == listed_days(listed));
    }
    text.append(" already ");
    if len == 1 {
        text.append("carries");
    } else {
        text.append("carry");
    }
    text.append(" matching rows");
    Some(text)
}

/// Asks that fit the plug are met in full: a payday that is written puts each
/// goal down for what it asks, and leaves the rest of the plug to be placed by
/// hand.
pub proof fn asks_that_fit_are_met_in_full(
    payday: Payday,
    confirm: TransfersView,
    pointed: Seq<(Line, GoalId)>,
    spread: Spread,
    line: Line,
    amount: Cents,
    to: AccountId,
)
    requires
        comes_to(Ok(payday), confirm, pointed, spread),
        spread.container == Some(to),
        plug_of(confirm.rows, to) == Some(amount),
        line.lands_in() is Spread,
        amount.0 != 0,
        sum(amounts(asks_within(spread.asks@, to))) <= amount.0,
    ensures
        line_adds(line, amount, to, pointed, spread) == asks_within(spread.asks@, to),
{
}

/// A plug gives its goals no more than it is, whatever they ask.
pub proof fn a_plug_gives_no_more_than_it_is(
    payday: Payday,
    confirm: TransfersView,
    pointed: Seq<(Line, GoalId)>,
    spread: Spread,
    amount: Cents,
    to: AccountId,
)
    requires
        comes_to(Ok(payday), confirm, pointed, spread),
        spread.container == Some(to),
        plug_of(confirm.rows, to) == Some(amount),
    ensures
        sum(amounts(spread.shares@)) <= amount.0,
{
}

/// A goal listed among shares is down for the amount listed beside it, and one
/// not listed is down for nothing.
pub proof fn a_goal_is_down_for_its_own_share(
    shares: Seq<(GoalId, Cents)>,
    goal: GoalId,
    amount: Cents,
)
    ensures
        once_each(shares) && shares.contains((goal, amount)) ==> share_of(shares, goal)
            == amount.0,
        (forall|i: int| 0 <= i < shares.len() ==> (#[trigger] shares[i]).0 != goal) ==> share_of(
            shares,
            goal,
        ) == 0,
{
    lemma_place_found(shares, goal);
    if once_each(shares) && shares.contains((goal, amount)) {
        let at = shares.index_of((goal, amount));
        assert(shares[at] == (goal, amount));
        lemma_share_place(shares, goal, at);
    }
}

/// A line points at the goal it is listed with, and at none where it is not
/// listed.
pub proof fn a_line_points_where_it_is_listed(
    pointed: Seq<(Line, GoalId)>,
    line: Line,
    goal: GoalId,
)
    requires
        forall|other: GoalId| #[trigger] pointed.contains((line, other)) ==> other == goal,
    ensures
        pointed_at(pointed, line) == (if pointed.contains((line, goal)) {
            Some(goal)
        } else {
            None
        }),
    decreases pointed.len(),
{
    if pointed.len() > 0 {
        let rest = pointed.drop_first();
        if pointed[0].0 == line {
            assert(pointed.contains((line, pointed[0].1)));
        } else {
            assert forall|other: GoalId| #[trigger] rest.contains((line, other)) implies other
                == goal by {
                let at = rest.index_of((line, other));
                assert(pointed[at + 1] == (line, other));
                assert(pointed.contains((line, other)));
            }
            a_line_points_where_it_is_listed(rest, line, goal);
            if pointed.contains((line, goal)) {
                let at = pointed.index_of((line, goal));
                assert(rest[at - 1] == (line, goal));
            }
            if rest.contains((line, goal)) {
                let at = rest.index_of((line, goal));
                assert(pointed[at + 1] == (line, goal));
            }
        }
    }
}

/// The lines whose money goes to a goal the owner points them at.
pub open spec fn is_pointed(line: Line) -> bool {
    line is Bills || line is CurrentHousing || line is Roth || line is EmergencyFund
        || line is MomAndDad || line is FutureHousing
}

/// Before its first line a sheet has nothing on it, and a line that names an
/// account, or that points at no goal, leaves it as it was.
pub proof fn only_a_pointed_line_or_the_plug_allocates(
    lines: Seq<(Line, Cents)>,
    line: Line,
    amount: Cents,
    to: AccountId,
    pointed: Seq<(Line, GoalId)>,
    spread: Spread,
)
    ensures
        shares_of(Seq::empty(), to, pointed, spread) == Some(Seq::<(GoalId, Cents)>::empty()),
        line is Retirement || line is Investment ==> shares_of(
            lines.push((line, amount)),
            to,
            pointed,
            spread,
        ) == shares_of(lines, to, pointed, spread),
        is_pointed(line) && (forall|goal: GoalId| !#[trigger] pointed.contains((line, goal)))
            ==> shares_of(lines.push((line, amount)), to, pointed, spread) == shares_of(
            lines,
            to,
            pointed,
            spread,
        ),
        line is Goals && (amount.0 == 0 || spread.container != Some(to)) ==> shares_of(
            lines.push((line, amount)),
            to,
            pointed,
            spread,
        ) == shares_of(lines, to, pointed, spread),
{
    assert(lines.push((line, amount)).drop_last() =~= lines);
    if forall|goal: GoalId| !#[trigger] pointed.contains((line, goal)) {
        a_line_points_where_it_is_listed(pointed, line, GoalId(0));
    }
}

/// A line pointed at a goal puts that goal down for its whole amount, on top
/// of whatever the lines before it brought, and touches no other goal.
pub proof fn a_pointed_line_brings_its_goal_its_amount(
    lines: Seq<(Line, Cents)>,
    line: Line,
    amount: Cents,
    to: AccountId,
    pointed: Seq<(Line, GoalId)>,
    spread: Spread,
    goal: GoalId,
    other: GoalId,
)
    requires
        is_pointed(line),
        pointed.contains((line, goal)),
        forall|named: GoalId| #[trigger] pointed.contains((line, named)) ==> named == goal,
        other != goal,
        shares_of(lines, to, pointed, spread) is Some,
        fits(share_of(shares_of(lines, to, pointed, spread)->0, goal) + amount.0),
    ensures
        ({
            let before = shares_of(lines, to, pointed, spread)->0;
            &&& shares_of(lines.push((line, amount)), to, pointed, spread) matches Some(after)
            &&& share_of(after, goal) == share_of(before, goal) + amount.0
            &&& share_of(after, other) == share_of(before, other)
            &&& exists|i: int| 0 <= i < after.len() && (#[trigger] after[i]).0 == goal
        }),
{
    let before = shares_of(lines, to, pointed, spread)->0;
    assert(lines.push((line, amount)).drop_last() =~= lines);
    a_line_points_where_it_is_listed(pointed, line, goal);
    a_sheet_lists_each_goal_once(lines, to, pointed, spread);
    let added = seq![(goal, amount)];
    assert(line_adds(line, amount, to, pointed, spread) =~= added);
    assert(added.drop_last() =~= Seq::empty());
    assert(with_shares(before, added.drop_last()) == Some(before));
    a_share_is_added_to_one_goal(before, goal, amount, other);
    let after = with_share(before, goal, amount);
    lemma_place_found(before, goal);
    assert(after[share_place(before, goal)].0 == goal);
}

/// The plug puts each goal down for its share of it, on top of whatever the
/// lines before it brought, where it lands in the container.
pub proof fn the_plug_brings_each_goal_its_share(
    lines: Seq<(Line, Cents)>,
    amount: Cents,
    to: AccountId,
    pointed: Seq<(Line, GoalId)>,
    spread: Spread,
    goal: GoalId,
)
    requires
        amount.0 != 0,
        spread.container == Some(to),
        once_each(spread.shares@),
        shares_of(lines.push((Line::Goals, amount)), to, pointed, spread) is Some,
    ensures
        shares_of(lines, to, pointed, spread) is Some,
        share_of(shares_of(lines.push((Line::Goals, amount)), to, pointed, spread)->0, goal)
            == share_of(shares_of(lines, to, pointed, spread)->0, goal) + share_of(
            spread.shares@,
            goal,
        ),
{
    assert(lines.push((Line::Goals, amount)).drop_last() =~= lines);
    a_sheet_lists_each_goal_once(lines, to, pointed, spread);
    lemma_shares_added(shares_of(lines, to, pointed, spread)->0, spread.shares@, goal);
}

proof fn lemma_shares_added(
    shares: Seq<(GoalId, Cents)>,
    added: Seq<(GoalId, Cents)>,
    goal: GoalId,
)
    requires
        once_each(shares),
        once_each(added),
        with_shares(shares, added) is Some,
    ensures
        share_of(with_shares(shares, added)->0, goal) == share_of(shares, goal) + share_of(
            added,
            goal,
        ),
    decreases added.len(),
{
    if added.len() == 0 {
        assert(share_place(added, goal) == 0);
    } else {
        let head = added.drop_last();
        let (last, amount) = added.last();
        lemma_shares_added(shares, head, goal);
        lemma_added_once_each(shares, head);
        let before = with_shares(shares, head)->0;
        let other = GoalId(
            if last.0 == 0 {
                1
            } else {
                0
            },
        );
        a_share_is_added_to_one_goal(
            before,
            last,
            amount,
            if goal == last {
                other
            } else {
                goal
            },
        );
        lemma_place_found(head, goal);
        if goal == last {
            assert forall|i: int| 0 <= i < head.len() implies (#[trigger] head[i]).0 != goal by {
                assert(head[i] == added[i]);
                assert(added[added.len() - 1].0 == goal);
            }
            lemma_share_place(head, goal, head.len() as int);
            assert forall|i: int| 0 <= i < head.len() implies (#[trigger] added[i]).0 != goal by {
                assert(head[i] == added[i]);
            }
            lemma_share_place(added, goal, head.len() as int);
        } else {
            let at = share_place(head, goal);
            assert forall|i: int| 0 <= i < at implies (#[trigger] added[i]).0 != goal by {
                assert(head[i] == added[i]);
            }
            if at < head.len() {
                assert(added[at] == head[at]);
                lemma_share_place(added, goal, at);
            } else {
                assert(added[at].0 == last);
                lemma_share_place(added, goal, added.len() as int);
            }
        }
    }
}

/// A payday opens one worksheet for each transfer that allocates anything, in
/// order, each over the account it lands in, dated as the payday is, with the
/// transfer as its pot; a withdrawal opens none.
pub proof fn each_transfer_opens_its_own_sheet(
    date: DateView,
    rows: Seq<TransferRow>,
    next: TransferRow,
    pointed: Seq<(Line, GoalId)>,
    spread: Spread,
)
    ensures
        prefills_of(date, Seq::empty(), pointed, spread) == Some(Seq::<PrefillView>::empty()),
        prefills_of(date, rows, pointed, spread) matches Some(before) ==> match next {
            TransferRow::Withdrawal { .. } => prefills_of(date, rows.push(next), pointed, spread)
                == Some(before),
            TransferRow::Transfer { to, cents, lines } => match shares_of(
                lines@,
                to,
                pointed,
                spread,
            ) {
                None => prefills_of(date, rows.push(next), pointed, spread) is None,
                Some(shares) => if shares.len() == 0 {
                    prefills_of(date, rows.push(next), pointed, spread) == Some(before)
                } else {
                    &&& prefills_of(date, rows.push(next), pointed, spread) matches Some(after)
                    &&& after.len() == before.len() + 1
                    &&& after.drop_last() == before
                    &&& after.last().container == to
                    &&& after.last().date == date
                    &&& after.last().pot == cents
                    &&& after.last().shares == shares
                },
            },
        },
        prefills_of(date, rows, pointed, spread) is None ==> prefills_of(
            date,
            rows.push(next),
            pointed,
            spread,
        ) is None,
{
    assert(rows.push(next).drop_last() =~= rows);
    if let Some(before) = prefills_of(date, rows, pointed, spread) {
        if let TransferRow::Transfer { to, cents, lines } = next {
            if let Some(shares) = shares_of(lines@, to, pointed, spread) {
                if shares.len() > 0 {
                    let sheet = PrefillView { container: to, date, pot: cents, shares };
                    assert(before.push(sheet).drop_last() =~= before);
                }
            }
        }
    }
}

/// What a payday is said to come to is every movement of it, into an account
/// and out of the books alike.
pub proof fn every_movement_of_a_payday_counts(rows: Seq<TransferRow>, next: TransferRow)
    ensures
        sum(amounts_of(Seq::empty())) == 0,
        sum(amounts_of(rows.push(next))) == sum(amounts_of(rows)) + (match next {
            TransferRow::Transfer { cents, .. } => cents.0 as int,
            TransferRow::Withdrawal { cents, .. } => cents.0 as int,
        }),
{
    assert(amounts_of(Seq::empty()) =~= Seq::<Cents>::empty());
    assert(amounts_of(rows.push(next)) =~= amounts_of(rows).push(next.amount()));
    crate::money::every_amount_counts_once(amounts_of(rows), next.amount());
}

/// A payday that is written is written for the day its date reads as, counts
/// and totals every movement being confirmed, and opens the worksheets those
/// movements come to. Its date is refused exactly where it does not read.
pub proof fn a_payday_is_the_whole_of_its_transfers(
    payday: Result<Payday, PaydayFault>,
    confirm: TransfersView,
    pointed: Seq<(Line, GoalId)>,
    spread: Spread,
)
    requires
        comes_to(payday, confirm, pointed, spread),
    ensures
        payday is Ok ==> {
            let written = payday->Ok_0;
            &&& confirm.date.reading() == Ok::<DateView, crate::fault::FaultView>(written.date@)
            &&& written.rows == confirm.rows.len()
            &&& written.all.0 == sum(amounts_of(confirm.rows))
            &&& prefills_of(written.date@, confirm.rows, pointed, spread) == Some(
                prefills_view(written.prefills@),
            )
            &&& written.prefills@.len() == prefills_view(written.prefills@).len()
        },
        confirm.date.reading() is Err <==> payday matches Err(PaydayFault::Date(_)),
        confirm.date.reading() matches Ok(date) ==> (spread.fits_plug(confirm.rows) && sums_fit(
            amounts_of(confirm.rows),
        ) && prefills_of(date, confirm.rows, pointed, spread) is Some ==> payday is Ok),
{
}

/// Whether the `k`th line of a movement carries what is left over, `amount`,
/// to `container`.
pub open spec fn carries_plug(
    row: TransferRow,
    container: AccountId,
    k: int,
    amount: Cents,
) -> bool {
    row matches TransferRow::Transfer { to, lines, .. } && to == container && 0 <= k
        < lines@.len() && lines@[k] == (Line::Goals, amount) && amount.0 != 0
}

/// The plug is the amount of the line that is left over, in the transfer that
/// carries it to the container; there is none where no transfer does.
pub proof fn the_plug_is_what_is_left_over(
    rows: Seq<TransferRow>,
    container: AccountId,
    amount: Cents,
)
    requires
        forall|i: int, k: int, other: Cents|
            0 <= i < rows.len() && #[trigger] carries_plug(rows[i], container, k, other)
                ==> other == amount,
    ensures
        plug_of(rows, container) == (if exists|i: int, k: int|
            0 <= i < rows.len() && #[trigger] carries_plug(rows[i], container, k, amount) {
            Some(amount)
        } else {
            None
        }),
    decreases rows.len(),
{
    if rows.len() > 0 {
        let rest = rows.drop_first();
        assert forall|i: int, k: int, other: Cents|
            0 <= i < rest.len() && #[trigger] carries_plug(
                rest[i],
                container,
                k,
                other,
            ) implies other == amount by {
            assert(carries_plug(rows[i + 1], container, k, other));
        }
        the_plug_is_what_is_left_over(rest, container, amount);
        let somewhere = exists|i: int, k: int|
            0 <= i < rows.len() && #[trigger] carries_plug(rows[i], container, k, amount);
        if let TransferRow::Transfer { to, lines, .. } = rows[0] {
            lemma_plug_among(lines@);
            if to == container {
                if let Some(plug) = plug_among(lines@) {
                    let k = choose|k: int|
                        0 <= k < lines@.len() && #[trigger] lines@[k] == (Line::Goals, plug);
                    assert(carries_plug(rows[0], container, k, plug));
                }
            }
        }
        if somewhere {
            let (i, k) = choose|i: int, k: int|
                0 <= i < rows.len() && #[trigger] carries_plug(rows[i], container, k, amount);
            if i > 0 {
                assert(carries_plug(rest[i - 1], container, k, amount));
            } else {
                assert(rows[0]->lines@[k] == (Line::Goals, amount));
            }
        } else if exists|i: int, k: int|
            0 <= i < rest.len() && #[trigger] carries_plug(rest[i], container, k, amount) {
            let (i, k) = choose|i: int, k: int|
                0 <= i < rest.len() && #[trigger] carries_plug(rest[i], container, k, amount);
            assert(carries_plug(rows[i + 1], container, k, amount));
        }
    }
}

proof fn lemma_plug_among(lines: Seq<(Line, Cents)>)
    ensures
        plug_among(lines) matches Some(plug) ==> plug.0 != 0 && exists|k: int|
            0 <= k < lines.len() && #[trigger] lines[k] == (Line::Goals, plug),
        plug_among(lines) is None ==> forall|k: int|
            0 <= k < lines.len() ==> !((#[trigger] lines[k]).0 is Goals && lines[k].1.0 != 0),
    decreases lines.len(),
{
    if lines.len() > 0 {
        let rest = lines.drop_first();
        lemma_plug_among(rest);
        if lines[0].0.lands_in() is Spread && lines[0].1.0 != 0 {
            assert(lines[0] == (Line::Goals, lines[0].1));
        } else {
            if let Some(plug) = plug_among(rest) {
                let k = choose|k: int|
                    0 <= k < rest.len() && #[trigger] rest[k] == (Line::Goals, plug);
                assert(lines[k + 1] == (Line::Goals, plug));
            } else {
                assert forall|k: int| 0 <= k < lines.len() implies !((
                #[trigger] lines[k]).0 is Goals && lines[k].1.0 != 0) by {
                    if k > 0 {
                        assert(rest[k - 1] == lines[k]);
                    }
                }
            }
        }
    }
}

/// The plug is fitted to every ask of its own container's goals, and to no
/// other's.
pub proof fn a_plug_hears_its_own_container(asks: Seq<Ask>, next: Ask, container: AccountId)
    ensures
        asks_within(Seq::empty(), container) == Seq::<(GoalId, Cents)>::empty(),
        next.container == container ==> asks_within(asks.push(next), container) == asks_within(
            asks,
            container,
        ).push((next.goal, next.cents)),
        next.container != container ==> asks_within(asks.push(next), container) == asks_within(
            asks,
            container,
        ),
{
    assert(asks.push(next).drop_last() =~= asks);
}

/// Over the transfers `Enter` writes them and `Esc` cancels them, the arrows
/// step their date a day or a week with `Shift`, and any other key edits it;
/// no key changes a transfer.
pub proof fn the_transfers_keys_touch_the_date_alone(confirm: TransfersView, key: KeyEvent)
    ensures
        ({
            let (after, verb) = confirm.pressed(key);
            let days: int = if key.modifiers.shift {
                7
            } else {
                1
            };
            &&& after.rows == confirm.rows
            &&& (key.code is Enter ==> verb == TransfersVerb::Commit && after == confirm)
            &&& (key.code is Esc ==> verb == TransfersVerb::Cancel && after == confirm)
            &&& (!(key.code is Enter) && !(key.code is Esc) ==> verb == TransfersVerb::Answered)
            &&& (key.code is Left ==> after.date == confirm.date.stepped(
                crate::step::StepView::of_days(-days),
            ))
            &&& (key.code is Right ==> after.date == confirm.date.stepped(
                crate::step::StepView::of_days(days),
            ))
            &&& (key.code is Char || key.code is Backspace ==> after.date == confirm.date.edited(
                key,
            ))
        }),
{
}

/// The days a payday clashes with are all named, the last after "and" and the
/// ones before it apart by commas.
pub proof fn every_day_that_clashes_is_named(days: Seq<DateView>, next: DateView)
    ensures
        listed_days(seq![next]) == next.iso(),
        commas(seq![next]) == next.iso(),
        days.len() > 0 ==> commas(days.push(next)) == commas(days) + ", "@ + next.iso(),
        days.len() > 0 ==> listed_days(days.push(next)) == commas(days) + " and "@ + next.iso(),
        days.len() == 1 ==> clash_words(days) == listed_days(days) + " already "@ + "carries"@
            + " matching rows"@,
        days.len() > 1 ==> clash_words(days) == listed_days(days) + " already "@ + "carry"@
            + " matching rows"@,
{
    assert(days.push(next).drop_last() =~= days);
}

} // verus!
