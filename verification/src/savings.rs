//! The savings screen: the goals in each container, and what its keys ask
//! for.

use crate::cursor::is_scroll;
use crate::date::Date;
use crate::dial::{Dial, DialView};
use crate::ids::{AccountId, GoalId};
use crate::key::{KeyCode, KeyEvent};
use crate::label::{name_among, Account};
use crate::ledger::{month_number, month_of};
use crate::money::Cents;
use crate::said::{self, PieceView, Said};
use crate::screen::Move;
use crate::search::{answers, is_match, Listing, ListingView, Search, Sought};
use crate::text::{decimal, write_number};
use vstd::prelude::*;
use vstd::string::*;

verus! {

/// One goal as the screen lists it.
#[derive(Debug)]
pub struct SavingsRow {
    pub goal: GoalId,
    pub name: String,
    pub container: AccountId,
    /// When the goal falls due. A goal without one is placed by hand.
    pub date: Option<Date>,
    pub favorite: bool,
    pub current: Cents,
}

/// What narrows the goals beside a needle: one container, and one month.
#[derive(Copy, Clone, Debug, PartialEq, Eq, Structural)]
pub struct SavingsFilter {
    pub container: Option<i64>,
    pub month: Option<i64>,
}

impl Sought for SavingsRow {
    type Filter = SavingsFilter;

    /// A goal with no date belongs to no month.
    open spec fn found(&self, filter: SavingsFilter, needle: Seq<char>) -> bool {
        &&& (filter.container matches Some(id) ==> self.container.0 == id)
        &&& (filter.month matches Some(month) ==> self.date is Some && month_number(self.date->0@)
            == month)
        &&& answers(self.name@, needle)
    }

    fn is_found(&self, filter: SavingsFilter, needle: &str) -> (found: bool) {
        if let Some(id) = filter.container {
            if self.container.0 != id {
                return false;
            }
        }
        if let Some(month) = filter.month {
            match self.date {
                Some(date) => {
                    if month_of(date) != month {
                        return false;
                    }
                },
                None => return false,
            }
        }
        is_match(self.name.as_str(), needle)
    }
}

/// What a key on the screen asks for beyond the screen itself.
#[derive(Copy, Clone, Debug, PartialEq, Eq, Structural)]
pub enum SavingsVerb {
    Answered,
    Allocate,
    Payday,
    Interest,
    Transfer,
    Edit,
    CloseOut,
    NewGoal,
    Move(Move),
    Favorite,
    Undo,
    History,
}

/// What a letter asks for.
pub open spec fn operator(c: char) -> SavingsVerb {
    if c == 'a' {
        SavingsVerb::Allocate
    } else if c == 'A' {
        SavingsVerb::Payday
    } else if c == 'i' {
        SavingsVerb::Interest
    } else if c == 't' {
        SavingsVerb::Transfer
    } else if c == 'e' {
        SavingsVerb::Edit
    } else if c == 'c' {
        SavingsVerb::CloseOut
    } else if c == 'n' {
        SavingsVerb::NewGoal
    } else if c == 'K' {
        SavingsVerb::Move(Move::Up)
    } else if c == 'J' {
        SavingsVerb::Move(Move::Down)
    } else if c == 'f' {
        SavingsVerb::Favorite
    } else if c == 'U' {
        SavingsVerb::Undo
    } else {
        SavingsVerb::Answered
    }
}

/// The goals, what narrows them, and what each container has unallocated.
#[derive(Debug)]
pub struct Savings {
    accounts: Vec<Account>,
    containers: Dial,
    months: Dial,
    list: Listing<SavingsRow>,
    excess: Vec<(AccountId, Cents)>,
}

/// What a [`Savings`] stands for.
pub struct SavingsView {
    pub accounts: Seq<Account>,
    pub containers: DialView,
    pub months: DialView,
    pub list: ListingView<SavingsRow>,
    pub excess: Seq<(AccountId, Cents)>,
}

impl SavingsView {
    /// The screen with nothing on it yet.
    pub open spec fn blank() -> SavingsView {
        SavingsView {
            accounts: Seq::empty(),
            containers: DialView { choices: Seq::empty(), at: None },
            months: DialView { choices: Seq::empty(), at: None },
            list: ListingView::fresh(
                Seq::empty(),
                SavingsFilter { container: None, month: None },
            ),
            excess: Seq::empty(),
        }
    }

    pub open spec fn with_list(self, list: ListingView<SavingsRow>) -> SavingsView {
        SavingsView { list, ..self }
    }

    /// The goals the two dials leave.
    pub open spec fn dialled(self) -> SavingsView {
        self.with_list(
            self.list.filtered(
                SavingsFilter { container: self.containers.chosen(), month: self.months.chosen() },
            ),
        )
    }

    /// The container the screen is narrowed to, or the first where it is
    /// narrowed to none: the app's one answer to "which container".
    pub open spec fn default_container(self) -> Option<AccountId> {
        match self.containers.chosen() {
            Some(id) => Some(AccountId(id)),
            None => if self.excess.len() > 0 {
                Some(self.excess[0].0)
            } else {
                None
            },
        }
    }

    /// What `container` has unallocated: nothing, where it is not listed.
    pub open spec fn unallocated(self, container: AccountId) -> Cents {
        unallocated_in(self.excess, container)
    }

    /// The screen over other goals.
    pub open spec fn refilled(
        self,
        rows: Seq<SavingsRow>,
        months: Seq<i64>,
        excess: Seq<(AccountId, Cents)>,
    ) -> SavingsView {
        SavingsView {
            containers: self.containers.over(containers_of(excess)),
            months: self.months.over(months),
            list: self.list.refilled(rows),
            excess,
            ..self
        }.dialled()
    }

    /// The screen with the cursor on `goal`, wherever it is drawn.
    pub open spec fn on_goal(self, goal: GoalId) -> SavingsView {
        let place = place_of_goal(self.list, goal, 0);
        if place < self.list.visible.len() {
            self.with_list(self.list.on(place))
        } else {
            self
        }
    }

    /// What a key leaves of the screen, and what it asks for.
    pub open spec fn pressed(self, key: KeyEvent) -> (SavingsView, SavingsVerb) {
        if is_scroll(key.code) {
            (self.with_list(self.list.scrolled(key.code)), SavingsVerb::Answered)
        } else {
            match key.code {
                KeyCode::Tab => (
                    SavingsView { containers: self.containers.forward(), ..self }.dialled(),
                    SavingsVerb::Answered,
                ),
                KeyCode::BackTab => (
                    SavingsView { containers: self.containers.back(), ..self }.dialled(),
                    SavingsVerb::Answered,
                ),
                KeyCode::Esc => (
                    if self.list.search.needle().len() > 0 {
                        self.with_list(self.list.needle_escaped())
                    } else {
                        SavingsView {
                            containers: self.containers.cleared(),
                            months: self.months.cleared(),
                            ..self
                        }.dialled()
                    },
                    SavingsVerb::Answered,
                ),
                KeyCode::Enter => (self, SavingsVerb::History),
                KeyCode::Char(c) => if c == '[' {
                    (
                        SavingsView { months: self.months.back(), ..self }.dialled(),
                        SavingsVerb::Answered,
                    )
                } else if c == ']' {
                    (
                        SavingsView { months: self.months.forward(), ..self }.dialled(),
                        SavingsVerb::Answered,
                    )
                } else if c == '/' {
                    (
                        self.with_list(self.list.with_search(self.list.search.begun())),
                        SavingsVerb::Answered,
                    )
                } else {
                    (self, operator(c))
                },
                _ => (self, SavingsVerb::Answered),
            }
        }
    }

    /// The goal a move acts on and where it sits, or why none does.
    pub open spec fn moving(self) -> Result<(GoalId, AccountId), Seq<PieceView>> {
        match self.list.chosen() {
            None => Err(said::words("nothing selected"@)),
            Some(row) => if self.list.search.needle().len() > 0 {
                Err(said::words("Clear the search before reordering goals"@))
            } else if row.date is Some {
                Err(
                    said::name(row.name@) + said::words(
                        " has a goal date, so its place comes from that date"@,
                    ),
                )
            } else {
                Ok((row.goal, row.container))
            },
        }
    }
}

/// The containers, as the dial cycles through them.
pub open spec fn containers_of(excess: Seq<(AccountId, Cents)>) -> Seq<i64> {
    Seq::new(excess.len(), |i: int| excess[i].0.0)
}

/// What the first listing of `container` has unallocated, or nothing.
pub open spec fn unallocated_in(excess: Seq<(AccountId, Cents)>, container: AccountId) -> Cents
    decreases excess.len(),
{
    if excess.len() == 0 {
        Cents(0)
    } else if excess[0].0 == container {
        excess[0].1
    } else {
        unallocated_in(excess.drop_first(), container)
    }
}

/// The first place from `from` on where `goal` is drawn; past the last where
/// it is drawn nowhere.
pub open spec fn place_of_goal(list: ListingView<SavingsRow>, goal: GoalId, from: int) -> int
    decreases list.visible.len() - from,
{
    if from < 0 || from >= list.visible.len() || list.row(from).goal == goal {
        from
    } else {
        place_of_goal(list, goal, from + 1)
    }
}

impl View for Savings {
    type V = SavingsView;

    closed spec fn view(&self) -> SavingsView {
        SavingsView {
            accounts: self.accounts@,
            containers: self.containers@,
            months: self.months@,
            list: self.list@,
            excess: self.excess@,
        }
    }
}

impl Savings {
    /// The screen with nothing on it yet.
    pub fn new() -> (savings: Savings)
        ensures
            savings@ == SavingsView::blank(),
            savings@.list.settled(),
    {
        let accounts: Vec<Account> = Vec::new();
        let rows: Vec<SavingsRow> = Vec::new();
        let excess: Vec<(AccountId, Cents)> = Vec::new();
        let none: Vec<i64> = Vec::new();
        let nowhere: Vec<i64> = Vec::new();
        proof {
            assert(accounts@ =~= Seq::empty());
            assert(rows@ =~= Seq::empty());
            assert(excess@ =~= Seq::empty());
            assert(none@ =~= Seq::empty());
            assert(nowhere@ =~= Seq::empty());
        }
        Savings {
            accounts,
            containers: Dial::new(none),
            months: Dial::new(nowhere),
            list: Listing::new(rows, SavingsFilter { container: None, month: None }),
            excess,
        }
    }

    pub fn list(&self) -> (list: &Listing<SavingsRow>)
        ensures
            list@ == self@.list,
    {
        &self.list
    }

    pub fn list_mut(&mut self) -> (list: &mut Listing<SavingsRow>)
        ensures
            list@ == old(self)@.list,
            final(self)@ == old(self)@.with_list(final(list)@),
    {
        &mut self.list
    }

    pub fn selected_container(&self) -> (id: Option<i64>)
        ensures
            id == self@.containers.chosen(),
    {
        self.containers.chosen()
    }

    pub fn selected_month(&self) -> (month: Option<i64>)
        ensures
            month == self@.months.chosen(),
    {
        self.months.chosen()
    }

    /// The goal under the cursor.
    pub fn selected(&self) -> (row: Option<&SavingsRow>)
        requires
            self@.list.settled(),
        ensures
            match row {
                Some(row) => self@.list.chosen() == Some(*row),
                None => self@.list.chosen() is None,
            },
    {
        self.list.selected()
    }

    pub fn account_name(&self, id: AccountId) -> (name: String)
        ensures
            name@ == name_among(self@.accounts, id),
    {
        Account::named(&self.accounts, id).name
    }

    /// What each container has unallocated.
    pub fn excess(&self) -> (excess: &Vec<(AccountId, Cents)>)
        ensures
            excess@ == self@.excess,
    {
        &self.excess
    }

    /// The container the screen is narrowed to, or the first where it is
    /// narrowed to none. `None` where no container holds goals.
    pub fn default_container(&self) -> (container: Option<AccountId>)
        ensures
            container == self@.default_container(),
    {
        match self.containers.chosen() {
            Some(id) => Some(AccountId(id)),
            None => if self.excess.len() > 0 {
                Some(self.excess[0].0)
            } else {
                None
            },
        }
    }

    /// What `container` has unallocated: the pot a share divides.
    pub fn unallocated(&self, container: AccountId) -> (pot: Cents)
        ensures
            pot == self@.unallocated(container),
    {
        let mut at: usize = 0;
        proof {
            assert(self.excess@.skip(0) =~= self.excess@);
        }
        while at < self.excess.len()
            invariant
                at <= self.excess@.len(),
                unallocated_in(self.excess@, container) == unallocated_in(
                    self.excess@.skip(at as int),
                    container,
                ),
                self@.excess == self.excess@,
            decreases self.excess@.len() - at,
        {
            proof {
                assert(self.excess@.skip(at as int).drop_first() =~= self.excess@.skip(at + 1));
            }
            if self.excess[at].0 == container {
                return self.excess[at].1;
            }
            at = at + 1;
        }
        Cents(0)
    }

    pub fn set_accounts(&mut self, accounts: Vec<Account>)
        ensures
            final(self)@ == (SavingsView { accounts: accounts@, ..old(self)@ }),
    {
        self.accounts = accounts;
    }

    /// Hold other goals, in the months they fall due and beside what each
    /// container has unallocated.
    pub fn set_goals(
        &mut self,
        rows: Vec<SavingsRow>,
        months: Vec<i64>,
        excess: Vec<(AccountId, Cents)>,
    )
        ensures
            final(self)@ == old(self)@.refilled(rows@, months@, excess@),
    {
        let mut ids: Vec<i64> = Vec::new();
        let mut at: usize = 0;
        while at < excess.len()
            invariant
                at <= excess@.len(),
                ids@ == containers_of(excess@.take(at as int)),
            decreases excess@.len() - at,
        {
            ids.push(excess[at].0.0);
            at = at + 1;
            proof {
                assert(ids@ =~= containers_of(excess@.take(at as int)));
            }
        }
        proof {
            assert(excess@.take(at as int) =~= excess@);
        }
        self.containers.set_choices(ids);
        self.months.set_choices(months);
        self.list.set_rows(rows);
        self.excess = excess;
        self.redial();
    }

    fn redial(&mut self)
        ensures
            final(self)@ == old(self)@.dialled(),
    {
        let filter = SavingsFilter {
            container: self.containers.chosen(),
            month: self.months.chosen(),
        };
        self.list.set_filter(filter);
    }

    /// Put the cursor back on `goal`, which a reorder has moved.
    pub fn select_goal(&mut self, goal: GoalId)
        requires
            old(self)@.list.settled(),
        ensures
            final(self)@ == old(self)@.on_goal(goal),
    {
        let mut place: usize = 0;
        while place < self.list.len() && self.list.row(place).goal != goal
            invariant
                place <= self@.list.visible.len(),
                self@ == old(self)@,
                self@.list.settled(),
                place_of_goal(self@.list, goal, 0) == place_of_goal(
                    self@.list,
                    goal,
                    place as int,
                ),
            ensures
                place < self@.list.visible.len() ==> self@.list.row(place as int).goal == goal,
            decreases self@.list.visible.len() - place,
        {
            place = place + 1;
        }
        if place < self.list.len() {
            self.list.select(place);
        }
    }

    /// Every key on the screen with no box open over it.
    pub fn savings_key(&mut self, key: KeyEvent) -> (verb: SavingsVerb)
        ensures
            (final(self)@, verb) == old(self)@.pressed(key),
    {
        if self.list.scroll(key.code) {
            return SavingsVerb::Answered;
        }
        match key.code {
            KeyCode::Tab => {
                self.containers.next();
                self.redial();
                SavingsVerb::Answered
            },
            KeyCode::BackTab => {
                self.containers.previous();
                self.redial();
                SavingsVerb::Answered
            },
            KeyCode::Esc => {
                if !self.list.escape_needle() {
                    self.containers.clear();
                    self.months.clear();
                    self.redial();
                }
                SavingsVerb::Answered
            },
            // The long form of the balance cell the row already carries.
            KeyCode::Enter => SavingsVerb::History,
            KeyCode::Char('[') => {
                self.months.previous();
                self.redial();
                SavingsVerb::Answered
            },
            KeyCode::Char(']') => {
                self.months.next();
                self.redial();
                SavingsVerb::Answered
            },
            KeyCode::Char('/') => {
                self.list.begin_search();
                SavingsVerb::Answered
            },
            KeyCode::Char('a') => SavingsVerb::Allocate,
            KeyCode::Char('A') => SavingsVerb::Payday,
            KeyCode::Char('i') => SavingsVerb::Interest,
            KeyCode::Char('t') => SavingsVerb::Transfer,
            KeyCode::Char('e') => SavingsVerb::Edit,
            KeyCode::Char('c') => SavingsVerb::CloseOut,
            KeyCode::Char('n') => SavingsVerb::NewGoal,
            KeyCode::Char('K') => SavingsVerb::Move(Move::Up),
            KeyCode::Char('J') => SavingsVerb::Move(Move::Down),
            KeyCode::Char('f') => SavingsVerb::Favorite,
            KeyCode::Char('U') => SavingsVerb::Undo,
            _ => SavingsVerb::Answered,
        }
    }

    /// The goal `K` and `J` move, and the container it moves in.
    ///
    /// Two refusals rather than two silences. A dated goal takes its place
    /// from its date, so there is no manual order for it to move in; and a
    /// kept search hides part of the block being reordered, so a move would
    /// be one place in a list nobody can see.
    pub fn moving(&self) -> (moving: Result<(GoalId, AccountId), Said>)
        requires
            self@.list.settled(),
        ensures
            match self@.moving() {
                Ok(goal) => moving == Ok::<(GoalId, AccountId), Said>(goal),
                Err(why) => moving is Err && moving->Err_0@ == why,
            },
    {
        match self.list.selected() {
            None => Err(Said::of("nothing selected")),
            Some(row) => {
                if self.list.search().unicode_len() > 0 {
                    return Err(Said::of("Clear the search before reordering goals"));
                }
                if let Some(_) = row.date {
                    return Err(
                        Said::of_name(&row.name).words(
                            " has a goal date, so its place comes from that date",
                        ),
                    );
                }
                Ok((row.goal, row.container))
            },
        }
    }
}

/// Where a goal stands in its container's manual order, and where a move
/// takes it: `None` at the end it would leave by. An error where the goal is
/// not among those the container lists.
pub open spec fn moved_to(undated: Seq<GoalId>, goal: GoalId, way: Move) -> Result<
    Option<int>,
    Seq<char>,
> {
    match undated.index_of_first(goal) {
        Some(from) => Ok(way.lands(from, undated.len() as int)),
        None => Err("the selected goal is open and undated, so its container lists it"@),
    }
}

/// Where a move takes a goal among its container's undated goals.
///
/// Counted against those goals rather than the rows on screen: the reorder
/// renumbers that block, and the two must be counting the same list.
pub fn place_moved(undated: &Vec<GoalId>, goal: GoalId, way: Move) -> (to: Result<
    Option<usize>,
    String,
>)
    ensures
        match moved_to(undated@, goal, way) {
            Ok(Some(place)) => to is Ok && to->Ok_0 is Some && to->Ok_0->0 == place,
            Ok(None) => to is Ok && to->Ok_0 is None,
            Err(why) => to is Err && to->Err_0@ == why,
        },
{
    proof {
        undated@.index_of_first_ensures(goal);
    }
    let mut at: usize = 0;
    while at < undated.len()
        invariant
            at <= undated@.len(),
            forall|i: int| 0 <= i < at ==> undated@[i] != goal,
        decreases undated@.len() - at,
    {
        if undated[at] == goal {
            proof {
                undated@.index_of_first_ensures(goal);
                let first = undated@.index_of_first(goal)->0;
                assert(undated@[first] == goal);
            }
            return Ok(way.applied(at, undated.len()));
        }
        at = at + 1;
    }
    Err("the selected goal is open and undated, so its container lists it".to_owned())
}

/// The goals with no date, in their order.
pub open spec fn undated_of(goals: Seq<(GoalId, Option<Date>)>) -> Seq<GoalId>
    decreases goals.len(),
{
    if goals.len() == 0 {
        Seq::empty()
    } else {
        let before = undated_of(goals.drop_last());
        if goals.last().1 is None {
            before.push(goals.last().0)
        } else {
            before
        }
    }
}

/// Where a move takes a goal among its container's goals: only those with no
/// date have a manual order to move in.
pub fn reorder(goals: &Vec<(GoalId, Option<Date>)>, goal: GoalId, way: Move) -> (to: Result<
    Option<usize>,
    String,
>)
    ensures
        match moved_to(undated_of(goals@), goal, way) {
            Ok(Some(place)) => to is Ok && to->Ok_0 is Some && to->Ok_0->0 == place,
            Ok(None) => to is Ok && to->Ok_0 is None,
            Err(why) => to is Err && to->Err_0@ == why,
        },
{
    let mut undated: Vec<GoalId> = Vec::new();
    let mut at: usize = 0;
    while at < goals.len()
        invariant
            at <= goals@.len(),
            undated@ == undated_of(goals@.take(at as int)),
        decreases goals@.len() - at,
    {
        proof {
            assert(goals@.take(at + 1).drop_last() =~= goals@.take(at as int));
        }
        if goals[at].1.is_none() {
            undated.push(goals[at].0);
        }
        at = at + 1;
    }
    proof {
        assert(goals@.take(at as int) =~= goals@);
    }
    place_moved(&undated, goal, way)
}

/// The goals of a container a goal's value may move to: every one but itself,
/// in their order.
pub open spec fn siblings_of(goals: Seq<(GoalId, String)>, goal: GoalId) -> Seq<(GoalId, String)>
    decreases goals.len(),
{
    if goals.len() == 0 {
        Seq::empty()
    } else {
        let before = siblings_of(goals.drop_last(), goal);
        if goals.last().0 == goal {
            before
        } else {
            before.push(goals.last())
        }
    }
}

/// The goals of a container that the value of `goal` may move to.
///
/// Built from the container rather than from the rows on screen: a search
/// must not narrow where value may land.
pub fn siblings(goals: Vec<(GoalId, String)>, goal: GoalId) -> (others: Vec<(GoalId, String)>)
    ensures
        others@ == siblings_of(goals@, goal),
{
    let mut others: Vec<(GoalId, String)> = Vec::new();
    let mut at: usize = 0;
    while at < goals.len()
        invariant
            at <= goals@.len(),
            others@ == siblings_of(goals@.take(at as int), goal),
        decreases goals@.len() - at,
    {
        proof {
            assert(goals@.take(at + 1).drop_last() =~= goals@.take(at as int));
        }
        if goals[at].0 != goal {
            others.push((goals[at].0, goals[at].1.clone()));
        }
        at = at + 1;
    }
    proof {
        assert(goals@.take(at as int) =~= goals@);
    }
    others
}

/// The goals part of a goal's value may move to. A container that holds no
/// other open goal is refused, rather than opening a form over nothing to
/// choose from.
pub fn transfer_targets(goals: Vec<(GoalId, String)>, goal: GoalId) -> (others: Result<
    Vec<(GoalId, String)>,
    &'static str,
>)
    ensures
        match others {
            Ok(others) => others@ == siblings_of(goals@, goal) && others@.len() > 0,
            Err(why) => siblings_of(goals@, goal).len() == 0 && why@
                == "this container has no other open goal to move value to"@,
        },
{
    let others = siblings(goals, goal);
    if others.len() == 0 {
        Err("this container has no other open goal to move value to")
    } else {
        Ok(others)
    }
}

/// A goal's own value never moves to itself, and may move to every other goal
/// of its container.
pub proof fn siblings_are_every_other_goal(
    goals: Seq<(GoalId, String)>,
    goal: GoalId,
    other: (GoalId, String),
)
    ensures
        siblings_of(goals, goal).contains(other) <==> goals.contains(other) && other.0 != goal,
    decreases goals.len(),
{
    if goals.len() > 0 {
        let before = siblings_of(goals.drop_last(), goal);
        let whole = siblings_of(goals, goal);
        siblings_are_every_other_goal(goals.drop_last(), goal, other);
        if whole.contains(other) {
            let i = whole.index_of(other);
            assert(whole[i] == other);
            if i < before.len() {
                assert(before[i] == other);
                let j = goals.drop_last().index_of(other);
                assert(goals[j] == other);
            } else {
                assert(goals[goals.len() - 1] == other);
            }
        }
        if goals.contains(other) && other.0 != goal {
            let j = goals.index_of(other);
            assert(goals[j] == other);
            if j < goals.len() - 1 {
                assert(goals.drop_last()[j] == other);
                let i = before.index_of(other);
                assert(whole[i] == other);
            } else {
                assert(whole[whole.len() - 1] == other);
            }
        }
    }
}

/// `Esc` drops a kept needle before it touches either filter, and then takes
/// both filters together.
pub proof fn a_needle_goes_before_the_dials(savings: SavingsView, key: KeyEvent)
    requires
        key.code is Esc,
    ensures
        savings.list.search.needle().len() > 0 ==> ({
            let after = savings.pressed(key).0;
            &&& after.list.search.needle().len() == 0
            &&& after.containers == savings.containers
            &&& after.months == savings.months
        }),
        savings.list.search.needle().len() == 0 ==> ({
            let after = savings.pressed(key).0;
            &&& after.containers.chosen() is None
            &&& after.months.chosen() is None
        }),
{
}

/// Whatever key is pressed, the goals drawn are those the filters and the
/// needle leave and the cursor is among them.
pub proof fn the_savings_stay_settled(savings: SavingsView, key: KeyEvent)
    requires
        savings.list.settled(),
    ensures
        savings.pressed(key).0.list.settled(),
        savings.dialled().list.settled(),
{
}

proof fn lemma_place_of_goal(list: ListingView<SavingsRow>, goal: GoalId, from: int)
    requires
        0 <= from <= list.visible.len(),
    ensures
        from <= place_of_goal(list, goal, from) <= list.visible.len(),
        place_of_goal(list, goal, from) < list.visible.len() ==> list.row(
            place_of_goal(list, goal, from),
        ).goal == goal,
    decreases list.visible.len() - from,
{
    if from < list.visible.len() && list.row(from).goal != goal {
        lemma_place_of_goal(list, goal, from + 1);
    }
}

/// Putting the cursor on a goal leaves it among the goals drawn.
pub proof fn a_goal_found_is_in_the_list(savings: SavingsView, goal: GoalId)
    requires
        savings.list.settled(),
    ensures
        savings.on_goal(goal).list.settled(),
{
    lemma_place_of_goal(savings.list, goal, 0);
}

/// The cursor follows the goal it moved: wherever the goal is drawn, it is
/// the one under the cursor afterwards.
pub proof fn the_cursor_follows_the_goal(savings: SavingsView, goal: GoalId, place: int)
    requires
        savings.list.settled(),
        0 <= place < savings.list.visible.len(),
        savings.list.row(place).goal == goal,
    ensures
        savings.on_goal(goal).list.chosen() is Some,
        savings.on_goal(goal).list.chosen()->0.goal == goal,
{
    lemma_place_of_goal(savings.list, goal, 0);
    lemma_found_by(savings.list, goal, 0, place);
}

proof fn lemma_found_by(list: ListingView<SavingsRow>, goal: GoalId, from: int, place: int)
    requires
        0 <= from <= place < list.visible.len(),
        list.row(place).goal == goal,
    ensures
        place_of_goal(list, goal, from) <= place,
    decreases place - from,
{
    if list.row(from).goal != goal {
        lemma_found_by(list, goal, from + 1, place);
    }
}

/// The words an allocation is reported in.
pub open spec fn allocated_words(cents: Cents) -> Seq<PieceView> {
    said::words("allocated "@) + said::amount(cents) + said::words(
        " · U undoes the last batch, not this"@,
    )
}

/// What the status line says of an allocation that was written.
pub fn allocated_status(cents: Cents) -> (status: Said)
    ensures
        status@ == allocated_words(cents),
{
    Said::of("allocated ").amount(cents).words(" · U undoes the last batch, not this")
}

/// The words a move of value between goals is reported in. Unlike every other
/// write on the screen this one is a batch, so `U` really does undo it.
pub open spec fn moved_words(cents: Cents) -> Seq<PieceView> {
    said::words("moved "@) + said::amount(cents) + said::words(" · U undoes it"@)
}

/// What the status line says of value that moved between goals.
pub fn moved_status(cents: Cents) -> (status: Said)
    ensures
        status@ == moved_words(cents),
{
    Said::of("moved ").amount(cents).words(" · U undoes it")
}

/// What the status line says of a goal that ended: whether its value went to
/// another goal or back to the pot.
pub fn closed_status(to: Option<GoalId>) -> (status: &'static str)
    ensures
        status@ == (if to is Some {
            "closed, value moved · U undoes the last batch, not this"@
        } else {
            "closed, value returned to unallocated · U undoes the last batch, not this"@
        }),
{
    match to {
        None => "closed, value returned to unallocated · U undoes the last batch, not this",
        Some(_) => "closed, value moved · U undoes the last batch, not this",
    }
}

/// The words a posting is reported in.
pub open spec fn posted_words(total: Cents, goals: int) -> Seq<PieceView> {
    said::words("posted "@) + said::amount(total) + said::words(" across "@) + said::words(
        decimal(goals),
    ) + said::words(" goals · U undoes it"@)
}

/// What the status line says of a posting that was written.
pub fn posted_status(total: Cents, goals: usize) -> (status: Said)
    ensures
        status@ == posted_words(total, goals as int),
{
    Said::of("posted ").amount(total).words(" across ").words(&write_number(goals as u64)).words(
        " goals · U undoes it",
    )
}

/// A container's pot is the amount listed beside it, and nothing where it is
/// not listed.
pub proof fn a_containers_pot_is_its_own(
    savings: SavingsView,
    container: AccountId,
    amount: Cents,
)
    requires
        forall|i: int, j: int|
            0 <= i < j < savings.excess.len() ==> (#[trigger] savings.excess[i]).0 != (
            #[trigger] savings.excess[j]).0,
    ensures
        savings.excess.contains((container, amount)) ==> savings.unallocated(container) == amount,
        (forall|i: int|
            0 <= i < savings.excess.len() ==> (#[trigger] savings.excess[i]).0 != container)
            ==> savings.unallocated(container) == Cents(0),
{
    lemma_unallocated(savings.excess, container, amount);
}

proof fn lemma_unallocated(excess: Seq<(AccountId, Cents)>, container: AccountId, amount: Cents)
    requires
        forall|i: int, j: int|
            0 <= i < j < excess.len() ==> (#[trigger] excess[i]).0 != (#[trigger] excess[j]).0,
    ensures
        excess.contains((container, amount)) ==> unallocated_in(excess, container) == amount,
        (forall|i: int| 0 <= i < excess.len() ==> (#[trigger] excess[i]).0 != container)
            ==> unallocated_in(excess, container) == Cents(0),
    decreases excess.len(),
{
    if excess.len() > 0 {
        let rest = excess.drop_first();
        assert forall|i: int, j: int| 0 <= i < j < rest.len() implies (#[trigger] rest[i]).0 != (
        #[trigger] rest[j]).0 by {
            assert(rest[i] == excess[i + 1]);
            assert(rest[j] == excess[j + 1]);
        }
        lemma_unallocated(rest, container, amount);
        if excess.contains((container, amount)) {
            let at = excess.index_of((container, amount));
            if at > 0 {
                assert(rest[at - 1] == (container, amount));
                assert(excess[0].0 != excess[at].0);
            }
        }
        if forall|i: int| 0 <= i < excess.len() ==> (#[trigger] excess[i]).0 != container {
            assert forall|i: int| 0 <= i < rest.len() implies (#[trigger] rest[i]).0
                != container by {
                assert(rest[i] == excess[i + 1]);
            }
            assert(excess[0].0 != container);
        }
    }
}

/// The container acted on is the very one the screen is narrowed to; only
/// under All is it the first listed, and there is none only where none is.
pub proof fn the_narrowed_container_is_the_one_acted_on(savings: SavingsView)
    ensures
        savings.containers.at matches Some(at) ==> savings.default_container() == Some(
            AccountId(savings.containers.choices[at]),
        ),
        savings.containers.at is None && savings.excess.len() > 0 ==> savings.default_container()
            == Some(savings.excess[0].0),
        savings.containers.at is None && savings.excess.len() == 0
            ==> savings.default_container() is None,
{
}

/// A goal is drawn exactly where it is in the container and the month the
/// screen is narrowed to and its name answers the needle; a goal with no date
/// is in no month.
pub proof fn a_goal_is_drawn_where_every_filter_leaves_it(
    row: SavingsRow,
    filter: SavingsFilter,
    needle: Seq<char>,
)
    ensures
        row.found(filter, needle) ==> answers(row.name@, needle),
        row.found(filter, needle) && filter.container is Some ==> row.container.0
            == filter.container->0,
        row.found(filter, needle) && filter.month is Some ==> row.date is Some && row.date->0@.year
            * 12 + row.date->0@.month - 1 == filter.month->0,
        answers(row.name@, needle) && (filter.container is None || row.container.0
            == filter.container->0) && (filter.month is None || (row.date is Some
            && row.date->0@.year * 12 + row.date->0@.month - 1 == filter.month->0)) ==> row.found(
            filter,
            needle,
        ),
{
}

/// The goals with a manual order are those without a date, in their order.
pub proof fn only_undated_goals_are_ordered_by_hand(
    goals: Seq<(GoalId, Option<Date>)>,
    next: (GoalId, Option<Date>),
)
    ensures
        undated_of(Seq::empty()) == Seq::<GoalId>::empty(),
        next.1 is None ==> undated_of(goals.push(next)) == undated_of(goals).push(next.0),
        next.1 is Some ==> undated_of(goals.push(next)) == undated_of(goals),
{
    assert(goals.push(next).drop_last() =~= goals);
}

/// A move takes a goal one place up or down among the undated, and nowhere
/// past either end.
pub proof fn a_move_is_one_place(undated: Seq<GoalId>, at: int)
    requires
        0 <= at < undated.len(),
        forall|i: int| 0 <= i < at ==> undated[i] != undated[at],
    ensures
        moved_to(undated, undated[at], Move::Up) == (if at > 0 {
            Ok::<Option<int>, Seq<char>>(Some(at - 1))
        } else {
            Ok::<Option<int>, Seq<char>>(None)
        }),
        moved_to(undated, undated[at], Move::Down) == (if at + 1 < undated.len() {
            Ok::<Option<int>, Seq<char>>(Some(at + 1))
        } else {
            Ok::<Option<int>, Seq<char>>(None)
        }),
{
    undated.index_of_first_ensures(undated[at]);
    let first = undated.index_of_first(undated[at])->0;
    if first < at {
        assert(undated[first] != undated[at]);
    }
}

/// A goal not among those it is moved in is not moved.
pub proof fn a_goal_not_listed_is_not_moved(undated: Seq<GoalId>, goal: GoalId, way: Move)
    requires
        !undated.contains(goal),
    ensures
        moved_to(undated, goal, way) is Err,
{
    undated.index_of_first_ensures(goal);
}

/// The goals value may move to keep their order.
pub proof fn siblings_keep_their_order(
    goals: Seq<(GoalId, String)>,
    next: (GoalId, String),
    goal: GoalId,
)
    ensures
        siblings_of(Seq::empty(), goal) == Seq::<(GoalId, String)>::empty(),
        next.0 == goal ==> siblings_of(goals.push(next), goal) == siblings_of(goals, goal),
        next.0 != goal ==> siblings_of(goals.push(next), goal) == siblings_of(goals, goal).push(
            next,
        ),
{
    assert(goals.push(next).drop_last() =~= goals);
}

/// A goal can be moved where one is under the cursor, nothing is searched for
/// and it has no date; it is that goal, in its own container, that is moved.
pub proof fn the_goal_moved_is_the_one_under_the_cursor(savings: SavingsView)
    ensures
        savings.list.chosen() is None ==> savings.moving() == Err::<
            (GoalId, AccountId),
            Seq<PieceView>,
        >(said::words("nothing selected"@)),
        savings.list.chosen() matches Some(row) ==> {
            &&& (savings.list.search.needle().len() == 0 && row.date is None ==> savings.moving()
                == Ok::<(GoalId, AccountId), Seq<PieceView>>((row.goal, row.container)))
            &&& (savings.list.search.needle().len() > 0 || row.date is Some ==> savings.moving()
                is Err)
        },
{
}

/// The containers are dialled through in the order they are listed.
pub proof fn containers_are_dialled_in_order(excess: Seq<(AccountId, Cents)>, at: int)
    requires
        0 <= at < excess.len(),
    ensures
        containers_of(excess).len() == excess.len(),
        containers_of(excess)[at] == excess[at].0.0,
{
}

/// Each write to the savings says its own amount.
pub proof fn each_write_says_its_amount(cents: Cents, goals: int)
    ensures
        allocated_words(cents) == said::words("allocated "@) + said::amount(cents) + said::words(
            " · U undoes the last batch, not this"@,
        ),
        moved_words(cents) == said::words("moved "@) + said::amount(cents) + said::words(
            " · U undoes it"@,
        ),
        posted_words(cents, goals) == said::words("posted "@) + said::amount(cents) + said::words(
            " across "@,
        ) + said::words(decimal(goals)) + said::words(" goals · U undoes it"@),
{
}

} // verus!
