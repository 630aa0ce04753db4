//! Pointing one line of the plan at a goal, or at nothing.
//!
//! A list rather than a field: the thing being chosen is a goal that already
//! exists, and what is stored is the id under the cursor rather than a name
//! that might match several.

use crate::cursor::{is_scroll, Cursor, CursorView, Scroll, Viewport};
use crate::ids::{AccountId, GoalId};
use crate::key::{KeyCode, KeyEvent};
use crate::label::{name_among, Account};
use crate::plan_line::Line;
use crate::search::{
    a_list_draws_exactly_the_rows_found, answers, is_match, kept, raw, spans_of, Listing,
    ListingView, Search, SearchBox, SearchView, Sought, Span, SpanView, Unfiltered,
};
use crate::step::StepView;
use vstd::prelude::*;
use vstd::string::*;

verus! {

/// A goal as the list offers it: what it is called and where it sits.
#[derive(Debug)]
pub struct Offered {
    pub id: GoalId,
    pub name: String,
    pub container: String,
}

impl Clone for Offered {
    fn clone(&self) -> (copy: Offered)
        ensures
            copy == *self,
    {
        Offered { id: self.id, name: self.name.clone(), container: self.container.clone() }
    }
}

/// A goal as the list offers it, its container called what `accounts` call
/// it.
pub fn offer(goal: GoalId, name: String, container: AccountId, accounts: &[Account]) -> (offered:
    Offered)
    ensures
        offered.id == goal,
        offered.name@ == name@,
        offered.container@ == name_among(accounts@, container),
{
    Offered { id: goal, name, container: Account::named(accounts, container).name }
}

/// Why one goal was lifted to the top of the list.
///
/// At most one is, and it is the row the list opens on -- which is what keeps
/// the withdrawal beneath it on screen.
#[derive(Copy, Clone, Debug, PartialEq, Eq, Structural)]
pub enum Lifted {
    /// The line's own name matches it and nothing else claims it.
    Suggested,
    /// The line already points at it.
    Current,
}

/// One row of the list.
#[derive(Debug, PartialEq, Eq)]
pub enum Choice {
    /// Clear the line. The money leaves the books -- a destination in its own
    /// right, so it is a row to choose rather than an absence to back out
    /// into.
    Unset,
    Goal { id: GoalId, name: String, container: String, lifted: Option<Lifted> },
}

/// What a [`Choice`] stands for.
pub enum ChoiceView {
    Unset,
    Goal { id: GoalId, name: Seq<char>, container: Seq<char>, lifted: Option<Lifted> },
}

impl View for Choice {
    type V = ChoiceView;

    open spec fn view(&self) -> ChoiceView {
        match self {
            Choice::Unset => ChoiceView::Unset,
            Choice::Goal { id, name, container, lifted } => ChoiceView::Goal {
                id: *id,
                name: name@,
                container: container@,
                lifted: *lifted,
            },
        }
    }
}

impl Choice {
    /// What a search matches the row by. The withdrawal has no name.
    pub fn name(&self) -> (name: &str)
        ensures
            match *self {
                Choice::Unset => name@ == ""@,
                Choice::Goal { name: called, .. } => name@ == called@,
            },
    {
        match self {
            Choice::Unset => "",
            Choice::Goal { name, .. } => name.as_str(),
        }
    }

    /// The three cells the row is drawn as: what is chosen, where it sits,
    /// and why it was lifted.
    pub open spec fn cells(self) -> (Seq<char>, Seq<char>, Seq<char>) {
        match self {
            Choice::Unset => ("— withdrawal: leaves the tracked system —"@, ""@, ""@),
            Choice::Goal { name, container, lifted, .. } => (
                name@,
                container@,
                match lifted {
                    Some(Lifted::Suggested) => "suggested"@,
                    Some(Lifted::Current) => "current"@,
                    None => ""@,
                },
            ),
        }
    }

    /// What the row is drawn as, cell by cell.
    pub fn drawn_cells(&self) -> (cells: (&str, &str, &str))
        ensures
            (cells.0@, cells.1@, cells.2@) == self.cells(),
    {
        match self {
            Choice::Unset => ("— withdrawal: leaves the tracked system —", "", ""),
            Choice::Goal { name, container, lifted, .. } => (
                name.as_str(),
                container.as_str(),
                match lifted {
                    Some(Lifted::Suggested) => "suggested",
                    Some(Lifted::Current) => "current",
                    None => "",
                },
            ),
        }
    }

    /// Whether the row is drawn as a prompt. Only the suggestion is: where a
    /// line already points is a statement of fact.
    pub fn is_prompt(&self) -> (prompt: bool)
        ensures
            prompt == (self matches Choice::Goal { lifted: Some(Lifted::Suggested), .. }),
    {
        match self {
            Choice::Goal { lifted: Some(Lifted::Suggested), .. } => true,
            _ => false,
        }
    }
}

impl Sought for Choice {
    type Filter = Unfiltered;

    /// The withdrawal survives every search: it has no name to match on, and
    /// a filter that hid it would make clearing a line reachable only by
    /// clearing the filter first.
    open spec fn found(&self, filter: Unfiltered, needle: Seq<char>) -> bool {
        match self {
            Choice::Unset => true,
            Choice::Goal { name, .. } => answers(name@, needle),
        }
    }

    fn is_found(&self, filter: Unfiltered, needle: &str) -> (found: bool) {
        match self {
            Choice::Unset => true,
            Choice::Goal { name, .. } => is_match(name.as_str(), needle),
        }
    }
}

/// The rows as their views.
pub open spec fn choices_of(rows: Seq<Choice>) -> Seq<ChoiceView> {
    Seq::new(rows.len(), |i: int| rows[i]@)
}

pub open spec fn as_choice(goal: Offered, lifted: Option<Lifted>) -> ChoiceView {
    ChoiceView::Goal { id: goal.id, name: goal.name@, container: goal.container@, lifted }
}

/// The goals on offer in their own order, without the one lifted.
pub open spec fn unlifted(offered: Seq<Offered>, lifted: Option<GoalId>) -> Seq<ChoiceView>
    decreases offered.len(),
{
    if offered.len() == 0 {
        Seq::empty()
    } else {
        let before = unlifted(offered.drop_last(), lifted);
        if lifted == Some(offered.last().id) {
            before
        } else {
            before.push(as_choice(offered.last(), None))
        }
    }
}

/// Which goal is lifted, and why. The suggestion wins where both could.
pub open spec fn lifted_of(current: Option<Offered>, suggestion: Option<Offered>) -> Option<
    (Offered, Lifted),
> {
    match (suggestion, current) {
        (Some(goal), _) => Some((goal, Lifted::Suggested)),
        (None, Some(goal)) => Some((goal, Lifted::Current)),
        (None, None) => None,
    }
}

/// The list in the order it opens: the one lifted goal if there is one, the
/// withdrawal, and every other goal on offer.
pub open spec fn listed(offered: Seq<Offered>, lifted: Option<(Offered, Lifted)>) -> Seq<
    ChoiceView,
> {
    match lifted {
        Some((goal, why)) => seq![as_choice(goal, Some(why)), ChoiceView::Unset] + unlifted(
            offered,
            Some(goal.id),
        ),
        None => seq![ChoiceView::Unset] + unlifted(offered, None),
    }
}

/// The list, its filter, and where the cursor is in it.
#[derive(Debug)]
pub struct Chooser {
    line: Line,
    list: Listing<Choice>,
}

/// What a [`Chooser`] stands for.
pub struct ChooserView {
    pub line: Line,
    pub list: ListingView<Choice>,
}

impl ChooserView {
    /// The border's words: which line is being pointed, what the keys do, and
    /// the box wherever it is open or narrowing the list.
    ///
    /// An open box is drawn even while it is empty, so `/` is never a key that
    /// seems to do nothing.
    pub open spec fn title(self) -> Seq<SpanView> {
        let named = seq![
            raw(self.line.word() + " — / search · Enter choose · Esc cancel"@),
        ];
        if self.list.search.open || self.list.search.needle().len() > 0 {
            named.push(raw(" · /"@)) + self.list.search.spans()
        } else {
            named
        }
    }

    /// What the row under the cursor would write: the goal's id, or nothing
    /// for the withdrawal.
    pub open spec fn picked(self) -> Option<Choice> {
        self.list.chosen()
    }
}

impl View for Chooser {
    type V = ChooserView;

    closed spec fn view(&self) -> ChooserView {
        ChooserView { line: self.line, list: self.list@ }
    }
}

impl Scroll for Chooser {
    type Shown = ChooserView;

    open spec fn shown(&self) -> ChooserView {
        self@
    }

    open spec fn cursor_of(shown: ChooserView) -> CursorView {
        shown.list.cursor
    }

    open spec fn with_cursor(shown: ChooserView, cursor: CursorView) -> ChooserView {
        ChooserView { list: ListingView { cursor, ..shown.list }, ..shown }
    }

    open spec fn rows_of(shown: ChooserView) -> int {
        shown.list.visible.len() as int
    }

    fn cursor(&self) -> (cursor: &Cursor) {
        self.list.cursor()
    }

    fn cursor_mut(&mut self) -> (cursor: &mut Cursor) {
        self.list.cursor_mut()
    }

    fn row_count(&self) -> (count: usize) {
        self.list.row_count()
    }
}

impl Search for Chooser {
    type Model = ChooserView;

    open spec fn model(&self) -> ChooserView {
        self@
    }

    open spec fn box_of(model: ChooserView) -> SearchView {
        model.list.search
    }

    open spec fn with_box(model: ChooserView, search: SearchView) -> ChooserView {
        ChooserView { list: model.list.with_search(search), ..model }
    }

    open spec fn narrowed(model: ChooserView) -> ChooserView {
        ChooserView { list: model.list.narrowed(), ..model }
    }

    fn search_box(&self) -> (search: &SearchBox) {
        self.list.search_box()
    }

    fn search_box_mut(&mut self) -> (search: &mut SearchBox) {
        self.list.search_box_mut()
    }

    fn refilter(&mut self) {
        self.list.refilter();
    }
}

impl Chooser {
    /// The list in the order it opens: the one lifted goal if there is one,
    /// then the withdrawal, then every goal on offer in its own order.
    ///
    /// It always opens at the top, which is the whole reason anything is
    /// lifted: the row most likely wanted is under the cursor, and the
    /// withdrawal is beside it. `Enter` straight away is therefore agreement
    /// or a no-op, never a silent re-pointing.
    ///
    /// `current` and `suggestion` are goals rather than ids because the goal
    /// a line names need not be among those on offer: a closed goal is still
    /// a real row the line still points at.
    pub fn new(
        line: Line,
        offered: Vec<Offered>,
        current: Option<Offered>,
        suggestion: Option<Offered>,
    ) -> (chooser: Chooser)
        ensures
            chooser@.line == line,
            choices_of(chooser@.list.rows) == listed(offered@, lifted_of(current, suggestion)),
            chooser@.list == ListingView::fresh(chooser@.list.rows, Unfiltered),
            chooser@.list.settled(),
            chooser@.list.cursor.index == 0,
    {
        let ghost lifted = lifted_of(current, suggestion);
        let mut choices: Vec<Choice> = Vec::new();
        let promoted: Option<GoalId> = match (suggestion, current) {
            (Some(goal), _) => {
                let id = goal.id;
                choices.push(
                    Choice::Goal {
                        id,
                        name: goal.name,
                        container: goal.container,
                        lifted: Some(Lifted::Suggested),
                    },
                );
                Some(id)
            },
            (None, Some(goal)) => {
                let id = goal.id;
                choices.push(
                    Choice::Goal {
                        id,
                        name: goal.name,
                        container: goal.container,
                        lifted: Some(Lifted::Current),
                    },
                );
                Some(id)
            },
            (None, None) => None,
        };
        choices.push(Choice::Unset);
        let ghost head = choices_of(choices@);
        let mut at: usize = 0;
        while at < offered.len()
            invariant
                at <= offered@.len(),
                choices_of(choices@) == head + unlifted(offered@.take(at as int), promoted),
            decreases offered@.len() - at,
        {
            let ghost so_far = choices@;
            proof {
                assert(offered@.take(at + 1).drop_last() =~= offered@.take(at as int));
            }
            let goal: &Offered = &offered[at];
            let repeated = match promoted {
                Some(id) => id == goal.id,
                None => false,
            };
            if !repeated {
                choices.push(
                    Choice::Goal {
                        id: goal.id,
                        name: goal.name.clone(),
                        container: goal.container.clone(),
                        lifted: None,
                    },
                );
                proof {
                    assert(choices_of(choices@) =~= choices_of(so_far).push(
                        as_choice(*goal, None),
                    ));
                    assert(choices_of(choices@) =~= head + unlifted(
                        offered@.take(at + 1),
                        promoted,
                    ));
                }
            }
            at = at + 1;
        }
        proof {
            assert(offered@.take(at as int) =~= offered@);
            assert(choices_of(choices@) =~= listed(offered@, lifted));
        }
        Chooser { line, list: Listing::new(choices, Unfiltered) }
    }

    pub fn line(&self) -> (line: Line)
        ensures
            line == self@.line,
    {
        self.line
    }

    /// The rows the search left, in list order.
    pub fn choices(&self) -> (rows: Vec<&Choice>)
        requires
            self@.list.settled(),
        ensures
            rows@.len() == self@.list.visible.len(),
            forall|i: int| 0 <= i < rows@.len() ==> *(#[trigger] rows@[i]) == self@.list.row(i),
    {
        self.list.drawn()
    }

    pub fn selected(&self) -> (row: Option<&Choice>)
        requires
            self@.list.settled(),
        ensures
            match row {
                Some(row) => self@.picked() == Some(*row),
                None => self@.picked() is None,
            },
    {
        self.list.selected()
    }

    /// Answer a list-navigation key, and say whether it was one.
    pub fn scroll(&mut self, code: KeyCode) -> (consumed: bool)
        ensures
            consumed == is_scroll(code),
            final(self)@ == (ChooserView { list: old(self)@.list.scrolled(code), ..old(self)@ }),
    {
        self.list.scroll(code)
    }

    /// Remember what a draw fitted.
    pub fn record(&mut self, viewport: Viewport)
        ensures
            final(self)@ == (ChooserView {
                list: old(self)@.list.drawn_in(viewport),
                ..old(self)@
            }),
    {
        self.list.record(viewport);
    }

    /// `Esc` outside the box drops a kept needle, and says whether there was
    /// one.
    pub fn escape_needle(&mut self) -> (escaped: bool)
        ensures
            escaped == (old(self)@.list.search.needle().len() > 0),
            final(self)@ == (ChooserView { list: old(self)@.list.needle_escaped(), ..old(self)@ }),
    {
        self.list.escape_needle()
    }

    /// The border's title, which is where the `/` box is drawn, caret and
    /// all: this list has no footer.
    pub fn title(&self) -> (title: Vec<Span>)
        ensures
            spans_of(title@) == self@.title(),
    {
        let mut named: String = self.line.label().to_owned();
        named.append(" — / search · Enter choose · Esc cancel");
        let mut spans: Vec<Span> = Vec::new();
        spans.push(Span { text: named, caret: false });
        if self.is_searching() || self.search().unicode_len() > 0 {
            spans.push(Span::raw(" · /"));
            let ghost head = spans@;
            let mut typed = self.search_spans();
            let ghost tail = typed@;
            spans.append(&mut typed);
            proof {
                assert(spans_of(spans@) =~= spans_of(head) + spans_of(tail));
                assert(spans_of(head) =~= seq![
                    raw(self@.line.word() + " — / search · Enter choose · Esc cancel"@),
                    raw(" · /"@),
                ]);
            }
        }
        proof {
            assert(spans_of(spans@) =~= self@.title());
        }
        spans
    }
}

proof fn lemma_unlifted(offered: Seq<Offered>, lifted: Option<GoalId>)
    ensures
        forall|i: int|
            0 <= i < unlifted(offered, lifted).len() ==> (#[trigger] unlifted(
                offered,
                lifted,
            )[i]) is Goal && lifted != Some(unlifted(offered, lifted)[i]->id),
    decreases offered.len(),
{
    if offered.len() > 0 {
        lemma_unlifted(offered.drop_last(), lifted);
        let before = unlifted(offered.drop_last(), lifted);
        let whole = unlifted(offered, lifted);
        assert forall|i: int| 0 <= i < whole.len() implies (#[trigger] whole[i]) is Goal && lifted
            != Some(whole[i]->id) by {
            if i < before.len() {
                assert(whole[i] == before[i]);
            }
        }
    }
}

/// The withdrawal is one row of the list and never more, first or second
/// whatever the line names.
pub proof fn the_withdrawal_is_listed_once_near_the_top(
    offered: Seq<Offered>,
    lifted: Option<(Offered, Lifted)>,
)
    ensures
        ({
            let rows = listed(offered, lifted);
            let place: int = if lifted is Some {
                1
            } else {
                0
            };
            &&& rows[place] is Unset
            &&& forall|i: int| 0 <= i < rows.len() && i != place ==> (#[trigger] rows[i]) is Goal
        }),
{
    let promoted = match lifted {
        Some((goal, _)) => Some(goal.id),
        None => None,
    };
    lemma_unlifted(offered, promoted);
    let rows = listed(offered, lifted);
    let tail = unlifted(offered, promoted);
    let place: int = if lifted is Some {
        1
    } else {
        0
    };
    assert forall|i: int| 0 <= i < rows.len() && i != place implies (#[trigger] rows[i]) is Goal by {
        if i > place {
            assert(rows[i] == tail[i - place - 1]);
        }
    }
}

/// A lifted goal heads the list and is nowhere else in it.
pub proof fn a_lifted_goal_is_listed_once_at_the_top(
    offered: Seq<Offered>,
    goal: Offered,
    why: Lifted,
)
    ensures
        ({
            let rows = listed(offered, Some((goal, why)));
            &&& rows[0] == as_choice(goal, Some(why))
            &&& forall|i: int|
                1 <= i < rows.len() ==> !((#[trigger] rows[i]) is Goal && rows[i]->id == goal.id)
        }),
{
    lemma_unlifted(offered, Some(goal.id));
    let rows = listed(offered, Some((goal, why)));
    let tail = unlifted(offered, Some(goal.id));
    assert forall|i: int| 1 <= i < rows.len() implies !((#[trigger] rows[i]) is Goal && rows[i]->id
        == goal.id) by {
        if i >= 2 {
            assert(rows[i] == tail[i - 2]);
        }
    }
}

/// The withdrawal is drawn whatever has been typed.
pub proof fn the_withdrawal_survives_every_search(chooser: ChooserView, at: int)
    requires
        chooser.list.settled(),
        0 <= at < chooser.list.rows.len(),
        chooser.list.rows[at] is Unset,
    ensures
        chooser.list.visible.contains(at),
{
    a_list_draws_exactly_the_rows_found(chooser.list, at);
}

proof fn lemma_everything_kept(rows: Seq<Choice>)
    ensures
        kept(rows, Unfiltered, Seq::empty()) == Seq::new(rows.len(), |i: int| i),
    decreases rows.len(),
{
    if rows.len() > 0 {
        lemma_everything_kept(rows.drop_last());
    }
    assert(kept(rows, Unfiltered, Seq::empty()) =~= Seq::new(rows.len(), |i: int| i));
}

/// With nothing typed every row is drawn, in list order.
pub proof fn an_empty_needle_draws_every_row(chooser: ChooserView)
    requires
        chooser.list.settled(),
        chooser.list.search.needle().len() == 0,
    ensures
        chooser.list.visible == Seq::new(chooser.list.rows.len(), |i: int| i),
{
    assert(chooser.list.search.needle() =~= Seq::empty());
    lemma_everything_kept(chooser.list.rows);
}

/// The list opens on the lifted goal, or on the withdrawal where none was:
/// `Enter` straight away never points a line anywhere it was not already
/// pointed or asked to be.
pub proof fn the_list_opens_on_the_lifted_goal(
    rows: Seq<Choice>,
    offered: Seq<Offered>,
    lifted: Option<(Offered, Lifted)>,
)
    requires
        choices_of(rows) == listed(offered, lifted),
    ensures
        ListingView::fresh(rows, Unfiltered).chosen() is Some,
        ListingView::fresh(rows, Unfiltered).chosen()->0@ == (match lifted {
            Some((goal, why)) => as_choice(goal, Some(why)),
            None => ChoiceView::Unset,
        }),
{
    lemma_everything_kept(rows);
    assert(choices_of(rows).len() == rows.len());
    assert(listed(offered, lifted).len() > 0);
    assert(choices_of(rows)[0] == rows[0]@);
}

/// What may be done to the list while it is open: the box over it edited, the
/// cursor moved, or a page of it drawn.
pub enum Handling {
    Begin,
    End,
    Clear,
    Push(char),
    Edit(KeyEvent),
    Caret(StepView),
    Move(KeyCode),
    Draw(Viewport),
}

impl ChooserView {
    pub open spec fn handled(self, how: Handling) -> ChooserView {
        let typed = Chooser::box_of(self);
        let cursor = Chooser::cursor_of(self);
        match how {
            Handling::Begin => Chooser::with_box(self, typed.begun()),
            Handling::End => Chooser::with_box(self, typed.ended()),
            Handling::Clear => Chooser::narrowed(Chooser::with_box(self, SearchView::shut())),
            Handling::Push(c) => Chooser::narrowed(Chooser::with_box(self, typed.typed(c))),
            Handling::Edit(key) => Chooser::narrowed(Chooser::with_box(self, typed.edited(key))),
            Handling::Caret(step) => Chooser::with_box(self, typed.caret_stepped(step)),
            Handling::Move(code) => Chooser::with_cursor(
                self,
                cursor.moved(code, Chooser::rows_of(self)),
            ),
            Handling::Draw(viewport) => Chooser::with_cursor(self, cursor.drawn_in(viewport)),
        }
    }

    /// The list once all of `steps` were done to it, in order.
    pub open spec fn after(self, steps: Seq<Handling>) -> ChooserView
        decreases steps.len(),
    {
        if steps.len() == 0 {
            self
        } else {
            self.after(steps.drop_last()).handled(steps.last())
        }
    }
}

proof fn lemma_handling_settles(chooser: ChooserView, steps: Seq<Handling>)
    requires
        chooser.list.settled(),
    ensures
        chooser.after(steps).list.settled(),
        chooser.after(steps).list.rows == chooser.list.rows,
        chooser.after(steps).line == chooser.line,
    decreases steps.len(),
{
    if steps.len() > 0 {
        lemma_handling_settles(chooser, steps.drop_last());
        let before = chooser.after(steps.drop_last());
        let after = before.handled(steps.last());
        assert(after.list.settled());
    }
}

/// Whatever is typed, erased or moved once the list has opened, a row is
/// selected, and it is the one drawn where the cursor is.
pub proof fn a_row_is_always_selected(
    chooser: ChooserView,
    offered: Seq<Offered>,
    lifted: Option<(Offered, Lifted)>,
    steps: Seq<Handling>,
)
    requires
        choices_of(chooser.list.rows) == listed(offered, lifted),
        chooser.list == ListingView::fresh(chooser.list.rows, Unfiltered),
    ensures
        ({
            let list = chooser.after(steps).list;
            &&& list.settled()
            &&& 0 <= list.cursor.index < list.visible.len()
            &&& chooser.after(steps).picked() == Some(list.row(list.cursor.index))
        }),
{
    let after = chooser.after(steps);
    lemma_handling_settles(chooser, steps);
    the_withdrawal_is_listed_once_near_the_top(offered, lifted);
    let place: int = if lifted is Some {
        1
    } else {
        0
    };
    let rows = chooser.list.rows;
    assert(choices_of(rows).len() == rows.len());
    assert(choices_of(rows)[place] == rows[place]@);
    the_withdrawal_survives_every_search(after, place);
    assert(after.list.visible[after.list.visible.index_of(place)] == place);
}

/// Every goal offered is listed once below, in the order offered, but the one
/// lifted to the top.
pub proof fn each_goal_is_offered_in_order(
    offered: Seq<Offered>,
    next: Offered,
    lifted: Option<GoalId>,
)
    ensures
        unlifted(Seq::empty(), lifted) == Seq::<ChoiceView>::empty(),
        lifted == Some(next.id) ==> unlifted(offered.push(next), lifted) == unlifted(
            offered,
            lifted,
        ),
        lifted != Some(next.id) ==> unlifted(offered.push(next), lifted) == unlifted(
            offered,
            lifted,
        ).push(
            ChoiceView::Goal {
                id: next.id,
                name: next.name@,
                container: next.container@,
                lifted: None,
            },
        ),
{
    assert(offered.push(next).drop_last() =~= offered);
}

/// A suggestion goes before what the line already points at, and is marked as
/// one; with neither, nothing is lifted.
pub proof fn a_suggestion_goes_before_the_current_goal(
    current: Option<Offered>,
    suggestion: Option<Offered>,
)
    ensures
        suggestion matches Some(goal) ==> lifted_of(current, suggestion) == Some(
            (goal, Lifted::Suggested),
        ),
        suggestion is None ==> (current matches Some(goal) ==> lifted_of(current, suggestion)
            == Some((goal, Lifted::Current))),
        suggestion is None && current is None ==> lifted_of(current, suggestion) is None,
{
}

/// A row reads as the goal it is, where it lives and why it was lifted.
pub proof fn a_choice_reads_as_its_goal(choice: Choice)
    ensures
        choice matches Choice::Goal { name, container, lifted, .. } ==> {
            &&& choice.cells().0 == name@
            &&& choice.cells().1 == container@
            &&& (lifted == Some(Lifted::Suggested) ==> choice.cells().2 == "suggested"@)
            &&& (lifted == Some(Lifted::Current) ==> choice.cells().2 == "current"@)
            &&& (lifted is None ==> choice.cells().2 == ""@)
        },
{
}

} // verus!
