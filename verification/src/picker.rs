//! The picker that turns catalog entries into the next round of goals.

use crate::cursor::{is_scroll, scroll_key, Cursor, CursorView, Scroll, Viewport};
use crate::date::Date;
use crate::ids::{AccountId, RecurringGoalId};
use crate::key::{KeyCode, KeyEvent};
use crate::money::Cents;
use crate::said::{self, PieceView, Said};
use crate::text::{decimal, write_number};
use vstd::prelude::*;
use vstd::string::*;

verus! {

/// A catalog entry, and how many goals created from it are still open.
#[derive(Debug)]
pub struct Entry {
    pub id: RecurringGoalId,
    pub name: String,
    pub month: i64,
    pub base: Cents,
    pub taxed: bool,
    pub open: usize,
}

impl Clone for Entry {
    fn clone(&self) -> (copy: Entry)
        ensures
            copy == *self,
    {
        Entry {
            id: self.id,
            name: self.name.clone(),
            month: self.month,
            base: self.base,
            taxed: self.taxed,
            open: self.open,
        }
    }
}

impl Entry {
    /// Whether a reseed takes the entry by default: it falls in the month the
    /// catalog is narrowed to, and no goal of an earlier round is open.
    pub open spec fn due(self, month: Option<i64>) -> bool {
        (month matches Some(month) ==> self.month == month) && self.open == 0
    }

    fn is_due(&self, month: Option<i64>) -> (due: bool)
        ensures
            due == self.due(month),
    {
        if let Some(month) = month {
            if self.month != month {
                return false;
            }
        }
        self.open == 0
    }
}

/// The entries that are due, or those that are not, in their order.
pub open spec fn entries_due(entries: Seq<Entry>, month: Option<i64>, due: bool) -> Seq<Entry>
    decreases entries.len(),
{
    if entries.len() == 0 {
        Seq::empty()
    } else {
        let before = entries_due(entries.drop_last(), month, due);
        if entries.last().due(month) == due {
            before.push(entries.last())
        } else {
            before
        }
    }
}

/// What a key asks of whoever holds the picker.
#[derive(Copy, Clone, Debug, PartialEq, Eq, Structural)]
pub enum PickerVerb {
    Answered,
    Close,
    Commit,
}

/// The entries, which of them are ticked, and where the cursor is.
#[derive(Debug)]
pub struct Picker {
    entries: Vec<Entry>,
    ticked: Vec<bool>,
    container: AccountId,
    cursor: Cursor,
}

/// What a [`Picker`] stands for.
pub struct PickerView {
    pub entries: Seq<Entry>,
    pub ticked: Seq<bool>,
    pub container: AccountId,
    pub cursor: CursorView,
}

impl PickerView {
    /// Every entry is ticked or not, and the cursor is on one while there are
    /// any.
    pub open spec fn valid(self) -> bool {
        &&& self.ticked.len() == self.entries.len()
        &&& self.cursor.within(self.entries.len() as int)
        &&& self.cursor.page_height >= 1
    }

    /// The picker as it opens: the entries due first and ticked, the rest
    /// below them, each in its own order.
    pub open spec fn opened(
        entries: Seq<Entry>,
        month: Option<i64>,
        container: AccountId,
    ) -> PickerView {
        let due = entries_due(entries, month, true);
        let rest = entries_due(entries, month, false);
        PickerView {
            entries: due + rest,
            ticked: Seq::new(due.len() + rest.len(), |i: int| i < due.len()),
            container,
            cursor: CursorView { index: 0, page_height: 1, offset: 0 },
        }
    }

    /// The entry under the cursor ticked, or unticked.
    pub open spec fn toggled(self) -> PickerView {
        let at = self.cursor.index;
        if at < self.ticked.len() {
            PickerView { ticked: self.ticked.update(at, !self.ticked[at]), ..self }
        } else {
            self
        }
    }

    /// The ticked ones of the first `upto` entries, in the order they are
    /// shown.
    pub open spec fn chosen_of(self, upto: int) -> Seq<Entry>
        decreases upto,
    {
        if upto <= 0 {
            Seq::empty()
        } else {
            let before = self.chosen_of(upto - 1);
            if self.ticked[upto - 1] {
                before.push(self.entries[upto - 1])
            } else {
                before
            }
        }
    }

    /// The ticked entries, in the order they are shown.
    pub open spec fn chosen(self) -> Seq<Entry> {
        self.chosen_of(self.entries.len() as int)
    }

    /// What a key leaves of the picker, and what it asks for.
    pub open spec fn pressed(self, key: KeyEvent) -> (PickerView, PickerVerb) {
        if key.code is Enter {
            (self, PickerVerb::Commit)
        } else if is_scroll(key.code) {
            (
                PickerView {
                    cursor: self.cursor.moved(key.code, self.entries.len() as int),
                    ..self
                },
                PickerVerb::Answered,
            )
        } else if key.code is Esc {
            (self, PickerVerb::Close)
        } else if key.code == KeyCode::Char(' ') {
            (self.toggled(), PickerVerb::Answered)
        } else {
            (self, PickerVerb::Answered)
        }
    }
}

impl View for Picker {
    type V = PickerView;

    closed spec fn view(&self) -> PickerView {
        PickerView {
            entries: self.entries@,
            ticked: self.ticked@,
            container: self.container,
            cursor: self.cursor@,
        }
    }
}

impl Scroll for Picker {
    type Shown = PickerView;

    open spec fn shown(&self) -> PickerView {
        self@
    }

    open spec fn cursor_of(shown: PickerView) -> CursorView {
        shown.cursor
    }

    open spec fn with_cursor(shown: PickerView, cursor: CursorView) -> PickerView {
        PickerView { cursor, ..shown }
    }

    open spec fn rows_of(shown: PickerView) -> int {
        shown.entries.len() as int
    }

    fn cursor(&self) -> (cursor: &Cursor) {
        &self.cursor
    }

    fn cursor_mut(&mut self) -> (cursor: &mut Cursor) {
        &mut self.cursor
    }

    fn row_count(&self) -> (count: usize) {
        self.entries.len()
    }
}

fn push_due(into: &mut Vec<Entry>, entries: &Vec<Entry>, month: Option<i64>, due: bool)
    ensures
        final(into)@ == old(into)@ + entries_due(entries@, month, due),
{
    let ghost head = into@;
    let mut at: usize = 0;
    while at < entries.len()
        invariant
            at <= entries@.len(),
            into@ == head + entries_due(entries@.take(at as int), month, due),
        decreases entries@.len() - at,
    {
        proof {
            assert(entries@.take(at + 1).drop_last() =~= entries@.take(at as int));
        }
        if entries[at].is_due(month) == due {
            into.push(entries[at].clone());
            proof {
                assert(into@ =~= head + entries_due(entries@.take(at + 1), month, due));
            }
        }
        at = at + 1;
    }
    proof {
        assert(entries@.take(at as int) =~= entries@);
    }
}

impl Picker {
    /// The picker over every entry of the catalog.
    ///
    /// The month preselects rather than narrows, and an entry that already
    /// has an open goal is left unticked: the annual reseed is what the
    /// preselection is for, and such an entry has already been through it.
    /// Ticks alone are easy to miss in a long list, so the ticked entries are
    /// also the ones it opens on.
    pub fn new(entries: Vec<Entry>, month: Option<i64>, container: AccountId) -> (picker: Picker)
        ensures
            picker@ == PickerView::opened(entries@, month, container),
            picker@.valid(),
    {
        let mut ordered: Vec<Entry> = Vec::new();
        push_due(&mut ordered, &entries, month, true);
        let due: usize = ordered.len();
        push_due(&mut ordered, &entries, month, false);
        let mut ticked: Vec<bool> = Vec::new();
        let mut at: usize = 0;
        while at < ordered.len()
            invariant
                at <= ordered@.len(),
                ticked@ == Seq::new(at as nat, |i: int| i < due),
            decreases ordered@.len() - at,
        {
            ticked.push(at < due);
            at = at + 1;
            proof {
                assert(ticked@ =~= Seq::new(at as nat, |i: int| i < due));
            }
        }
        let picker = Picker { entries: ordered, ticked, container, cursor: Cursor::new() };
        proof {
            assert(picker@.entries =~= PickerView::opened(entries@, month, container).entries);
            assert(picker@.ticked =~= PickerView::opened(entries@, month, container).ticked);
        }
        picker
    }

    /// The picker over a catalog, and a refusal of one with nothing in it.
    pub fn over(entries: Vec<Entry>, month: Option<i64>, container: AccountId) -> (picker: Result<
        Picker,
        &'static str,
    >)
        ensures
            match picker {
                Ok(picker) => entries@.len() > 0 && picker@ == PickerView::opened(
                    entries@,
                    month,
                    container,
                ) && picker@.valid(),
                Err(why) => entries@.len() == 0 && why@ == "there are no recurring goals"@,
            },
    {
        if entries.len() == 0 {
            Err("there are no recurring goals")
        } else {
            Ok(Picker::new(entries, month, container))
        }
    }

    pub fn container(&self) -> (container: AccountId)
        ensures
            container == self@.container,
    {
        self.container
    }

    pub fn entries(&self) -> (entries: &Vec<Entry>)
        ensures
            entries@ == self@.entries,
    {
        &self.entries
    }

    /// The ticked entries, in the order they are shown.
    pub fn chosen(&self) -> (chosen: Vec<Entry>)
        requires
            self@.valid(),
        ensures
            chosen@ == self@.chosen(),
    {
        let mut chosen: Vec<Entry> = Vec::new();
        let mut at: usize = 0;
        while at < self.entries.len()
            invariant
                at <= self.entries@.len(),
                self@.valid(),
                chosen@ == self@.chosen_of(at as int),
            decreases self.entries@.len() - at,
        {
            if self.ticked[at] {
                chosen.push(self.entries[at].clone());
            }
            at = at + 1;
        }
        chosen
    }

    fn toggle(&mut self)
        requires
            old(self)@.valid(),
        ensures
            final(self)@ == old(self)@.toggled(),
            final(self)@.valid(),
    {
        let at: usize = self.cursor.index();
        if at < self.ticked.len() {
            let on: bool = self.ticked[at];
            self.ticked.set(at, !on);
        }
    }

    /// Remember what a draw fitted, and where it started from.
    pub fn record(&mut self, viewport: Viewport)
        ensures
            final(self)@ == (PickerView {
                cursor: old(self)@.cursor.drawn_in(viewport),
                ..old(self)@
            }),
    {
        self.cursor.record_viewport(viewport);
    }

    /// Every key while the picker is open.
    pub fn picker_key(&mut self, key: KeyEvent) -> (verb: PickerVerb)
        requires
            old(self)@.valid(),
        ensures
            (final(self)@, verb) == old(self)@.pressed(key),
            final(self)@.valid(),
    {
        if let KeyCode::Enter = key.code {
            return PickerVerb::Commit;
        }
        if scroll_key(self, key.code) {
            return PickerVerb::Answered;
        }
        match key.code {
            KeyCode::Esc => PickerVerb::Close,
            KeyCode::Char(' ') => {
                self.toggle();
                PickerVerb::Answered
            },
            _ => PickerVerb::Answered,
        }
    }
}

/// Why a pick is refused.
#[derive(Copy, Clone, Debug, PartialEq, Eq, Structural)]
pub enum PickFault {
    /// No entry is ticked.
    NothingSelected,
    /// A ticked entry is taxed, and no tax rate is on record.
    NoTaxRate,
}

/// A goal about to be created.
#[derive(Debug)]
pub struct NewGoal {
    pub name: String,
    pub container: AccountId,
    pub base: Cents,
    pub date: Date,
    pub entry: RecurringGoalId,
    pub interest_eligible: bool,
    pub sort: i64,
    pub taxed: bool,
}

/// Whether any of `entries` is taxed.
pub open spec fn any_taxed(entries: Seq<Entry>) -> bool {
    exists|i: int| 0 <= i < entries.len() && (#[trigger] entries[i]).taxed
}

/// Why a pick is refused, if it is.
pub open spec fn refusal(chosen: Seq<Entry>, rate: bool) -> Option<PickFault> {
    if chosen.len() == 0 {
        Some(PickFault::NothingSelected)
    } else if any_taxed(chosen) && !rate {
        Some(PickFault::NoTaxRate)
    } else {
        None
    }
}

/// Why a pick is refused, if it is: nothing ticked, or a taxed entry on a book
/// with no tax rate, which would be a goal nothing could price.
pub fn pick_refused(chosen: &Vec<Entry>, rate: bool) -> (fault: Option<PickFault>)
    ensures
        fault == refusal(chosen@, rate),
{
    if chosen.len() == 0 {
        return Some(PickFault::NothingSelected);
    }
    if rate {
        return None;
    }
    let mut at: usize = 0;
    while at < chosen.len()
        invariant
            at <= chosen@.len(),
            chosen@.len() > 0,
            !rate,
            forall|i: int| 0 <= i < at ==> !(#[trigger] chosen@[i]).taxed,
        decreases chosen@.len() - at,
    {
        if chosen[at].taxed {
            return Some(PickFault::NoTaxRate);
        }
        at = at + 1;
    }
    None
}

/// Whether `goal` is what an entry creates: dated by `date`, and in place
/// `sort` of the container's order.
pub open spec fn created_from(
    goal: NewGoal,
    entry: Entry,
    container: AccountId,
    date: Date,
    sort: int,
) -> bool {
    &&& goal.name@ == entry.name@
    &&& goal.container == container
    &&& goal.base == entry.base
    &&& goal.date == date
    &&& goal.entry == entry.id
    &&& goal.interest_eligible
    &&& goal.sort == sort
    &&& goal.taxed == entry.taxed
}

/// One goal per chosen entry, each dated by its own date and all numbered in
/// the order they were shown, from `first_sort` on.
///
/// The entry's base and its flag are handed across rather than spent: a goal
/// made from a taxed entry is indistinguishable from one marked taxed by
/// hand.
pub fn new_goals(
    chosen: &Vec<Entry>,
    dates: &Vec<Date>,
    container: AccountId,
    first_sort: i64,
) -> (goals: Vec<NewGoal>)
    requires
        dates@.len() == chosen@.len(),
        first_sort + chosen@.len() <= i64::MAX,
    ensures
        goals@.len() == chosen@.len(),
        forall|i: int|
            0 <= i < goals@.len() ==> created_from(
                #[trigger] goals@[i],
                chosen@[i],
                container,
                dates@[i],
                first_sort + i,
            ),
{
    let mut goals: Vec<NewGoal> = Vec::new();
    let mut at: usize = 0;
    while at < chosen.len()
        invariant
            at <= chosen@.len(),
            goals@.len() == at,
            dates@.len() == chosen@.len(),
            first_sort + chosen@.len() <= i64::MAX,
            forall|i: int|
                0 <= i < goals@.len() ==> created_from(
                    #[trigger] goals@[i],
                    chosen@[i],
                    container,
                    dates@[i],
                    first_sort + i,
                ),
        decreases chosen@.len() - at,
    {
        let entry: &Entry = &chosen[at];
        let sort: i64 = (first_sort as i128 + at as i128) as i64;
        goals.push(
            NewGoal {
                name: entry.name.clone(),
                container,
                base: entry.base,
                date: dates[at],
                entry: entry.id,
                interest_eligible: true,
                sort,
                taxed: entry.taxed,
            },
        );
        at = at + 1;
    }
    goals
}

/// The words a round of goals is reported in.
pub open spec fn created_words(goals: int) -> Seq<PieceView> {
    said::words("created "@) + said::words(decimal(goals)) + said::words(" goals"@)
}

/// What the status line says of a round of goals that was created.
pub fn created_status(goals: usize) -> (status: Said)
    ensures
        status@ == created_words(goals as int),
{
    Said::of("created ").words(&write_number(goals as u64)).words(" goals")
}

proof fn lemma_due(entries: Seq<Entry>, month: Option<i64>, due: bool, entry: Entry)
    ensures
        entries_due(entries, month, due).contains(entry) <==> entries.contains(entry) && entry.due(
            month,
        ) == due,
    decreases entries.len(),
{
    if entries.len() > 0 {
        let before = entries_due(entries.drop_last(), month, due);
        let whole = entries_due(entries, month, due);
        lemma_due(entries.drop_last(), month, due, entry);
        if whole.contains(entry) {
            let i = whole.index_of(entry);
            if i < before.len() {
                assert(before[i] == entry);
                let j = entries.drop_last().index_of(entry);
                assert(entries[j] == entry);
            } else {
                assert(entries[entries.len() - 1] == entry);
            }
        }
        if entries.contains(entry) && entry.due(month) == due {
            let j = entries.index_of(entry);
            if j < entries.len() - 1 {
                assert(entries.drop_last()[j] == entry);
                let i = before.index_of(entry);
                assert(whole[i] == entry);
            } else {
                assert(whole[whole.len() - 1] == entry);
            }
        }
    }
}

/// The month preselects and does not narrow: every entry of the catalog is in
/// the picker, and none that is not.
pub proof fn every_entry_is_listed(
    entries: Seq<Entry>,
    month: Option<i64>,
    container: AccountId,
    entry: Entry,
)
    ensures
        PickerView::opened(entries, month, container).entries.contains(entry)
            <==> entries.contains(entry),
{
    let due = entries_due(entries, month, true);
    let rest = entries_due(entries, month, false);
    let whole = due + rest;
    lemma_due(entries, month, true, entry);
    lemma_due(entries, month, false, entry);
    if whole.contains(entry) {
        let i = whole.index_of(entry);
        if i < due.len() {
            assert(due[i] == entry);
        } else {
            assert(rest[i - due.len()] == entry);
        }
    }
    if due.contains(entry) {
        let i = due.index_of(entry);
        assert(whole[i] == entry);
    }
    if rest.contains(entry) {
        let i = rest.index_of(entry);
        assert(whole[due.len() + i] == entry);
    }
}

/// The entries ticked as the picker opens are those due, and they head it.
pub proof fn the_entries_due_are_ticked_and_first(
    entries: Seq<Entry>,
    month: Option<i64>,
    container: AccountId,
)
    ensures
        PickerView::opened(entries, month, container).chosen() == entries_due(
            entries,
            month,
            true,
        ),
        forall|i: int|
            0 <= i < entries_due(entries, month, true).len() ==> (#[trigger] PickerView::opened(
                entries,
                month,
                container,
            ).entries[i]).due(month),
{
    let picker = PickerView::opened(entries, month, container);
    let due = entries_due(entries, month, true);
    lemma_head_chosen(picker, due, picker.entries.len() as int);
    assert(due.take(due.len() as int) =~= due);
    assert forall|i: int| 0 <= i < due.len() implies (#[trigger] picker.entries[i]).due(month) by {
        assert(picker.entries[i] == due[i]);
        assert(due.contains(due[i]));
        lemma_due(entries, month, true, due[i]);
    }
}

proof fn lemma_head_chosen(picker: PickerView, due: Seq<Entry>, upto: int)
    requires
        picker.valid(),
        due.len() <= picker.entries.len(),
        0 <= upto <= picker.entries.len(),
        forall|i: int| 0 <= i < picker.ticked.len() ==> picker.ticked[i] == (i < due.len()),
        forall|i: int| 0 <= i < due.len() ==> picker.entries[i] == due[i],
    ensures
        picker.chosen_of(upto) == due.take(
            if upto < due.len() {
                upto
            } else {
                due.len() as int
            },
        ),
    decreases upto,
{
    if upto > 0 {
        lemma_head_chosen(picker, due, upto - 1);
        assert(picker.ticked[upto - 1] == (upto - 1 < due.len()));
    }
    assert(picker.chosen_of(upto) =~= due.take(
        if upto < due.len() {
            upto
        } else {
            due.len() as int
        },
    ));
}

/// Ticking an entry twice leaves the picker as it was.
pub proof fn a_tick_is_undone(picker: PickerView)
    requires
        picker.valid(),
    ensures
        picker.toggled().toggled() == picker,
        picker.toggled().valid(),
{
    assert(picker.toggled().toggled().ticked =~= picker.ticked);
}

/// An entry is due exactly where it is of the month the catalog is narrowed
/// to, or of any under every month, and has no goal open.
pub proof fn an_entry_with_a_goal_open_is_not_due(entry: Entry, month: Option<i64>)
    ensures
        entry.due(month) <==> entry.open == 0 && (month is None || month == Some(entry.month)),
{
}

/// The entries ticked are the ones chosen, each once, in the order they are
/// shown.
pub proof fn the_entries_ticked_are_the_ones_chosen(picker: PickerView, at: int)
    requires
        0 <= at < picker.entries.len(),
        picker.ticked.len() == picker.entries.len(),
    ensures
        picker.chosen_of(0) == Seq::<Entry>::empty(),
        picker.ticked[at] ==> picker.chosen_of(at + 1) == picker.chosen_of(at).push(
            picker.entries[at],
        ),
        !picker.ticked[at] ==> picker.chosen_of(at + 1) == picker.chosen_of(at),
        picker.chosen() == picker.chosen_of(picker.entries.len() as int),
{
}

/// A space ticks the entry under the cursor, or unticks it, and no other.
pub proof fn a_space_ticks_the_entry_under_the_cursor(picker: PickerView, other: int)
    requires
        picker.valid(),
        picker.entries.len() > 0,
        0 <= other < picker.entries.len(),
        other != picker.cursor.index,
    ensures
        picker.toggled().ticked[picker.cursor.index] == !picker.ticked[picker.cursor.index],
        picker.toggled().ticked[other] == picker.ticked[other],
        picker.toggled().entries == picker.entries,
        picker.toggled().cursor == picker.cursor,
        picker.toggled().container == picker.container,
{
}

/// The picker lists the entries due before the rest, each in the order of the
/// catalog, and ticks exactly those.
pub proof fn the_picker_opens_in_the_catalogs_order(
    entries: Seq<Entry>,
    next: Entry,
    month: Option<i64>,
    container: AccountId,
)
    ensures
        entries_due(Seq::empty(), month, true) == Seq::<Entry>::empty(),
        entries_due(Seq::empty(), month, false) == Seq::<Entry>::empty(),
        next.due(month) ==> entries_due(entries.push(next), month, true) == entries_due(
            entries,
            month,
            true,
        ).push(next) && entries_due(entries.push(next), month, false) == entries_due(
            entries,
            month,
            false,
        ),
        !next.due(month) ==> entries_due(entries.push(next), month, false) == entries_due(
            entries,
            month,
            false,
        ).push(next) && entries_due(entries.push(next), month, true) == entries_due(
            entries,
            month,
            true,
        ),
        ({
            let picker = PickerView::opened(entries, month, container);
            &&& picker.entries == entries_due(entries, month, true) + entries_due(
                entries,
                month,
                false,
            )
            &&& picker.container == container
            &&& picker.cursor.index == 0
            &&& picker.ticked.len() == picker.entries.len()
            &&& forall|i: int|
                0 <= i < picker.entries.len() ==> #[trigger] picker.ticked[i] == (i
                    < entries_due(entries, month, true).len())
        }),
{
    assert(entries.push(next).drop_last() =~= entries);
}

/// A pick is refused exactly where nothing is ticked, or where something
/// ticked is taxed and no rate is on record.
pub proof fn a_taxed_pick_needs_a_rate(chosen: Seq<Entry>, rate: bool, at: int)
    ensures
        refusal(chosen, rate) == Some(PickFault::NothingSelected) <==> chosen.len() == 0,
        0 <= at < chosen.len() && chosen[at].taxed && !rate ==> refusal(chosen, rate) == Some(
            PickFault::NoTaxRate,
        ),
        chosen.len() > 0 && rate ==> refusal(chosen, rate) is None,
        chosen.len() > 0 && (forall|i: int| 0 <= i < chosen.len() ==> !(#[trigger] chosen[i]).taxed)
            ==> refusal(chosen, rate) is None,
{
}

/// A goal made from an entry takes its name, its base and its tax across
/// unspent, takes interest, and stands where it was put.
pub proof fn a_goal_is_made_of_its_entry(
    goal: NewGoal,
    entry: Entry,
    container: AccountId,
    date: Date,
    sort: int,
)
    requires
        created_from(goal, entry, container, date, sort),
    ensures
        goal.name@ == entry.name@,
        goal.base == entry.base,
        goal.taxed == entry.taxed,
        goal.entry == entry.id,
        goal.container == container,
        goal.date == date,
        goal.sort == sort,
        goal.interest_eligible,
{
}

/// Over the picker `Enter` makes the goals ticked, `Esc` gives up, a space
/// ticks, and no key but a space changes a tick.
pub proof fn the_picker_answers_its_keys(picker: PickerView, key: KeyEvent)
    ensures
        ({
            let (after, verb) = picker.pressed(key);
            &&& after.entries == picker.entries
            &&& after.container == picker.container
            &&& (key.code is Enter ==> verb == PickerVerb::Commit && after == picker)
            &&& (key.code is Esc ==> verb == PickerVerb::Close && after == picker)
            &&& (!(key.code is Enter) && !(key.code is Esc) ==> verb == PickerVerb::Answered)
            &&& (key.code != KeyCode::Char(' ') ==> after.ticked == picker.ticked)
            &&& (key.code is Down ==> after.cursor == picker.cursor.below(
                picker.entries.len() as int,
            ))
            &&& (key.code is Up ==> after.cursor == picker.cursor.above())
        }),
{
}

} // verus!
