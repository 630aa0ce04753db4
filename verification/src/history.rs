//! One goal's allocation history: the list, and the two modes that correct a
//! row of it.
//!
//! Three modes of one thing, so `Esc` peels one layer at a time and nothing
//! opens over something already open.

use crate::autocomplete::{Autocomplete, PopupView};
use crate::confirm::Confirm;
use crate::cursor::{is_scroll, scroll_key, Cursor, CursorView, Scroll, Viewport};
use crate::date::Date;
use crate::form::{Form, FormFields, FormView};
use crate::form_keys::{form_key, form_pressed, FormVerb};
use crate::ids::{AccountId, AllocationId, GoalId};
use crate::key::{KeyCode, KeyEvent, Modifiers};
use crate::money::{sum, sums_fit, total, Cents};
use crate::said::{self, PieceView, Said};
use crate::screen::Topic;
use vstd::prelude::*;
use vstd::string::*;

verus! {

/// One allocation to the goal.
#[derive(Debug)]
pub struct HistoryRow {
    pub id: AllocationId,
    pub date: Date,
    pub cents: Cents,
    pub note: Option<String>,
}

/// What the history is doing.
#[derive(Debug)]
pub enum Mode {
    List,
    /// A row is being rewritten.
    Editing(Form),
    /// A row is being asked about.
    Confirming { action: Confirm, label: Said },
}

/// What a [`Mode`] stands for.
pub enum ModeView {
    List,
    Editing(FormView),
    Confirming { action: Confirm, label: Seq<PieceView> },
}

impl View for Mode {
    type V = ModeView;

    open spec fn view(&self) -> ModeView {
        match self {
            Mode::List => ModeView::List,
            Mode::Editing(form) => ModeView::Editing(form@),
            Mode::Confirming { action, label } => ModeView::Confirming {
                action: *action,
                label: label@,
            },
        }
    }
}

/// What a key asks of whoever holds the history.
#[derive(Copy, Clone, Debug, PartialEq, Eq, Structural)]
pub enum HistoryVerb {
    Answered,
    Close,
    /// Open the editor on the row under the cursor.
    BeginEdit(AllocationId),
    NothingSelected,
    /// Write what was typed into the editor.
    CommitEdit,
    Suggest,
    /// Make the write that was confirmed.
    Confirmed(Confirm),
    /// Say that it was not.
    Cancelled(Confirm),
}

/// The history of one goal.
#[derive(Debug)]
pub struct History {
    goal: GoalId,
    goal_name: String,
    container: AccountId,
    container_name: String,
    rows: Vec<HistoryRow>,
    cursor: Cursor,
    mode: Mode,
}

/// What a [`History`] stands for.
pub struct HistoryView {
    pub goal: GoalId,
    pub goal_name: Seq<char>,
    pub container: AccountId,
    pub container_name: Seq<char>,
    pub rows: Seq<HistoryRow>,
    pub cursor: CursorView,
    pub mode: ModeView,
}

impl HistoryView {
    /// The history of a goal as it opens, on its most recent allocation.
    pub open spec fn opened(
        goal: GoalId,
        goal_name: Seq<char>,
        container: AccountId,
        container_name: Seq<char>,
        rows: Seq<HistoryRow>,
    ) -> HistoryView {
        HistoryView {
            goal,
            goal_name,
            container,
            container_name,
            rows,
            cursor: CursorView { index: 0, page_height: 1, offset: 0 }.at_end(rows.len() as int),
            mode: ModeView::List,
        }
    }

    /// A row in one line, as the question about it names it.
    pub open spec fn summary(self, row: HistoryRow) -> Seq<PieceView> {
        said::words(row.date@.iso()) + said::words("  "@) + said::name(self.goal_name)
            + said::words("  "@) + said::amount(row.cents)
    }

    /// What each row gave the goal.
    pub open spec fn given(self) -> Seq<Cents> {
        Seq::new(self.rows.len(), |i: int| self.rows[i].cents)
    }

    /// The editor's caret is in one of its fields, and the cursor is on a row
    /// while there are any.
    pub open spec fn valid(self) -> bool {
        &&& (self.mode matches ModeView::Editing(form) ==> form.valid())
        &&& self.cursor.within(self.rows.len() as int)
        &&& self.cursor.page_height >= 1
    }

    /// The row under the cursor.
    pub open spec fn chosen(self) -> Option<HistoryRow> {
        if self.cursor.index < self.rows.len() {
            Some(self.rows[self.cursor.index])
        } else {
            None
        }
    }

    pub open spec fn in_mode(self, mode: ModeView) -> HistoryView {
        HistoryView { mode, ..self }
    }

    /// What a key leaves of the list, and what it asks for. `Enter` is
    /// deliberately unbound: it commits in the editing mode a keystroke away.
    pub open spec fn list_pressed(self, key: KeyEvent) -> (HistoryView, HistoryVerb) {
        if is_scroll(key.code) {
            (
                HistoryView {
                    cursor: self.cursor.moved(key.code, self.rows.len() as int),
                    ..self
                },
                HistoryVerb::Answered,
            )
        } else if key.code is Esc {
            (self, HistoryVerb::Close)
        } else if key.code == KeyCode::Char('e') {
            match self.chosen() {
                Some(row) => (self, HistoryVerb::BeginEdit(row.id)),
                None => (self, HistoryVerb::NothingSelected),
            }
        } else if key.code == KeyCode::Char('d') {
            match self.chosen() {
                Some(row) => (
                    self.in_mode(
                        ModeView::Confirming {
                            action: Confirm::DeleteAllocation(row.id),
                            label: self.summary(row),
                        },
                    ),
                    HistoryVerb::Answered,
                ),
                None => (self, HistoryVerb::NothingSelected),
            }
        } else {
            (self, HistoryVerb::Answered)
        }
    }

    /// What a key leaves of a question, and what it asks for: any key but `y`
    /// cancels, and a cancel returns to the list. The question stays up until
    /// the write it confirms is made.
    pub open spec fn confirm_pressed(self, action: Confirm, key: KeyEvent) -> (
        HistoryView,
        HistoryVerb,
    ) {
        if key.code == KeyCode::Char('y') {
            (self, HistoryVerb::Confirmed(action))
        } else {
            (self.in_mode(ModeView::List), HistoryVerb::Cancelled(action))
        }
    }

    /// What a key leaves of the editor and the suggestions under it, and what
    /// it asks for. `Esc` returns to the list rather than closing it.
    pub open spec fn edit_pressed(self, form: FormView, popup: PopupView, key: KeyEvent) -> (
        HistoryView,
        PopupView,
        HistoryVerb,
    ) {
        if key.code is Esc && popup.visible == 0 {
            (self.in_mode(ModeView::List), popup, HistoryVerb::Answered)
        } else {
            let pressed = form_pressed(form, popup, key);
            (
                self.in_mode(ModeView::Editing(pressed.shape)),
                pressed.popup,
                match pressed.verb {
                    FormVerb::Commit => HistoryVerb::CommitEdit,
                    FormVerb::Suggest => HistoryVerb::Suggest,
                    _ => HistoryVerb::Answered,
                },
            )
        }
    }

    /// What a key leaves of the history and the suggestions under it, and
    /// what it asks for.
    pub open spec fn pressed(self, popup: PopupView, key: KeyEvent) -> (
        HistoryView,
        PopupView,
        HistoryVerb,
    ) {
        match self.mode {
            ModeView::List => {
                let (after, verb) = self.list_pressed(key);
                (after, popup, verb)
            },
            ModeView::Editing(form) => self.edit_pressed(form, popup, key),
            ModeView::Confirming { action, .. } => {
                let (after, verb) = self.confirm_pressed(action, key);
                (after, popup, verb)
            },
        }
    }

    /// Whether the editor's description has anything in it to complete.
    pub open spec fn asks(self) -> bool {
        self.mode matches ModeView::Editing(form) && form.asks()
    }

    /// What the live keys are about, by what the history is doing.
    pub open spec fn topic(self) -> Topic {
        match self.mode {
            ModeView::List => Topic::History,
            ModeView::Editing(_) => Topic::Form,
            ModeView::Confirming { .. } => Topic::Confirm,
        }
    }

    /// The history over other rows, the cursor staying among them.
    pub open spec fn refilled(self, rows: Seq<HistoryRow>) -> HistoryView {
        HistoryView { rows, cursor: self.cursor.clamped(rows.len() as int), ..self }
    }
}

impl View for History {
    type V = HistoryView;

    closed spec fn view(&self) -> HistoryView {
        HistoryView {
            goal: self.goal,
            goal_name: self.goal_name@,
            container: self.container,
            container_name: self.container_name@,
            rows: self.rows@,
            cursor: self.cursor@,
            mode: self.mode@,
        }
    }
}

impl Scroll for History {
    type Shown = HistoryView;

    open spec fn shown(&self) -> HistoryView {
        self@
    }

    open spec fn cursor_of(shown: HistoryView) -> CursorView {
        shown.cursor
    }

    open spec fn with_cursor(shown: HistoryView, cursor: CursorView) -> HistoryView {
        HistoryView { cursor, ..shown }
    }

    open spec fn rows_of(shown: HistoryView) -> int {
        shown.rows.len() as int
    }

    fn cursor(&self) -> (cursor: &Cursor) {
        &self.cursor
    }

    fn cursor_mut(&mut self) -> (cursor: &mut Cursor) {
        &mut self.cursor
    }

    fn row_count(&self) -> (count: usize) {
        self.rows.len()
    }
}

impl History {
    /// The history of `goal`, opening on its most recent allocation: `rows`
    /// are in the order they were made.
    pub fn new(
        goal: GoalId,
        goal_name: String,
        container: AccountId,
        container_name: String,
        rows: Vec<HistoryRow>,
    ) -> (history: History)
        ensures
            history@ == HistoryView::opened(
                goal,
                goal_name@,
                container,
                container_name@,
                rows@,
            ),
            history@.valid(),
    {
        let mut cursor = Cursor::new();
        cursor.last(rows.len());
        History { goal, goal_name, container, container_name, rows, cursor, mode: Mode::List }
    }

    pub fn goal(&self) -> (goal: GoalId)
        ensures
            goal == self@.goal,
    {
        self.goal
    }

    pub fn container(&self) -> (container: AccountId)
        ensures
            container == self@.container,
    {
        self.container
    }

    pub fn goal_name(&self) -> (name: &str)
        ensures
            name@ == self@.goal_name,
    {
        self.goal_name.as_str()
    }

    pub fn container_name(&self) -> (name: &str)
        ensures
            name@ == self@.container_name,
    {
        self.container_name.as_str()
    }

    /// What the rows come to. `None` where the running total overflows.
    pub fn total(&self) -> (all: Option<Cents>)
        ensures
            match all {
                Some(all) => sums_fit(self@.given()) && all.0 == sum(self@.given()),
                None => !sums_fit(self@.given()),
            },
    {
        let mut given: Vec<Cents> = Vec::new();
        let mut at: usize = 0;
        while at < self.rows.len()
            invariant
                at <= self.rows@.len(),
                given@ == self@.given().take(at as int),
            decreases self.rows@.len() - at,
        {
            given.push(self.rows[at].cents);
            at = at + 1;
            proof {
                assert(given@ =~= self@.given().take(at as int));
            }
        }
        proof {
            assert(given@ =~= self@.given());
        }
        total(given.as_slice())
    }

    /// A row in one line, as the question about it names it.
    pub fn label(&self, row: &HistoryRow) -> (label: Said)
        ensures
            label@ == self@.summary(*row),
    {
        Said::of(&row.date.iso()).words("  ").name(&self.goal_name).words("  ").amount(row.cents)
    }

    pub fn all(&self) -> (rows: &Vec<HistoryRow>)
        ensures
            rows@ == self@.rows,
    {
        &self.rows
    }

    pub fn mode(&self) -> (mode: &Mode)
        ensures
            mode@ == self@.mode,
    {
        &self.mode
    }

    /// The row under the cursor.
    pub fn selected(&self) -> (row: Option<&HistoryRow>)
        ensures
            match row {
                Some(row) => self@.chosen() == Some(*row),
                None => self@.chosen() is None,
            },
    {
        let at: usize = self.cursor.index();
        if at < self.rows.len() {
            Some(&self.rows[at])
        } else {
            None
        }
    }

    /// Whether the editor's description has anything in it to complete.
    pub fn asks(&self) -> (asks: bool)
        requires
            self@.valid(),
        ensures
            asks == self@.asks(),
    {
        match &self.mode {
            Mode::Editing(form) => form.asks(),
            _ => false,
        }
    }

    /// Remember what a draw fitted.
    pub fn record(&mut self, viewport: Viewport)
        ensures
            final(self)@ == (HistoryView {
                cursor: old(self)@.cursor.drawn_in(viewport),
                ..old(self)@
            }),
    {
        self.cursor.record_viewport(viewport);
    }

    /// Open the editor, which the caller fills from the row under the cursor.
    pub fn begin_edit(&mut self, form: Form)
        requires
            old(self)@.valid(),
            form@.valid(),
        ensures
            final(self)@ == old(self)@.in_mode(ModeView::Editing(form@)),
            final(self)@.valid(),
    {
        self.mode = Mode::Editing(form);
    }

    /// Return to the list.
    pub fn to_list(&mut self)
        requires
            old(self)@.valid(),
        ensures
            final(self)@ == old(self)@.in_mode(ModeView::List),
            final(self)@.valid(),
    {
        self.mode = Mode::List;
    }

    /// Hold other rows, the cursor staying among them.
    pub fn set_rows(&mut self, rows: Vec<HistoryRow>)
        requires
            old(self)@.valid(),
        ensures
            final(self)@ == old(self)@.refilled(rows@),
            final(self)@.valid(),
    {
        self.cursor.clamp(rows.len());
        self.rows = rows;
    }

    /// What the live keys are about, by what the history is doing.
    pub fn topic(&self) -> (topic: Topic)
        ensures
            topic == self@.topic(),
    {
        match &self.mode {
            Mode::List => Topic::History,
            Mode::Editing(_) => Topic::Form,
            Mode::Confirming { .. } => Topic::Confirm,
        }
    }

    fn list_key(&mut self, key: KeyEvent) -> (verb: HistoryVerb)
        requires
            old(self)@.valid(),
            old(self)@.mode is List,
        ensures
            (final(self)@, verb) == old(self)@.list_pressed(key),
            final(self)@.valid(),
    {
        if scroll_key(self, key.code) {
            return HistoryVerb::Answered;
        }
        match key.code {
            KeyCode::Esc => HistoryVerb::Close,
            KeyCode::Char('e') => match self.selected() {
                Some(row) => HistoryVerb::BeginEdit(row.id),
                None => HistoryVerb::NothingSelected,
            },
            KeyCode::Char('d') => {
                let (id, label) = match self.selected() {
                    Some(row) => (row.id, self.label(row)),
                    None => return HistoryVerb::NothingSelected,
                };
                self.mode = Mode::Confirming { action: Confirm::DeleteAllocation(id), label };
                HistoryVerb::Answered
            },
            _ => HistoryVerb::Answered,
        }
    }

    fn confirm_key(&mut self, action: Confirm, key: KeyEvent) -> (verb: HistoryVerb)
        requires
            old(self)@.valid(),
        ensures
            (final(self)@, verb) == old(self)@.confirm_pressed(action, key),
            final(self)@.valid(),
    {
        if let KeyCode::Char('y') = key.code {
            HistoryVerb::Confirmed(action)
        } else {
            self.mode = Mode::List;
            HistoryVerb::Cancelled(action)
        }
    }

    /// Every key while the history is open.
    pub fn history_key(&mut self, popup: &mut Autocomplete, key: KeyEvent) -> (verb: HistoryVerb)
        requires
            old(self)@.valid(),
        ensures
            (final(self)@, final(popup)@, verb) == old(self)@.pressed(old(popup)@, key),
            final(self)@.valid(),
    {
        if let Mode::Editing(_) = &self.mode {
            if let KeyCode::Esc = key.code {
                if popup.visible() == 0 {
                    self.mode = Mode::List;
                    return HistoryVerb::Answered;
                }
            }
        }
        if let Mode::Confirming { action, .. } = &self.mode {
            let action = *action;
            return self.confirm_key(action, key);
        }
        match &mut self.mode {
            Mode::Editing(form) => {
                match form_key(form, popup, key) {
                    FormVerb::Commit => return HistoryVerb::CommitEdit,
                    FormVerb::Suggest => return HistoryVerb::Suggest,
                    _ => return HistoryVerb::Answered,
                }
            },
            _ => {},
        }
        self.list_key(key)
    }
}

/// The history holds together whatever key is pressed.
pub proof fn a_history_stays_valid(history: HistoryView, popup: PopupView, key: KeyEvent)
    requires
        history.valid(),
    ensures
        history.pressed(popup, key).0.valid(),
{
    if let ModeView::Editing(form) = history.mode {
        crate::form_keys::a_form_keeps_its_fields(form, popup, key);
    }
}

/// `Esc` peels one layer at a time: out of the editor or the question it
/// returns to the list, and only the list itself closes.
pub proof fn esc_peels_one_layer(history: HistoryView, popup: PopupView, key: KeyEvent)
    requires
        key.code is Esc,
        popup.visible == 0,
    ensures
        history.pressed(popup, key).2 == HistoryVerb::Close <==> history.mode is List,
        !(history.mode is List) ==> history.pressed(popup, key).0.mode is List,
{
}

/// A history opens on its most recent allocation, in its list.
pub proof fn a_history_opens_on_its_last_row(
    goal: GoalId,
    goal_name: Seq<char>,
    container: AccountId,
    container_name: Seq<char>,
    rows: Seq<HistoryRow>,
)
    ensures
        ({
            let history = HistoryView::opened(goal, goal_name, container, container_name, rows);
            &&& history.mode is List
            &&& history.goal == goal
            &&& history.container == container
            &&& history.goal_name == goal_name
            &&& history.container_name == container_name
            &&& history.rows == rows
            &&& rows.len() > 0 ==> history.chosen() == Some(rows.last())
            &&& rows.len() == 0 ==> history.chosen() is None
        }),
{
}

/// Editing and deleting act on the row under the cursor: `e` opens the editor
/// on it, and `d` asks about it by name before anything is written.
pub proof fn the_history_keys_act_on_the_row_under_the_cursor(history: HistoryView)
    requires
        history.valid(),
        history.mode is List,
    ensures
        ({
            let edit = KeyEvent {
                code: KeyCode::Char('e'),
                modifiers: Modifiers { shift: false, control: false, alt: false },
            };
            let delete = KeyEvent { code: KeyCode::Char('d'), ..edit };
            let enter = KeyEvent { code: KeyCode::Enter, ..edit };
            &&& history.rows.len() > 0 ==> {
                let row = history.rows[history.cursor.index];
                &&& history.list_pressed(edit) == (history, HistoryVerb::BeginEdit(row.id))
                &&& history.list_pressed(delete) == (
                    HistoryView {
                        mode: ModeView::Confirming {
                            action: Confirm::DeleteAllocation(row.id),
                            label: history.summary(row),
                        },
                        ..history
                    },
                    HistoryVerb::Answered,
                )
            }
            &&& history.rows.len() == 0 ==> {
                &&& history.list_pressed(edit) == (history, HistoryVerb::NothingSelected)
                &&& history.list_pressed(delete) == (history, HistoryVerb::NothingSelected)
            }
            &&& history.list_pressed(enter) == (history, HistoryVerb::Answered)
        }),
{
}

/// Every row of a history counts towards what it comes to.
pub proof fn every_allocation_counts(history: HistoryView, at: int)
    requires
        0 <= at < history.rows.len(),
    ensures
        history.given().len() == history.rows.len(),
        history.given()[at] == history.rows[at].cents,
{
}

/// Other rows keep the cursor where it was, wherever that is still a row.
pub proof fn a_history_keeps_its_place(history: HistoryView, rows: Seq<HistoryRow>)
    requires
        history.cursor.index >= 0,
    ensures
        history.refilled(rows).rows == rows,
        history.refilled(rows).goal == history.goal,
        history.refilled(rows).mode == history.mode,
        history.cursor.index < rows.len() ==> history.refilled(rows).cursor == history.cursor,
        history.cursor.index >= rows.len() && rows.len() > 0 ==> history.refilled(
            rows,
        ).cursor.index == rows.len() - 1,
{
}

/// A question asked of a row is answered by `y` with that very write, and by
/// any other key with none, back on the list.
pub proof fn a_row_is_deleted_only_when_asked(
    history: HistoryView,
    popup: PopupView,
    action: Confirm,
    key: KeyEvent,
)
    requires
        history.mode matches ModeView::Confirming { action: asked, .. } && asked == action,
    ensures
        ({
            let (after, kept, verb) = history.pressed(popup, key);
            &&& kept == popup
            &&& after.rows == history.rows
            &&& after.cursor == history.cursor
            &&& (key.code == KeyCode::Char('y') ==> verb == HistoryVerb::Confirmed(action) && after
                == history)
            &&& (key.code != KeyCode::Char('y') ==> verb == HistoryVerb::Cancelled(action)
                && after.mode is List)
        }),
{
}

/// A row being rewritten is written by `Enter`, and given up by `Esc`, back on
/// the list.
pub proof fn a_row_is_rewritten_or_given_up(
    history: HistoryView,
    popup: PopupView,
    key: KeyEvent,
)
    requires
        history.mode is Editing,
        popup.visible == 0,
    ensures
        ({
            let (after, kept, verb) = history.pressed(popup, key);
            &&& after.rows == history.rows
            &&& after.cursor == history.cursor
            &&& (key.code is Enter ==> verb == HistoryVerb::CommitEdit && after == history)
            &&& (key.code is Esc ==> verb == HistoryVerb::Answered && after.mode is List)
            &&& (!(key.code is Enter) ==> verb != HistoryVerb::CommitEdit)
        }),
{
}

/// The topic of a history follows what is open over its list.
pub proof fn a_history_is_about_what_is_open(history: HistoryView)
    ensures
        history.mode is List <==> history.topic() is History,
        history.mode is Editing <==> history.topic() is Form,
        history.mode is Confirming <==> history.topic() is Confirm,
        history.asks() <==> (history.mode matches ModeView::Editing(form) && form.asks()),
{
}

} // verus!
