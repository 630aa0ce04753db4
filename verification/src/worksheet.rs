//! The worksheet: a container's pot, divided among its goals.
//!
//! What its keys mean is here: which of the three focuses they reach, when a
//! `/` begins a fraction and when a filter, and which of them act on the
//! lines. How an operation divides the pot is the caller's, which puts the
//! figures it came to back into the sheet.

use crate::cursor::{is_scroll, Cursor, CursorView, Scroll, Viewport};
use crate::date::{Date, DateView};
use crate::fault::{Fault, FaultView};
use crate::field::{dated, DateField, DateFieldView};
use crate::form_keys::arrow_step;
use crate::ids::{AccountId, GoalId};
use crate::key::{is_bare, KeyCode, KeyEvent, Modifiers};
use crate::label::Account;
use crate::money::{sum, sums_fit, Cents};
use crate::payday::{a_goal_is_down_for_its_own_share, down_for, once_each, share_of};
use crate::posting::{amounts, shares_total};
use crate::screen::Topic;
use crate::search::{answers, is_match, Listing, ListingView, Search, Sought, Unfiltered};
use crate::step::{week_step, Step, StepView};
use crate::text::{digit_value, is_digit, quoted};
use vstd::prelude::*;
use vstd::string::*;

verus! {

/// What a sheet posts.
#[derive(Copy, Clone, Debug, PartialEq, Eq, Structural)]
pub enum BatchKind {
    Paycheck,
    Interest,
}

/// One goal the pot may be divided among, and what it is down for.
#[derive(Debug)]
pub struct SheetLine {
    pub goal: GoalId,
    pub name: String,
    pub amount: Cents,
}

/// The lines with each goal down for its share, and for nothing where it has
/// none.
pub open spec fn shared(lines: Seq<SheetLine>, shares: Seq<(GoalId, Cents)>) -> Seq<SheetLine> {
    Seq::new(
        lines.len(),
        |i: int|
            SheetLine { amount: Cents(share_of(shares, lines[i].goal) as i64), ..lines[i] },
    )
}

pub fn share_lines(lines: &Vec<SheetLine>, shares: &Vec<(GoalId, Cents)>) -> (down: Vec<SheetLine>)
    ensures
        down@ == shared(lines@, shares@),
{
    let mut down: Vec<SheetLine> = Vec::new();
    let mut at: usize = 0;
    while at < lines.len()
        invariant
            at <= lines@.len(),
            down@ == shared(lines@, shares@).take(at as int),
        decreases lines@.len() - at,
    {
        let line: &SheetLine = &lines[at];
        down.push(
            SheetLine {
                goal: line.goal,
                name: line.name.clone(),
                amount: down_for(shares, line.goal),
            },
        );
        at = at + 1;
        proof {
            assert(down@ =~= shared(lines@, shares@).take(at as int));
        }
    }
    proof {
        assert(down@ =~= shared(lines@, shares@));
    }
    down
}

/// What a sheet's lines post: each goal that is down for something, in order.
pub open spec fn posted(lines: Seq<SheetLine>) -> Seq<(GoalId, Cents)>
    decreases lines.len(),
{
    if lines.len() == 0 {
        Seq::empty()
    } else {
        let before = posted(lines.drop_last());
        if lines.last().amount.0 != 0 {
            before.push((lines.last().goal, lines.last().amount))
        } else {
            before
        }
    }
}

fn shares_posted(lines: &Vec<SheetLine>) -> (shares: Vec<(GoalId, Cents)>)
    ensures
        shares@ == posted(lines@),
{
    let mut shares: Vec<(GoalId, Cents)> = Vec::new();
    let mut at: usize = 0;
    while at < lines.len()
        invariant
            at <= lines@.len(),
            shares@ == posted(lines@.take(at as int)),
        decreases lines@.len() - at,
    {
        proof {
            assert(lines@.take(at + 1).drop_last() =~= lines@.take(at as int));
        }
        if lines[at].amount.0 != 0 {
            shares.push((lines[at].goal, lines[at].amount));
        }
        at = at + 1;
    }
    proof {
        assert(lines@.take(at as int) =~= lines@);
    }
    shares
}

/// A sheet as it is to be posted.
#[derive(Debug)]
pub struct Posting {
    pub kind: BatchKind,
    pub date: Date,
    pub shares: Vec<(GoalId, Cents)>,
    pub total: Cents,
}

/// Why a sheet cannot be posted.
#[derive(Debug)]
pub enum PostFault {
    /// Its date does not read.
    Date(Fault),
    /// Its lines come to more than the pot.
    OverAllocated,
    /// Its lines do not fit together.
    TooLarge,
}

impl PostFault {
    pub open spec fn words(self) -> Seq<char> {
        match self {
            PostFault::Date(fault) => fault@.status(quoted(fault@.subject())),
            PostFault::OverAllocated => "the worksheet is over-allocated"@,
            PostFault::TooLarge => "the worksheet does not add up"@,
        }
    }

    pub fn status(&self) -> (status: String)
        ensures
            status@ == self.words(),
    {
        match self {
            PostFault::Date(fault) => fault.status(),
            PostFault::OverAllocated => "the worksheet is over-allocated".to_owned(),
            PostFault::TooLarge => "the worksheet does not add up".to_owned(),
        }
    }
}

/// Whether `posting` is what the sheet comes to: its lines on its date, or
/// what keeps them from being posted. A pot not wholly divided is no fault:
/// the rest stays unallocated.
pub open spec fn posts(posting: Result<Posting, PostFault>, sheet: SheetView) -> bool {
    let shares = posted(sheet.lines.rows);
    match posting {
        Ok(posting) => {
            &&& dated(Ok(posting.date), sheet.date.reading())
            &&& posting.kind == sheet.kind
            &&& posting.shares@ == shares
            &&& sums_fit(amounts(shares))
            &&& posting.total.0 == sum(amounts(shares)) <= sheet.amount.0
        },
        Err(PostFault::Date(fault)) => dated(Err(fault), sheet.date.reading()),
        Err(PostFault::TooLarge) => sheet.date.reading() is Ok && !sums_fit(amounts(shares)),
        Err(PostFault::OverAllocated) => sheet.date.reading() is Ok && sums_fit(amounts(shares))
            && sum(amounts(shares)) > sheet.amount.0,
    }
}

impl Sought for SheetLine {
    type Filter = Unfiltered;

    open spec fn found(&self, filter: Unfiltered, needle: Seq<char>) -> bool {
        answers(self.name@, needle)
    }

    fn is_found(&self, filter: Unfiltered, needle: &str) -> (found: bool) {
        is_match(self.name.as_str(), needle)
    }
}

/// Which part of the sheet the caret is in, in tab order.
#[derive(Copy, Clone, Debug, PartialEq, Eq, Structural)]
pub enum Focus {
    /// The pot, which takes digits and drops everything else.
    Amount,
    /// The date, which is text.
    Date,
    /// The lines.
    Lines,
}

impl Focus {
    pub open spec fn after(self) -> Focus {
        match self {
            Focus::Amount => Focus::Date,
            Focus::Date => Focus::Lines,
            Focus::Lines => Focus::Amount,
        }
    }

    pub open spec fn before(self) -> Focus {
        match self {
            Focus::Amount => Focus::Lines,
            Focus::Date => Focus::Amount,
            Focus::Lines => Focus::Date,
        }
    }

    fn next(self) -> (focus: Focus)
        ensures
            focus == self.after(),
    {
        match self {
            Focus::Amount => Focus::Date,
            Focus::Date => Focus::Lines,
            Focus::Lines => Focus::Amount,
        }
    }

    fn previous(self) -> (focus: Focus)
        ensures
            focus == self.before(),
    {
        match self {
            Focus::Amount => Focus::Lines,
            Focus::Date => Focus::Amount,
            Focus::Lines => Focus::Date,
        }
    }
}

/// What a key does to the figures on the sheet.
#[derive(Copy, Clone, Debug, PartialEq, Eq, Structural)]
pub enum SheetOp {
    /// Tick the line under the cursor, or untick it.
    Toggle,
    /// Tick every line the filter leaves.
    SelectAllVisible,
    ClearSelection,
    ZeroUntargeted,
    Spread,
    SpreadByWeight,
    /// The fraction operator.
    Divide(i64),
    /// A character typed into the amount or a line.
    Type(char),
    Backspace,
}

/// What a key asks of whoever holds the sheet.
#[derive(Copy, Clone, Debug, PartialEq, Eq, Structural)]
pub enum SheetVerb {
    Answered,
    /// Throw the sheet away.
    Cancel,
    /// Post what the lines say.
    Commit,
    Operate(SheetOp),
}

/// What a bare character means to the lines. A slash means nothing yet.
pub open spec fn operator(c: char) -> SheetVerb {
    if c == ' ' {
        SheetVerb::Operate(SheetOp::Toggle)
    } else if c == '*' {
        SheetVerb::Operate(SheetOp::SelectAllVisible)
    } else if c == '-' {
        SheetVerb::Operate(SheetOp::ClearSelection)
    } else if c == 'z' {
        SheetVerb::Operate(SheetOp::ZeroUntargeted)
    } else if c == 's' {
        SheetVerb::Operate(SheetOp::Spread)
    } else if c == 'w' {
        SheetVerb::Operate(SheetOp::SpreadByWeight)
    } else if c == '/' {
        SheetVerb::Answered
    } else {
        SheetVerb::Operate(SheetOp::Type(c))
    }
}

/// A sheet over one container.
#[derive(Debug)]
pub struct Sheet {
    kind: BatchKind,
    container: Account,
    /// The pot the lines divide.
    amount: Cents,
    lines: Listing<SheetLine>,
    date: DateField,
    focus: Focus,
    /// A `/` that is waiting for the next key to say what it begins.
    pending_slash: bool,
}

/// What a [`Sheet`] stands for.
pub struct SheetView {
    pub kind: BatchKind,
    pub container: AccountId,
    pub container_name: Seq<char>,
    pub amount: Cents,
    pub lines: ListingView<SheetLine>,
    pub date: DateFieldView,
    pub focus: Focus,
    pub pending_slash: bool,
}

impl SheetView {
    /// A sheet as it opens, with the caret in the amount.
    pub open spec fn opened(
        kind: BatchKind,
        container: AccountId,
        container_name: Seq<char>,
        date: DateFieldView,
        amount: Cents,
        lines: Seq<SheetLine>,
    ) -> SheetView {
        SheetView {
            kind,
            container,
            container_name,
            amount,
            lines: ListingView::fresh(lines, Unfiltered),
            date,
            focus: Focus::Amount,
            pending_slash: false,
        }
    }

    /// The sheet with other figures in it: another pot, and each goal down
    /// for its share of it.
    pub open spec fn figured(self, amount: Cents, shares: Seq<(GoalId, Cents)>) -> SheetView {
        SheetView {
            amount,
            lines: self.lines.refilled(shared(self.lines.rows, shares)),
            ..self
        }
    }

    /// The sheet once the key after a `/` has been read: a digit is the
    /// fraction operator, any other bare character begins a filter, and
    /// everything else drops the slash.
    pub open spec fn slashed(self, key: KeyEvent) -> (SheetView, SheetVerb) {
        let shown = SheetView { pending_slash: false, ..self };
        match key.code {
            KeyCode::Char(c) => if !key.bare() {
                (shown, SheetVerb::Answered)
            } else if is_digit(c) {
                (shown, SheetVerb::Operate(SheetOp::Divide(digit_value(c) as i64)))
            } else {
                (
                    SheetView {
                        lines: shown.lines.with_search(
                            shown.lines.search.begun().typed(c),
                        ).narrowed(),
                        ..shown
                    },
                    SheetVerb::Answered,
                )
            },
            _ => (shown, SheetVerb::Answered),
        }
    }

    pub open spec fn date_stepped(self, step: StepView) -> SheetView {
        if self.focus is Date {
            SheetView { date: self.date.stepped(step), ..self }
        } else {
            self
        }
    }

    /// What an editing key leaves: only the date is text.
    pub open spec fn edited(self, key: KeyEvent) -> SheetView {
        if self.focus is Date {
            SheetView { date: self.date.edited(key), ..self }
        } else {
            self
        }
    }

    /// What any key leaves of the sheet, and what it asks for.
    pub open spec fn pressed(self, key: KeyEvent) -> (SheetView, SheetVerb) {
        if self.pending_slash {
            self.slashed(key)
        } else if self.lines.search.open {
            (SheetView { lines: self.lines.box_pressed(key), ..self }, SheetVerb::Answered)
        } else if is_scroll(key.code) {
            (SheetView { lines: self.lines.scrolled(key.code), ..self }, SheetVerb::Answered)
        } else {
            match key.code {
                KeyCode::Esc => if self.lines.search.needle().len() > 0 {
                    (
                        SheetView { lines: self.lines.needle_escaped(), ..self },
                        SheetVerb::Answered,
                    )
                } else {
                    (self, SheetVerb::Cancel)
                },
                KeyCode::Enter => (self, SheetVerb::Commit),
                KeyCode::Tab => (
                    SheetView { focus: self.focus.after(), ..self },
                    SheetVerb::Answered,
                ),
                KeyCode::BackTab => (
                    SheetView { focus: self.focus.before(), ..self },
                    SheetVerb::Answered,
                ),
                KeyCode::Left | KeyCode::Right => (
                    self.date_stepped(arrow_step(key)),
                    SheetVerb::Answered,
                ),
                KeyCode::Backspace => if self.focus is Date {
                    (self.edited(key), SheetVerb::Answered)
                } else {
                    (self, SheetVerb::Operate(SheetOp::Backspace))
                },
                KeyCode::Char(c) => if self.focus is Date || !key.bare() {
                    (self.edited(key), SheetVerb::Answered)
                } else {
                    (SheetView { pending_slash: c == '/', ..self }, operator(c))
                },
                _ => (self.edited(key), SheetVerb::Answered),
            }
        }
    }

    /// What the sheet's keys are about: a `/` still waiting takes the next
    /// character as data, as an open box does.
    pub open spec fn topic(self) -> Topic {
        if self.pending_slash || self.lines.search.open {
            Topic::WorksheetSearch
        } else {
            Topic::Worksheet
        }
    }
}

impl View for Sheet {
    type V = SheetView;

    closed spec fn view(&self) -> SheetView {
        SheetView {
            kind: self.kind,
            container: self.container.id,
            container_name: self.container.name@,
            amount: self.amount,
            lines: self.lines@,
            date: self.date@,
            focus: self.focus,
            pending_slash: self.pending_slash,
        }
    }
}

impl Sheet {
    /// A sheet over `container`'s goals, dated by `date`, dividing `amount`,
    /// with the caret in it.
    pub fn on(
        kind: BatchKind,
        container: Account,
        date: DateField,
        amount: Cents,
        lines: Vec<SheetLine>,
    ) -> (sheet: Sheet)
        ensures
            sheet@ == SheetView::opened(
                kind,
                container.id,
                container.name@,
                date@,
                amount,
                lines@,
            ),
            sheet@.lines.settled(),
    {
        Sheet {
            kind,
            container,
            amount,
            lines: Listing::new(lines, Unfiltered),
            date,
            focus: Focus::Amount,
            pending_slash: false,
        }
    }

    pub fn container(&self) -> (container: AccountId)
        ensures
            container == self@.container,
    {
        self.container.id
    }

    pub fn container_name(&self) -> (name: &str)
        ensures
            name@ == self@.container_name,
    {
        self.container.name.as_str()
    }

    pub fn kind(&self) -> (kind: BatchKind)
        ensures
            kind == self@.kind,
    {
        self.kind
    }

    /// The pot the lines divide.
    pub fn amount(&self) -> (amount: Cents)
        ensures
            amount == self@.amount,
    {
        self.amount
    }

    /// Put other figures in: another pot, and each goal down for its share.
    pub fn figure(&mut self, amount: Cents, shares: &Vec<(GoalId, Cents)>)
        ensures
            final(self)@ == old(self)@.figured(amount, shares@),
    {
        let down = share_lines(self.lines.all(), shares);
        self.amount = amount;
        self.lines.set_rows(down);
    }

    /// What posting the sheet comes to, worked out before anything is
    /// written.
    pub fn commit(&self) -> (posting: Result<Posting, PostFault>)
        ensures
            posts(posting, self@),
    {
        let date = match self.date.parse() {
            Ok(date) => date,
            Err(fault) => return Err(PostFault::Date(fault)),
        };
        let shares = shares_posted(self.lines.all());
        match shares_total(&shares) {
            None => Err(PostFault::TooLarge),
            Some(total) => if total.0 > self.amount.0 {
                Err(PostFault::OverAllocated)
            } else {
                Ok(Posting { kind: self.kind, date, shares, total })
            },
        }
    }

    pub fn focus(&self) -> (focus: Focus)
        ensures
            focus == self@.focus,
    {
        self.focus
    }

    pub fn lines(&self) -> (lines: &Listing<SheetLine>)
        ensures
            lines@ == self@.lines,
    {
        &self.lines
    }

    pub fn date(&self) -> (date: &DateField)
        ensures
            date@ == self@.date,
    {
        &self.date
    }

    /// Remember what a draw fitted of the lines.
    pub fn record(&mut self, viewport: Viewport)
        ensures
            final(self)@ == (SheetView {
                lines: old(self)@.lines.drawn_in(viewport),
                ..old(self)@
            }),
    {
        self.lines.record(viewport);
    }

    /// What the sheet's keys are about.
    pub fn topic(&self) -> (topic: Topic)
        ensures
            topic == self@.topic(),
    {
        if self.pending_slash || self.lines.is_searching() {
            Topic::WorksheetSearch
        } else {
            Topic::Worksheet
        }
    }

    /// The key after a `/`.
    fn slash_key(&mut self, key: KeyEvent) -> (verb: SheetVerb)
        ensures
            (final(self)@, verb) == old(self)@.slashed(key),
    {
        self.pending_slash = false;
        match key.code {
            KeyCode::Char(c) => {
                if !is_bare(key) {
                    SheetVerb::Answered
                } else if '0' <= c && c <= '9' {
                    let n: i64 = c as i64 - '0' as i64;
                    SheetVerb::Operate(SheetOp::Divide(n))
                } else {
                    self.lines.begin_search();
                    self.lines.push_search(c);
                    SheetVerb::Answered
                }
            },
            _ => SheetVerb::Answered,
        }
    }

    fn step_date(&mut self, step: Step)
        ensures
            final(self)@ == old(self)@.date_stepped(step@),
    {
        if let Focus::Date = self.focus {
            self.date.step(step);
        }
    }

    fn edit(&mut self, key: KeyEvent)
        ensures
            final(self)@ == old(self)@.edited(key),
    {
        if let Focus::Date = self.focus {
            let _ = self.date.edit(key);
        }
    }

    /// Every key while the sheet is open.
    ///
    /// The sheet is not a field form: its keys edit lines rather than tabbing
    /// through fields with suggestions under them.
    pub fn worksheet_key(&mut self, key: KeyEvent) -> (verb: SheetVerb)
        ensures
            (final(self)@, verb) == old(self)@.pressed(key),
    {
        if self.pending_slash {
            return self.slash_key(key);
        }
        if self.lines.is_searching() {
            self.lines.box_key(key);
            return SheetVerb::Answered;
        }
        if self.lines.scroll(key.code) {
            return SheetVerb::Answered;
        }
        match key.code {
            KeyCode::Esc => {
                if self.lines.escape_needle() {
                    SheetVerb::Answered
                } else {
                    SheetVerb::Cancel
                }
            },
            KeyCode::Enter => SheetVerb::Commit,
            KeyCode::Tab => {
                self.focus = self.focus.next();
                SheetVerb::Answered
            },
            KeyCode::BackTab => {
                self.focus = self.focus.previous();
                SheetVerb::Answered
            },
            // Only the date focus has a date to move.
            KeyCode::Left => {
                self.step_date(week_step(key, Step::previous_week(), Step::previous()));
                SheetVerb::Answered
            },
            KeyCode::Right => {
                self.step_date(week_step(key, Step::next_week(), Step::next()));
                SheetVerb::Answered
            },
            KeyCode::Backspace => {
                if let Focus::Date = self.focus {
                    self.edit(key);
                    SheetVerb::Answered
                } else {
                    SheetVerb::Operate(SheetOp::Backspace)
                }
            },
            // The operators are line-editing keys, but they are live from the
            // amount too: that field takes digits and drops everything else.
            // The date is text -- `-` is part of a date, and `s` must not
            // spread while one is being fixed -- so it types them instead. A
            // modified character never reaches them.
            KeyCode::Char(c) => {
                if self.focus == Focus::Date || !is_bare(key) {
                    self.edit(key);
                    SheetVerb::Answered
                } else {
                    self.operate(c)
                }
            },
            _ => {
                self.edit(key);
                SheetVerb::Answered
            },
        }
    }

    fn operate(&mut self, c: char) -> (verb: SheetVerb)
        ensures
            final(self)@ == (SheetView { pending_slash: c == '/', ..old(self)@ }),
            verb == operator(c),
    {
        self.pending_slash = c == '/';
        match c {
            ' ' => SheetVerb::Operate(SheetOp::Toggle),
            '*' => SheetVerb::Operate(SheetOp::SelectAllVisible),
            '-' => SheetVerb::Operate(SheetOp::ClearSelection),
            'z' => SheetVerb::Operate(SheetOp::ZeroUntargeted),
            's' => SheetVerb::Operate(SheetOp::Spread),
            'w' => SheetVerb::Operate(SheetOp::SpreadByWeight),
            '/' => SheetVerb::Answered,
            _ => SheetVerb::Operate(SheetOp::Type(c)),
        }
    }
}

impl Scroll for Sheet {
    type Shown = SheetView;

    open spec fn shown(&self) -> SheetView {
        self@
    }

    open spec fn cursor_of(shown: SheetView) -> CursorView {
        shown.lines.cursor
    }

    open spec fn with_cursor(shown: SheetView, cursor: CursorView) -> SheetView {
        SheetView { lines: ListingView { cursor, ..shown.lines }, ..shown }
    }

    open spec fn rows_of(shown: SheetView) -> int {
        shown.lines.visible.len() as int
    }

    fn cursor(&self) -> (cursor: &Cursor) {
        self.lines.cursor()
    }

    fn cursor_mut(&mut self) -> (cursor: &mut Cursor) {
        self.lines.cursor_mut()
    }

    fn row_count(&self) -> (count: usize) {
        self.lines.row_count()
    }
}

/// A modified character reaches no operator: it edits the date where that has
/// the focus, and the box where one is open.
pub proof fn a_modified_character_operates_on_nothing(sheet: SheetView, key: KeyEvent)
    requires
        key.code is Char,
        !key.bare(),
    ensures
        sheet.pressed(key).1 == SheetVerb::Answered,
{
}

/// While the date has the focus no character operates on a line.
pub proof fn the_date_types_the_operators(sheet: SheetView, key: KeyEvent)
    requires
        sheet.focus is Date,
        !sheet.pending_slash,
        !sheet.lines.search.open,
        key.code is Char,
    ensures
        sheet.pressed(key) == (
            SheetView { date: sheet.date.edited(key), ..sheet },
            SheetVerb::Answered,
        ),
{
}

/// A kept filter is cleared before `Esc` may throw the sheet away.
pub proof fn a_kept_filter_outlives_no_sheet(sheet: SheetView, key: KeyEvent)
    requires
        sheet.pressed(key).1 == SheetVerb::Cancel,
    ensures
        key.code is Esc,
        sheet.lines.search.needle().len() == 0,
        sheet.pressed(key).0 == sheet,
{
}

/// Whatever key is pressed, the lines drawn are those the filter leaves and
/// the cursor is among them.
pub proof fn a_sheet_stays_settled(sheet: SheetView, key: KeyEvent)
    requires
        sheet.lines.settled(),
    ensures
        sheet.pressed(key).0.lines.settled(),
{
}

/// Each line of a prefilled sheet is the goal's own, down for the goal's share
/// and for nothing where it has none.
pub proof fn a_line_is_down_for_its_goals_share(
    lines: Seq<SheetLine>,
    shares: Seq<(GoalId, Cents)>,
    at: int,
    amount: Cents,
)
    requires
        0 <= at < lines.len(),
        once_each(shares),
    ensures
        shared(lines, shares).len() == lines.len(),
        shared(lines, shares)[at].goal == lines[at].goal,
        shared(lines, shares)[at].name == lines[at].name,
        shares.contains((lines[at].goal, amount)) ==> shared(lines, shares)[at].amount == amount,
        (forall|i: int| 0 <= i < shares.len() ==> (#[trigger] shares[i]).0 != lines[at].goal)
            ==> shared(lines, shares)[at].amount == Cents(0),
{
    a_goal_is_down_for_its_own_share(shares, lines[at].goal, amount);
}

/// What the lines are down for together.
pub open spec fn lines_total(lines: Seq<SheetLine>) -> int {
    sum(Seq::new(lines.len(), |i: int| lines[i].amount))
}

/// A posting gives a goal an amount exactly where a line has that goal down
/// for that amount and it is not nothing, and comes to what all the lines do.
pub proof fn every_line_down_for_something_is_posted(
    lines: Seq<SheetLine>,
    share: (GoalId, Cents),
)
    ensures
        posted(lines).contains(share) <==> share.1.0 != 0 && exists|i: int|
            0 <= i < lines.len() && (#[trigger] lines[i]).goal == share.0 && lines[i].amount
                == share.1,
        sum(amounts(posted(lines))) == lines_total(lines),
    decreases lines.len(),
{
    let each = Seq::new(lines.len(), |i: int| lines[i].amount);
    if lines.len() == 0 {
        assert(each =~= Seq::empty());
        assert(amounts(posted(lines)) =~= Seq::empty());
    } else {
        let front = lines.drop_last();
        let before = posted(front);
        let whole = posted(lines);
        every_line_down_for_something_is_posted(front, share);
        assert(each.drop_last() =~= Seq::new(front.len(), |i: int| front[i].amount));
        if lines.last().amount.0 != 0 {
            assert(amounts(whole).drop_last() =~= amounts(before));
        }
        if whole.contains(share) {
            let at = whole.index_of(share);
            if at < before.len() {
                assert(before[at] == share);
                let i = choose|i: int|
                    0 <= i < front.len() && (#[trigger] front[i]).goal == share.0
                        && front[i].amount == share.1;
                assert(lines[i] == front[i]);
            } else {
                assert(lines[lines.len() - 1].goal == share.0);
            }
        }
        if share.1.0 != 0 && exists|i: int|
            0 <= i < lines.len() && (#[trigger] lines[i]).goal == share.0 && lines[i].amount
                == share.1 {
            let i = choose|i: int|
                0 <= i < lines.len() && (#[trigger] lines[i]).goal == share.0 && lines[i].amount
                    == share.1;
            if i < front.len() {
                assert(front[i] == lines[i]);
                let at = before.index_of(share);
                assert(whole[at] == share);
            } else {
                assert(whole.last() == share);
            }
        }
    }
}

/// Lines are posted in their order, one share for each that is down for
/// something.
pub proof fn lines_are_posted_in_order(lines: Seq<SheetLine>, next: SheetLine)
    ensures
        posted(Seq::empty()) == Seq::<(GoalId, Cents)>::empty(),
        next.amount.0 == 0 ==> posted(lines.push(next)) == posted(lines),
        next.amount.0 != 0 ==> posted(lines.push(next)) == posted(lines).push(
            (next.goal, next.amount),
        ),
{
    assert(lines.push(next).drop_last() =~= lines);
}

/// A sheet is posted on the day its date reads as, under its own kind, with
/// every line that is down for something, for all the lines come to; it is
/// refused as over-allocated exactly where that is more than its pot.
pub proof fn a_sheet_posts_the_whole_of_its_lines(
    posting: Result<Posting, PostFault>,
    sheet: SheetView,
    share: (GoalId, Cents),
)
    requires
        posts(posting, sheet),
    ensures
        posting is Ok ==> {
            let written = posting->Ok_0;
            &&& sheet.date.reading() == Ok::<DateView, FaultView>(written.date@)
            &&& written.kind == sheet.kind
            &&& written.total.0 == lines_total(sheet.lines.rows)
            &&& written.total.0 <= sheet.amount.0
            &&& written.shares@.contains(share) <==> share.1.0 != 0 && exists|i: int|
                0 <= i < sheet.lines.rows.len() && (#[trigger] sheet.lines.rows[i]).goal
                    == share.0 && sheet.lines.rows[i].amount == share.1
        },
        sheet.date.reading() is Err <==> posting matches Err(PostFault::Date(_)),
        posting matches Err(PostFault::OverAllocated) ==> lines_total(sheet.lines.rows)
            > sheet.amount.0,
        sheet.date.reading() is Ok && sums_fit(amounts(posted(sheet.lines.rows))) && lines_total(
            sheet.lines.rows,
        ) <= sheet.amount.0 ==> posting is Ok,
{
    every_line_down_for_something_is_posted(sheet.lines.rows, share);
}

/// The digit after a slash is what the line is divided by, and any other bare
/// character begins a filter with itself.
pub proof fn a_slash_divides_by_its_digit(sheet: SheetView, c: char)
    requires
        sheet.pending_slash,
    ensures
        ({
            let key = KeyEvent {
                code: KeyCode::Char(c),
                modifiers: Modifiers { shift: false, control: false, alt: false },
            };
            let (after, verb) = sheet.pressed(key);
            &&& !after.pending_slash
            &&& '0' <= c <= '9' ==> verb == SheetVerb::Operate(
                SheetOp::Divide((c as int - '0' as int) as i64),
            ) && after.lines == sheet.lines
            &&& !('0' <= c <= '9') ==> verb == SheetVerb::Answered && after.lines.search.open
                && after.amount == sheet.amount
        }),
{
}

/// A key of the worksheet with nothing held but perhaps `Shift`.
pub open spec fn sheet_key(code: KeyCode, shift: bool) -> KeyEvent {
    KeyEvent { code, modifiers: Modifiers { shift, control: false, alt: false } }
}

/// Over the pot and the lines each operator key asks for its own operation,
/// and any other character is typed.
pub proof fn each_operator_asks_for_its_own_operation(sheet: SheetView, c: char, shift: bool)
    requires
        !sheet.pending_slash,
        !sheet.lines.search.open,
        !(sheet.focus is Date),
    ensures
        ({
            let (after, verb) = sheet.pressed(sheet_key(KeyCode::Char(c), shift));
            &&& after == (SheetView { pending_slash: c == '/', ..sheet })
            &&& (c == ' ' ==> verb == SheetVerb::Operate(SheetOp::Toggle))
            &&& (c == '*' ==> verb == SheetVerb::Operate(SheetOp::SelectAllVisible))
            &&& (c == '-' ==> verb == SheetVerb::Operate(SheetOp::ClearSelection))
            &&& (c == 'z' ==> verb == SheetVerb::Operate(SheetOp::ZeroUntargeted))
            &&& (c == 's' ==> verb == SheetVerb::Operate(SheetOp::Spread))
            &&& (c == 'w' ==> verb == SheetVerb::Operate(SheetOp::SpreadByWeight))
            &&& (c == '/' ==> verb == SheetVerb::Answered)
            &&& ('0' <= c <= '9' || c == '.' || c == 'a' || c == 'S' ==> verb == SheetVerb::Operate(
                SheetOp::Type(c),
            ))
            &&& sheet.pressed(sheet_key(KeyCode::Backspace, shift)) == (
                sheet,
                SheetVerb::Operate(SheetOp::Backspace),
            )
        }),
{
}

/// `Tab` goes from the pot to the date, from the date to the lines and round
/// to the pot, `BackTab` the other way, and neither touches anything else.
pub proof fn tab_goes_round_the_sheet(sheet: SheetView, shift: bool)
    requires
        !sheet.pending_slash,
        !sheet.lines.search.open,
    ensures
        ({
            let (next, one) = sheet.pressed(sheet_key(KeyCode::Tab, shift));
            let (back, other) = sheet.pressed(sheet_key(KeyCode::BackTab, shift));
            &&& one == SheetVerb::Answered && other == SheetVerb::Answered
            &&& next == (SheetView { focus: next.focus, ..sheet })
            &&& back == (SheetView { focus: back.focus, ..sheet })
            &&& (sheet.focus is Amount ==> next.focus is Date && back.focus is Lines)
            &&& (sheet.focus is Date ==> next.focus is Lines && back.focus is Amount)
            &&& (sheet.focus is Lines ==> next.focus is Amount && back.focus is Date)
        }),
{
}

/// `Enter` posts the sheet as it stands; `Esc` gives up a needle first, and
/// the sheet where there is none.
pub proof fn enter_posts_and_esc_throws_away(sheet: SheetView, shift: bool)
    requires
        !sheet.pending_slash,
        !sheet.lines.search.open,
    ensures
        sheet.pressed(sheet_key(KeyCode::Enter, shift)) == (sheet, SheetVerb::Commit),
        sheet.lines.search.needle().len() == 0 ==> sheet.pressed(sheet_key(KeyCode::Esc, shift))
            == (sheet, SheetVerb::Cancel),
        sheet.lines.search.needle().len() > 0 ==> sheet.pressed(
            sheet_key(KeyCode::Esc, shift),
        ).1 == SheetVerb::Answered,
{
}

/// The arrows step the date a day, a week with `Shift`, while the caret is in
/// it, and do nothing anywhere else; a character pressed there is typed.
pub proof fn only_the_date_takes_the_arrows(sheet: SheetView, c: char, shift: bool)
    requires
        !sheet.pending_slash,
        !sheet.lines.search.open,
    ensures
        ({
            let days: int = if shift {
                7
            } else {
                1
            };
            let left = sheet_key(KeyCode::Left, shift);
            let right = sheet_key(KeyCode::Right, shift);
            let typed = sheet_key(KeyCode::Char(c), shift);
            &&& sheet.pressed(left).1 == SheetVerb::Answered
            &&& sheet.pressed(right).1 == SheetVerb::Answered
            &&& (sheet.focus is Date ==> sheet.pressed(left).0 == (SheetView {
                date: sheet.date.stepped(StepView::of_days(-days)),
                ..sheet
            }) && sheet.pressed(right).0 == (SheetView {
                date: sheet.date.stepped(StepView::of_days(days)),
                ..sheet
            }) && sheet.pressed(typed) == (
                SheetView { date: sheet.date.edited(typed), ..sheet },
                SheetVerb::Answered,
            ))
            &&& (!(sheet.focus is Date) ==> sheet.pressed(left).0 == sheet && sheet.pressed(right).0
                == sheet)
        }),
{
}

/// A sheet opens with the caret in its pot, on the lines it was given, with
/// nothing searched for.
pub proof fn a_sheet_opens_on_its_pot(
    kind: BatchKind,
    container: AccountId,
    name: Seq<char>,
    date: DateFieldView,
    amount: Cents,
    lines: Seq<SheetLine>,
)
    ensures
        ({
            let sheet = SheetView::opened(kind, container, name, date, amount, lines);
            &&& sheet.kind == kind
            &&& sheet.container == container
            &&& sheet.container_name == name
            &&& sheet.amount == amount
            &&& sheet.date == date
            &&& sheet.lines.rows == lines
            &&& sheet.lines.search.needle().len() == 0
            &&& !sheet.lines.search.open
            &&& sheet.focus is Amount
            &&& !sheet.pending_slash
        }),
{
}

/// A carried-out operation leaves each line down for its goal's share, and
/// every line in its place.
pub proof fn an_operation_figures_every_line(
    sheet: SheetView,
    amount: Cents,
    shares: Seq<(GoalId, Cents)>,
    at: int,
)
    requires
        0 <= at < sheet.lines.rows.len(),
    ensures
        ({
            let after = sheet.figured(amount, shares);
            &&& after.amount == amount
            &&& after.lines.rows.len() == sheet.lines.rows.len()
            &&& after.lines.rows[at].goal == sheet.lines.rows[at].goal
            &&& after.lines.rows[at].name == sheet.lines.rows[at].name
            &&& after.lines.rows[at].amount.0 == share_of(shares, sheet.lines.rows[at].goal) as i64
            &&& after.date == sheet.date
            &&& after.focus == sheet.focus
            &&& after.kind == sheet.kind
            &&& after.container == sheet.container
        }),
{
}

} // verus!
