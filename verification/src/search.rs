//! The `/` box, and the lists it narrows.
//!
//! A needle matches a row's own words whatever the case either is written in.
//! The box narrows a list already in memory: a keystroke is a refilter and
//! nothing else.

use crate::cursor::{is_scroll, max_of, scroll_key, Cursor, CursorView, Scroll, Viewport};
use crate::key::{KeyCode, KeyEvent};
use crate::step::{Step, StepView};
use crate::text::{edit_key, same_text, TextBuffer, TextView};
use vstd::prelude::*;
use vstd::string::*;

verus! {

/// What `str::to_lowercase` makes of a text.
pub uninterp spec fn lowered(text: Seq<char>) -> Seq<char>;

/// `str::to_lowercase`, which maps a text by the Unicode tables alone: the
/// same text always gives the same answer. The tables themselves are left
/// unsaid.
#[verifier::external_body]
fn lower(text: &str) -> (low: String)
    ensures
        low@ == lowered(text@),
{
    text.to_lowercase()
}

/// Whether `needle` stands somewhere in `text`, written as it is.
pub open spec fn holds(text: Seq<char>, needle: Seq<char>) -> bool {
    exists|at: int| stands_at(text, needle, at)
}

pub open spec fn stands_at(text: Seq<char>, needle: Seq<char>, at: int) -> bool {
    0 <= at && at + needle.len() <= text.len() && text.subrange(at, at + needle.len()) == needle
}

/// Whether `needle` stands somewhere in `text`, written as it is.
pub fn contains(text: &str, needle: &str) -> (found: bool)
    ensures
        found == holds(text@, needle@),
{
    let len: usize = text.unicode_len();
    let width: usize = needle.unicode_len();
    if width > len {
        return false;
    }
    let last: usize = len - width;
    let mut at: usize = 0;
    loop
        invariant
            at <= last,
            last + width == len,
            len == text@.len(),
            width == needle@.len(),
            forall|i: int| 0 <= i < at ==> !stands_at(text@, needle@, i),
        decreases last - at,
    {
        if same_text(text.substring_char(at, at + width), needle) {
            proof {
                assert(stands_at(text@, needle@, at as int));
            }
            return true;
        }
        if at == last {
            proof {
                assert forall|i: int| !stands_at(text@, needle@, i) by {
                    if i == at {
                        assert(!stands_at(text@, needle@, at as int));
                    }
                }
            }
            return false;
        }
        at = at + 1;
    }
}

/// Whether a needle matches a text, whatever the case of either. An empty
/// needle matches everything.
pub open spec fn answers(text: Seq<char>, needle: Seq<char>) -> bool {
    needle.len() == 0 || holds(lowered(text), lowered(needle))
}

/// Whether a needle matches a text, whatever the case of either.
pub fn is_match(text: &str, needle: &str) -> (found: bool)
    ensures
        found == answers(text@, needle@),
{
    if needle.unicode_len() == 0 {
        return true;
    }
    contains(&lower(text), &lower(needle))
}

/// A stretch of a drawn line, and whether the caret is on it.
#[derive(Debug)]
pub struct Span {
    pub text: String,
    pub caret: bool,
}

/// What a [`Span`] stands for.
pub struct SpanView {
    pub text: Seq<char>,
    pub caret: bool,
}

impl View for Span {
    type V = SpanView;

    open spec fn view(&self) -> SpanView {
        SpanView { text: self.text@, caret: self.caret }
    }
}

/// Every span of a drawn line.
pub open spec fn spans_of(spans: Seq<Span>) -> Seq<SpanView> {
    Seq::new(spans.len(), |i: int| spans[i]@)
}

pub open spec fn raw(text: Seq<char>) -> SpanView {
    SpanView { text, caret: false }
}

impl Span {
    /// Words with no caret among them.
    pub fn raw(text: &str) -> (span: Span)
        ensures
            span@ == raw(text@),
    {
        Span { text: text.to_owned(), caret: false }
    }
}

/// A search box: what has been typed, and whether it is taking keystrokes.
#[derive(Debug)]
pub struct SearchBox {
    text: TextBuffer,
    open: bool,
}

/// What a [`SearchBox`] stands for.
pub struct SearchView {
    pub line: TextView,
    pub open: bool,
}

impl SearchView {
    /// A shut box with nothing in it.
    pub open spec fn shut() -> SearchView {
        SearchView { line: TextView::holding(Seq::empty()), open: false }
    }

    pub open spec fn needle(self) -> Seq<char> {
        self.line.text
    }

    /// The box taking keystrokes, on the needle it already holds.
    pub open spec fn begun(self) -> SearchView {
        SearchView { open: true, ..self }
    }

    /// The box shut on its needle.
    pub open spec fn ended(self) -> SearchView {
        SearchView { open: false, ..self }
    }

    pub open spec fn typed(self, c: char) -> SearchView {
        SearchView { line: self.line.inserted(c), ..self }
    }

    pub open spec fn edited(self, key: KeyEvent) -> SearchView {
        SearchView { line: self.line.edited(key), ..self }
    }

    pub open spec fn caret_stepped(self, step: StepView) -> SearchView {
        SearchView { line: self.line.stepped(step.direction()), ..self }
    }

    /// What any key leaves of an open box: `Enter` keeps the needle and shuts
    /// it, `Esc` empties and shuts it, the arrows move its caret, and
    /// everything else edits.
    pub open spec fn pressed(self, key: KeyEvent) -> SearchView {
        match key.code {
            KeyCode::Enter => self.ended(),
            KeyCode::Esc => SearchView::shut(),
            KeyCode::Left => self.caret_stepped(StepView::of_days(-1)),
            KeyCode::Right => self.caret_stepped(StepView::of_days(1)),
            _ => self.edited(key),
        }
    }

    /// A filter the box holds while shut.
    pub open spec fn keeps_a_needle(self) -> bool {
        !self.open && self.needle().len() > 0
    }

    /// The needle as it is drawn. While the box is open the character under
    /// the caret is a span of its own: past the end of the needle that is a
    /// space. A shut box draws no caret.
    pub open spec fn spans(self) -> Seq<SpanView> {
        let line = self.line;
        if !self.open {
            seq![raw(line.text)]
        } else if line.caret < line.text.len() {
            seq![
                raw(line.before()),
                SpanView { text: seq![line.text[line.caret]], caret: true },
                raw(line.text.skip(line.caret + 1)),
            ]
        } else {
            seq![raw(line.text), SpanView { text: " "@, caret: true }]
        }
    }
}

impl View for SearchBox {
    type V = SearchView;

    closed spec fn view(&self) -> SearchView {
        SearchView { line: self.text@, open: self.open }
    }
}

impl SearchBox {
    pub fn new() -> (search: SearchBox)
        ensures
            search@ == SearchView::shut(),
    {
        SearchBox { text: TextBuffer::new(), open: false }
    }

    pub fn is_open(&self) -> (open: bool)
        ensures
            open == self@.open,
    {
        self.open
    }

    pub fn needle(&self) -> (needle: &str)
        ensures
            needle@ == self@.needle(),
    {
        self.text.value()
    }

    fn begin(&mut self)
        ensures
            final(self)@ == old(self)@.begun(),
    {
        self.open = true;
    }

    fn end(&mut self)
        ensures
            final(self)@ == old(self)@.ended(),
    {
        self.open = false;
    }

    fn clear(&mut self)
        ensures
            final(self)@ == SearchView::shut(),
    {
        self.text.set("");
        self.open = false;
        proof {
            reveal_strlit("");
            assert(""@ =~= Seq::<char>::empty());
        }
    }

    fn push(&mut self, c: char)
        ensures
            final(self)@ == old(self)@.typed(c),
    {
        self.text.insert(c);
    }

    fn edit(&mut self, key: KeyEvent)
        ensures
            final(self)@ == old(self)@.edited(key),
    {
        let _ = edit_key(&mut self.text, key);
    }

    fn step(&mut self, step: Step)
        ensures
            final(self)@ == old(self)@.caret_stepped(step@),
    {
        self.text.step(step.direction());
    }

    /// The needle as it is drawn.
    pub fn spans(&self) -> (spans: Vec<Span>)
        ensures
            spans_of(spans@) == self@.spans(),
    {
        let text: &str = self.text.value();
        let len: usize = text.unicode_len();
        let at: usize = self.text.caret();
        let mut spans: Vec<Span> = Vec::new();
        if !self.open {
            spans.push(Span::raw(text));
        } else if at < len {
            spans.push(Span::raw(text.substring_char(0, at)));
            spans.push(Span { text: text.substring_char(at, at + 1).to_owned(), caret: true });
            spans.push(Span::raw(text.substring_char(at + 1, len)));
            proof {
                let line = self@.line;
                assert(spans@[1].text@ =~= seq![line.text[line.caret]]);
                assert(spans@[2].text@ =~= line.text.skip(line.caret + 1));
                assert(spans@[0].text@ =~= line.before());
            }
        } else {
            spans.push(Span::raw(text));
            spans.push(Span { text: " ".to_owned(), caret: true });
        }
        proof {
            assert(spans_of(spans@) =~= self@.spans());
        }
        spans
    }
}

/// A list with a `/` box over it.
///
/// What the box does is written once here, so the same key does the same
/// thing over every list: a list says only where its box is and what its
/// needle leaves.
pub trait Search: Sized {
    /// What the list and its box stand for.
    type Model;

    spec fn model(&self) -> Self::Model;

    spec fn box_of(model: Self::Model) -> SearchView;

    /// The list with another box and nothing else changed.
    spec fn with_box(model: Self::Model, search: SearchView) -> Self::Model;

    /// The list narrowed to what its needle leaves.
    spec fn narrowed(model: Self::Model) -> Self::Model;

    fn search_box(&self) -> (search: &SearchBox)
        ensures
            search@ == Self::box_of(self.model()),
    ;

    fn search_box_mut(&mut self) -> (search: &mut SearchBox)
        ensures
            search@ == Self::box_of(old(self).model()),
            final(self).model() == Self::with_box(old(self).model(), final(search)@),
    ;

    fn refilter(&mut self)
        ensures
            final(self).model() == Self::narrowed(old(self).model()),
    ;

    fn is_searching(&self) -> (open: bool)
        ensures
            open == Self::box_of(self.model()).open,
    {
        self.search_box().is_open()
    }

    fn search(&self) -> (needle: &str)
        ensures
            needle@ == Self::box_of(self.model()).needle(),
    {
        self.search_box().needle()
    }

    fn search_spans(&self) -> (spans: Vec<Span>)
        ensures
            spans_of(spans@) == Self::box_of(self.model()).spans(),
    {
        self.search_box().spans()
    }

    fn begin_search(&mut self)
        ensures
            final(self).model() == Self::with_box(
                old(self).model(),
                Self::box_of(old(self).model()).begun(),
            ),
    {
        self.search_box_mut().begin();
    }

    /// Leave the box and keep its needle.
    fn end_search(&mut self)
        ensures
            final(self).model() == Self::with_box(
                old(self).model(),
                Self::box_of(old(self).model()).ended(),
            ),
    {
        self.search_box_mut().end();
    }

    /// Leave the box and drop its needle.
    fn clear_search(&mut self)
        ensures
            final(self).model() == Self::narrowed(
                Self::with_box(old(self).model(), SearchView::shut()),
            ),
    {
        self.search_box_mut().clear();
        self.refilter();
    }

    fn push_search(&mut self, c: char)
        ensures
            final(self).model() == Self::narrowed(
                Self::with_box(old(self).model(), Self::box_of(old(self).model()).typed(c)),
            ),
    {
        self.search_box_mut().push(c);
        self.refilter();
    }

    fn edit_search(&mut self, key: KeyEvent)
        ensures
            final(self).model() == Self::narrowed(
                Self::with_box(old(self).model(), Self::box_of(old(self).model()).edited(key)),
            ),
    {
        self.search_box_mut().edit(key);
        self.refilter();
    }

    /// Moving the caret narrows nothing.
    fn step_search_caret(&mut self, step: Step)
        ensures
            final(self).model() == Self::with_box(
                old(self).model(),
                Self::box_of(old(self).model()).caret_stepped(step@),
            ),
    {
        self.search_box_mut().step(step);
    }
}

/// Whether a key in an open box changes what the needle leaves, rather than
/// only where the caret is or whether the box is open.
pub open spec fn retypes(code: KeyCode) -> bool {
    !(code is Enter || code is Left || code is Right)
}

/// What an open box's key leaves of a list.
pub open spec fn box_pressed<T: Search>(model: T::Model, key: KeyEvent) -> T::Model {
    let held = T::with_box(model, T::box_of(model).pressed(key));
    if retypes(key.code) {
        T::narrowed(held)
    } else {
        held
    }
}

/// Every key while a list's box is open.
pub fn search_key<T: Search>(target: &mut T, key: KeyEvent)
    ensures
        final(target).model() == box_pressed::<T>(old(target).model(), key),
{
    match key.code {
        KeyCode::Enter => target.end_search(),
        KeyCode::Esc => target.clear_search(),
        KeyCode::Left => target.step_search_caret(Step::previous()),
        KeyCode::Right => target.step_search_caret(Step::next()),
        _ => target.edit_search(key),
    }
}

/// What `Esc` outside the box leaves of a list holding a kept needle.
pub open spec fn needle_escaped<T: Search>(model: T::Model) -> T::Model {
    if T::box_of(model).needle().len() > 0 {
        T::narrowed(T::with_box(model, SearchView::shut()))
    } else {
        model
    }
}

/// `Esc` outside the box drops a kept needle before anything else, and says
/// whether there was one.
pub fn escape_kept_filter<T: Search>(target: &mut T) -> (escaped: bool)
    ensures
        escaped == (T::box_of(old(target).model()).needle().len() > 0),
        final(target).model() == needle_escaped::<T>(old(target).model()),
{
    if target.search().unicode_len() == 0 {
        return false;
    }
    target.clear_search();
    true
}

/// The filter of a list that only its needle narrows.
#[derive(Copy, Clone, Debug, PartialEq, Eq, Structural)]
pub struct Unfiltered;

/// A row a list can narrow to.
pub trait Sought: Sized {
    /// What else narrows the list beside its needle.
    type Filter: Copy;

    /// Whether the row is among those a filter and a needle leave.
    spec fn found(&self, filter: Self::Filter, needle: Seq<char>) -> bool;

    fn is_found(&self, filter: Self::Filter, needle: &str) -> (found: bool)
        ensures
            found == self.found(filter, needle@),
    ;
}

/// The places in a list that a filter and a needle leave, in list order.
pub open spec fn kept<T: Sought>(rows: Seq<T>, filter: T::Filter, needle: Seq<char>) -> Seq<int>
    decreases rows.len(),
{
    if rows.len() == 0 {
        Seq::empty()
    } else {
        let before = kept(rows.drop_last(), filter, needle);
        if rows.last().found(filter, needle) {
            before.push(rows.len() - 1)
        } else {
            before
        }
    }
}

/// Rows, what narrows them, and where the cursor is among those left.
#[derive(Debug)]
pub struct Listing<T: Sought> {
    rows: Vec<T>,
    filter: T::Filter,
    /// Indices into `rows`, after the filter and the search. Parallel to what
    /// is drawn.
    visible: Vec<usize>,
    search: SearchBox,
    cursor: Cursor,
}

/// What a [`Listing`] stands for.
pub struct ListingView<T: Sought> {
    pub rows: Seq<T>,
    pub filter: T::Filter,
    pub visible: Seq<int>,
    pub search: SearchView,
    pub cursor: CursorView,
}

impl<T: Sought> ListingView<T> {
    /// The rows drawn are those the filter and the needle leave, the cursor
    /// is on one of them while there are any, and a page holds a row.
    pub open spec fn settled(self) -> bool {
        &&& self.visible == kept(self.rows, self.filter, self.search.needle())
        &&& self.cursor.within(self.visible.len() as int)
        &&& self.cursor.page_height >= 1
    }

    /// A list of `rows` with nothing typed over it, on its first row.
    pub open spec fn fresh(rows: Seq<T>, filter: T::Filter) -> ListingView<T> {
        ListingView {
            rows,
            filter,
            visible: Seq::empty(),
            search: SearchView::shut(),
            cursor: CursorView { index: 0, page_height: 1, offset: 0 },
        }.narrowed()
    }

    /// The rows the filter and the needle leave, the cursor among them.
    pub open spec fn narrowed(self) -> ListingView<T> {
        let visible = kept(self.rows, self.filter, self.search.needle());
        ListingView { visible, cursor: self.cursor.clamped(visible.len() as int), ..self }
    }

    pub open spec fn with_search(self, search: SearchView) -> ListingView<T> {
        ListingView { search, ..self }
    }

    pub open spec fn filtered(self, filter: T::Filter) -> ListingView<T> {
        ListingView { filter, ..self }.narrowed()
    }

    pub open spec fn refilled(self, rows: Seq<T>) -> ListingView<T> {
        ListingView { rows, ..self }.narrowed()
    }

    /// The list with its cursor on the row at `place` among those drawn.
    pub open spec fn on(self, place: int) -> ListingView<T> {
        ListingView { cursor: self.cursor.on(place), ..self }
    }

    /// What a list-navigation key leaves of the list.
    pub open spec fn scrolled(self, code: KeyCode) -> ListingView<T> {
        ListingView { cursor: self.cursor.moved(code, self.visible.len() as int), ..self }
    }

    /// The list after a draw fitted a page of it.
    pub open spec fn drawn_in(self, viewport: Viewport) -> ListingView<T> {
        ListingView {
            cursor: CursorView {
                page_height: max_of(viewport.height as int, 1),
                offset: viewport.offset as int,
                ..self.cursor
            },
            ..self
        }
    }

    /// The row at `place` among those drawn.
    pub open spec fn row(self, place: int) -> T {
        self.rows[self.visible[place]]
    }

    /// The row under the cursor, while any is drawn.
    pub open spec fn chosen(self) -> Option<T> {
        if self.cursor.index < self.visible.len() {
            Some(self.row(self.cursor.index))
        } else {
            None
        }
    }

    /// What an open box's key leaves of the list.
    pub open spec fn box_pressed(self, key: KeyEvent) -> ListingView<T> {
        let held = self.with_search(self.search.pressed(key));
        if retypes(key.code) {
            held.narrowed()
        } else {
            held
        }
    }

    /// What `Esc` outside the box leaves of the list's needle.
    pub open spec fn needle_escaped(self) -> ListingView<T> {
        if self.search.needle().len() > 0 {
            self.with_search(SearchView::shut()).narrowed()
        } else {
            self
        }
    }
}

proof fn lemma_kept_in_range<T: Sought>(rows: Seq<T>, filter: T::Filter, needle: Seq<char>)
    ensures
        kept(rows, filter, needle).len() <= rows.len(),
        forall|i: int|
            0 <= i < kept(rows, filter, needle).len() ==> 0 <= #[trigger] kept(
                rows,
                filter,
                needle,
            )[i] < rows.len() && rows[kept(rows, filter, needle)[i]].found(filter, needle),
    decreases rows.len(),
{
    if rows.len() > 0 {
        let before = rows.drop_last();
        lemma_kept_in_range(before, filter, needle);
        let whole = kept(rows, filter, needle);
        assert forall|i: int| 0 <= i < whole.len() implies 0 <= #[trigger] whole[i] < rows.len()
            && rows[whole[i]].found(filter, needle) by {
            if i < kept(before, filter, needle).len() {
                assert(whole[i] == kept(before, filter, needle)[i]);
                assert(rows[whole[i]] == before[whole[i]]);
            }
        }
    }
}

impl<T: Sought> View for Listing<T> {
    type V = ListingView<T>;

    closed spec fn view(&self) -> ListingView<T> {
        ListingView {
            rows: self.rows@,
            filter: self.filter,
            visible: Seq::new(self.visible@.len(), |i: int| self.visible@[i] as int),
            search: self.search@,
            cursor: self.cursor@,
        }
    }
}

impl<T: Sought> Scroll for Listing<T> {
    type Shown = ListingView<T>;

    open spec fn shown(&self) -> ListingView<T> {
        self@
    }

    open spec fn cursor_of(shown: ListingView<T>) -> CursorView {
        shown.cursor
    }

    open spec fn with_cursor(shown: ListingView<T>, cursor: CursorView) -> ListingView<T> {
        ListingView { cursor, ..shown }
    }

    open spec fn rows_of(shown: ListingView<T>) -> int {
        shown.visible.len() as int
    }

    fn cursor(&self) -> (cursor: &Cursor) {
        assert(Self::cursor_of(self.shown()) == self.cursor@);
        &self.cursor
    }

    fn cursor_mut(&mut self) -> (cursor: &mut Cursor) {
        &mut self.cursor
    }

    fn row_count(&self) -> (count: usize) {
        self.visible.len()
    }
}

impl<T: Sought> Search for Listing<T> {
    type Model = ListingView<T>;

    open spec fn model(&self) -> ListingView<T> {
        self@
    }

    open spec fn box_of(model: ListingView<T>) -> SearchView {
        model.search
    }

    open spec fn with_box(model: ListingView<T>, search: SearchView) -> ListingView<T> {
        model.with_search(search)
    }

    open spec fn narrowed(model: ListingView<T>) -> ListingView<T> {
        model.narrowed()
    }

    fn search_box(&self) -> (search: &SearchBox) {
        assert(Self::box_of(self.model()) == self.search@);
        &self.search
    }

    fn search_box_mut(&mut self) -> (search: &mut SearchBox) {
        &mut self.search
    }

    fn refilter(&mut self) {
        let ghost before = self@;
        let mut visible: Vec<usize> = Vec::new();
        let mut at: usize = 0;
        while at < self.rows.len()
            invariant
                at <= self.rows@.len(),
                self@ == before,
                Seq::new(visible@.len(), |i: int| visible@[i] as int) == kept(
                    self.rows@.take(at as int),
                    self.filter,
                    before.search.needle(),
                ),
            decreases self.rows@.len() - at,
        {
            let ghost listed = visible@;
            proof {
                assert(self.rows@.take(at + 1).drop_last() =~= self.rows@.take(at as int));
            }
            if self.rows[at].is_found(self.filter, self.search.needle()) {
                visible.push(at);
                proof {
                    assert(Seq::new(visible@.len(), |i: int| visible@[i] as int) =~= Seq::new(
                        listed.len(),
                        |i: int| listed[i] as int,
                    ).push(at as int));
                }
            }
            at = at + 1;
        }
        proof {
            assert(self.rows@.take(at as int) =~= self.rows@);
        }
        self.visible = visible;
        self.cursor.clamp(self.visible.len());
    }
}

impl<T: Sought> Listing<T> {
    /// A list of `rows` with nothing typed over it, on its first row.
    pub fn new(rows: Vec<T>, filter: T::Filter) -> (list: Listing<T>)
        ensures
            list@ == ListingView::fresh(rows@, filter),
            list@.settled(),
    {
        let mut list = Listing {
            rows,
            filter,
            visible: Vec::new(),
            search: SearchBox::new(),
            cursor: Cursor::new(),
        };
        proof {
            assert(list@.visible =~= Seq::<int>::empty());
        }
        list.refilter();
        list
    }

    /// Every row, whether or not it is drawn.
    pub fn all(&self) -> (rows: &Vec<T>)
        ensures
            rows@ == self@.rows,
    {
        &self.rows
    }

    pub fn filter(&self) -> (filter: T::Filter)
        ensures
            filter == self@.filter,
    {
        self.filter
    }

    /// How many rows are drawn.
    pub fn len(&self) -> (len: usize)
        ensures
            len == self@.visible.len(),
    {
        self.visible.len()
    }

    /// The row at `place` among those drawn.
    pub fn row(&self, place: usize) -> (row: &T)
        requires
            self@.settled(),
            place < self@.visible.len(),
        ensures
            *row == self@.row(place as int),
    {
        proof {
            lemma_kept_in_range(self.rows@, self.filter, self@.search.needle());
            assert(self@.visible[place as int] == self.visible@[place as int]);
        }
        &self.rows[self.visible[place]]
    }

    /// Every row drawn, in list order.
    pub fn drawn(&self) -> (rows: Vec<&T>)
        requires
            self@.settled(),
        ensures
            rows@.len() == self@.visible.len(),
            forall|i: int| 0 <= i < rows@.len() ==> *(#[trigger] rows@[i]) == self@.row(i),
    {
        let mut rows: Vec<&T> = Vec::new();
        let mut place: usize = 0;
        while place < self.visible.len()
            invariant
                place <= self.visible@.len(),
                self@.settled(),
                rows@.len() == place,
                self@.visible.len() == self.visible@.len(),
                forall|i: int| 0 <= i < rows@.len() ==> *(#[trigger] rows@[i]) == self@.row(i),
            decreases self.visible@.len() - place,
        {
            rows.push(self.row(place));
            place = place + 1;
        }
        rows
    }

    /// The row under the cursor, while any is drawn.
    pub fn selected(&self) -> (row: Option<&T>)
        requires
            self@.settled(),
        ensures
            match row {
                Some(row) => self@.chosen() == Some(*row),
                None => self@.chosen() is None,
            },
            row is None <==> self@.visible.len() == 0,
    {
        let place: usize = self.cursor.index();
        if place < self.visible.len() {
            Some(self.row(place))
        } else {
            None
        }
    }

    /// Narrow the list by another filter.
    pub fn set_filter(&mut self, filter: T::Filter)
        ensures
            final(self)@ == old(self)@.filtered(filter),
    {
        self.filter = filter;
        self.refilter();
    }

    /// Hold other rows. The cursor stays where it is, or comes back into the
    /// list where it would be past the end of it.
    pub fn set_rows(&mut self, rows: Vec<T>)
        ensures
            final(self)@ == old(self)@.refilled(rows@),
    {
        self.rows = rows;
        self.refilter();
    }

    /// Put the cursor on the row at `place` among those drawn.
    pub fn select(&mut self, place: usize)
        ensures
            final(self)@ == old(self)@.on(place as int),
    {
        self.cursor.select(place);
    }

    /// Answer a list-navigation key, and say whether it was one.
    pub fn scroll(&mut self, code: KeyCode) -> (consumed: bool)
        ensures
            consumed == is_scroll(code),
            final(self)@ == old(self)@.scrolled(code),
    {
        let ghost before = self@;
        let consumed = scroll_key(self, code);
        proof {
            assert(self@ == before.scrolled(code));
        }
        consumed
    }

    /// Remember what a draw fitted, and where it started from.
    pub fn record(&mut self, viewport: Viewport)
        ensures
            final(self)@ == old(self)@.drawn_in(viewport),
    {
        self.cursor.record_viewport(viewport);
    }

    /// Answer a key while the box is open.
    pub fn box_key(&mut self, key: KeyEvent)
        ensures
            final(self)@ == old(self)@.box_pressed(key),
    {
        search_key(self, key);
    }

    /// `Esc` outside the box drops a kept needle, and says whether there was
    /// one.
    pub fn escape_needle(&mut self) -> (escaped: bool)
        ensures
            escaped == (old(self)@.search.needle().len() > 0),
            final(self)@ == old(self)@.needle_escaped(),
    {
        escape_kept_filter(self)
    }
}

/// Every row a list draws is one the filter and the needle find, and every
/// row they find is drawn.
pub proof fn a_list_draws_exactly_the_rows_found<T: Sought>(list: ListingView<T>, at: int)
    requires
        list.settled(),
        0 <= at < list.rows.len(),
    ensures
        list.visible.contains(at) <==> list.rows[at].found(list.filter, list.search.needle()),
{
    lemma_kept_exactly(list.rows, list.filter, list.search.needle(), at);
}

proof fn lemma_kept_exactly<T: Sought>(
    rows: Seq<T>,
    filter: T::Filter,
    needle: Seq<char>,
    at: int,
)
    requires
        0 <= at < rows.len(),
    ensures
        kept(rows, filter, needle).contains(at) <==> rows[at].found(filter, needle),
    decreases rows.len(),
{
    lemma_kept_in_range(rows, filter, needle);
    let before = rows.drop_last();
    let whole = kept(rows, filter, needle);
    let some = kept(before, filter, needle);
    if at == rows.len() - 1 {
        if rows.last().found(filter, needle) {
            assert(whole[whole.len() - 1] == at);
        } else if whole.contains(at) {
            let i = whole.index_of(at);
            assert(whole[i] == at);
        }
    } else {
        lemma_kept_exactly(before, filter, needle, at);
        assert(rows[at] == before[at]);
        if some.contains(at) {
            let i = some.index_of(at);
            assert(whole[i] == at);
        }
        if whole.contains(at) {
            let i = whole.index_of(at);
            assert(some[i] == at);
        }
    }
}

/// A row drawn is one the filter and the needle find.
pub proof fn a_row_drawn_is_found<T: Sought>(list: ListingView<T>, place: int)
    requires
        list.settled(),
        0 <= place < list.visible.len(),
    ensures
        list.row(place).found(list.filter, list.search.needle()),
{
    lemma_kept_in_range(list.rows, list.filter, list.search.needle());
}

/// Rows are drawn in the order the list holds them, each once.
pub proof fn a_list_draws_its_rows_in_order<T: Sought>(list: ListingView<T>, i: int, j: int)
    requires
        list.settled(),
        0 <= i < j < list.visible.len(),
    ensures
        0 <= list.visible[i] < list.visible[j] < list.rows.len(),
{
    lemma_kept_in_order(list.rows, list.filter, list.search.needle(), i, j);
}

proof fn lemma_kept_in_order<T: Sought>(
    rows: Seq<T>,
    filter: T::Filter,
    needle: Seq<char>,
    i: int,
    j: int,
)
    requires
        0 <= i < j < kept(rows, filter, needle).len(),
    ensures
        0 <= kept(rows, filter, needle)[i] < kept(rows, filter, needle)[j] < rows.len(),
    decreases rows.len(),
{
    let before = rows.drop_last();
    lemma_kept_in_range(rows, filter, needle);
    lemma_kept_in_range(before, filter, needle);
    if j < kept(before, filter, needle).len() {
        lemma_kept_in_order(before, filter, needle, i, j);
    }
}

/// Whatever is typed, filtered, reloaded or scrolled, the rows drawn are
/// those the filter and the needle leave and the cursor is among them.
pub proof fn a_list_stays_settled<T: Sought>(
    list: ListingView<T>,
    key: KeyEvent,
    filter: T::Filter,
    rows: Seq<T>,
)
    requires
        list.settled(),
    ensures
        list.box_pressed(key).settled(),
        list.needle_escaped().settled(),
        list.with_search(list.search.begun()).settled(),
        list.scrolled(key.code).settled(),
        list.filtered(filter).settled(),
        list.refilled(rows).settled(),
        forall|viewport: Viewport| #[trigger] list.drawn_in(viewport).settled(),
{
}

/// Clearing the search shows every row the filter leaves again, whatever was
/// typed.
pub proof fn clearing_a_needle_shows_what_it_hid<T: Sought>(list: ListingView<T>)
    ensures
        list.with_search(SearchView::shut()).narrowed().visible == kept(
            list.rows,
            list.filter,
            Seq::empty(),
        ),
{
}

/// A needle stands in every text it was put into, and a text that holds it is
/// some text, the needle, and some more.
pub proof fn a_needle_stands_where_it_was_put(
    before: Seq<char>,
    needle: Seq<char>,
    after: Seq<char>,
)
    ensures
        holds(before + needle + after, needle),
{
    let text = before + needle + after;
    assert(text.subrange(before.len() as int, (before.len() + needle.len()) as int) =~= needle);
    assert(stands_at(text, needle, before.len() as int));
}

/// A text that holds a needle can be taken apart around it.
pub proof fn a_text_that_holds_a_needle_comes_apart(text: Seq<char>, needle: Seq<char>)
    requires
        holds(text, needle),
    ensures
        exists|at: int|
            0 <= at <= text.len() - needle.len() && text == #[trigger] text.take(at) + needle
                + text.skip(at + needle.len()),
{
    let at = choose|at: int| stands_at(text, needle, at);
    assert(text =~= text.take(at) + needle + text.skip(at + needle.len()));
}

/// An empty needle matches everything; any other matches exactly where it
/// stands in the text, both in lower case.
pub proof fn case_never_hides_a_match(text: Seq<char>, needle: Seq<char>)
    ensures
        needle.len() == 0 ==> answers(text, needle),
        needle.len() > 0 ==> (answers(text, needle) <==> holds(lowered(text), lowered(needle))),
{
}

/// `Enter` shuts a box on its needle, `Esc` empties it, the arrows move its
/// caret alone, and a bare character is typed where the caret is.
pub proof fn a_box_answers_its_keys(search: SearchView, key: KeyEvent)
    ensures
        key.code is Enter ==> !search.pressed(key).open && search.pressed(key).line == search.line,
        key.code is Esc ==> !search.pressed(key).open && search.pressed(key).line.text.len() == 0,
        key.code is Left || key.code is Right ==> search.pressed(key).open == search.open
            && search.pressed(key).line.text == search.line.text,
        !(key.code is Enter || key.code is Esc) ==> search.pressed(key).open == search.open,
        search.begun().open && search.begun().line == search.line,
{
}

/// Narrowing a list changes which of its rows are drawn and where the cursor
/// is, and nothing else; the cursor stays where it was wherever that is still
/// a row.
pub proof fn narrowing_keeps_the_rows_and_the_place<T: Sought>(
    list: ListingView<T>,
    filter: T::Filter,
    rows: Seq<T>,
)
    requires
        list.cursor.index >= 0,
    ensures
        list.narrowed().rows == list.rows,
        list.narrowed().search == list.search,
        list.narrowed().filter == list.filter,
        list.cursor.index < list.narrowed().visible.len() ==> list.narrowed().cursor
            == list.cursor,
        list.cursor.index >= list.narrowed().visible.len() && list.narrowed().visible.len() > 0
            ==> list.narrowed().cursor.index == list.narrowed().visible.len() - 1,
        list.filtered(filter).filter == filter,
        list.filtered(filter).rows == list.rows,
        list.filtered(filter).search == list.search,
        list.refilled(rows).rows == rows,
        list.refilled(rows).filter == list.filter,
        list.refilled(rows).search == list.search,
{
}

/// Rows are kept one by one, in order: each exactly where it is found.
pub proof fn each_row_is_kept_on_its_own<T: Sought>(
    rows: Seq<T>,
    next: T,
    filter: T::Filter,
    needle: Seq<char>,
)
    ensures
        kept(Seq::<T>::empty(), filter, needle) == Seq::<int>::empty(),
        next.found(filter, needle) ==> kept(rows.push(next), filter, needle) == kept(
            rows,
            filter,
            needle,
        ).push(rows.len() as int),
        !next.found(filter, needle) ==> kept(rows.push(next), filter, needle) == kept(
            rows,
            filter,
            needle,
        ),
{
    assert(rows.push(next).drop_last() =~= rows);
}

/// A shut box draws its needle plain; an open one draws all of it too, with
/// one character under the caret, and a space past its end.
pub proof fn an_open_box_draws_its_caret(search: SearchView)
    requires
        0 <= search.line.caret <= search.line.text.len(),
    ensures
        !search.open ==> search.spans() == seq![raw(search.line.text)],
        search.open && search.line.caret < search.line.text.len() ==> {
            let spans = search.spans();
            &&& spans.len() == 3
            &&& spans[0].text + spans[1].text + spans[2].text == search.line.text
            &&& spans[0].text.len() == search.line.caret
            &&& spans[1].text.len() == 1
            &&& spans[1].caret
            &&& !spans[0].caret
            &&& !spans[2].caret
        },
        search.open && search.line.caret == search.line.text.len() ==> {
            let spans = search.spans();
            &&& spans.len() == 2
            &&& spans[0].text == search.line.text
            &&& spans[1].text == " "@
            &&& spans[1].caret
        },
{
    if search.open && search.line.caret < search.line.text.len() {
        let spans = search.spans();
        assert(spans[0].text + spans[1].text + spans[2].text =~= search.line.text);
    }
}

/// The arrows move the caret of the box a place each their own way, and a
/// character pressed in it is typed at the caret.
pub proof fn the_arrows_move_the_caret_of_the_box(search: SearchView, key: KeyEvent)
    requires
        search.line.valid(),
    ensures
        key.code is Left && search.line.caret > 0 ==> search.pressed(key).line.caret
            == search.line.caret - 1,
        key.code is Right && search.line.caret < search.line.text.len() ==> search.pressed(
            key,
        ).line.caret == search.line.caret + 1,
        key.code is Char || key.code is Backspace ==> search.pressed(key).line
            == search.line.edited(key),
        SearchView::shut().needle().len() == 0,
        !SearchView::shut().open,
{
}

/// A key that changes the needle has the rows sought again at once.
pub proof fn a_needle_is_sought_as_it_is_typed<T: Sought>(list: ListingView<T>, key: KeyEvent)
    requires
        list.settled(),
    ensures
        list.box_pressed(key).search == list.search.pressed(key),
        list.box_pressed(key).rows == list.rows,
        list.box_pressed(key).visible == kept(
            list.rows,
            list.filter,
            list.search.pressed(key).needle(),
        ),
        list.search.needle().len() > 0 ==> list.needle_escaped().search.needle().len() == 0
            && list.needle_escaped().visible == kept(list.rows, list.filter, Seq::empty()),
{
    assert(SearchView::shut().line.text =~= Seq::<char>::empty());
}

} // verus!
