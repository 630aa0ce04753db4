//! Where the cursor sits in a list, how far a page moves it, and which row the
//! list is drawn from.

use crate::key::KeyCode;
use vstd::prelude::*;

verus! {

/// A list cursor, without the list.
///
/// The rows stay with whatever owns them. Every method that needs their
/// number is handed it, which is what lets one cursor serve lists that are
/// filtered and change length under it.
#[derive(Copy, Clone, Debug, PartialEq, Eq, Structural)]
pub struct Cursor {
    index: usize,
    page_height: usize,
    offset: usize,
}

/// What a [`Cursor`] stands for: the row it is on, how many rows a page
/// moves it, and the row the list was last drawn from.
pub struct CursorView {
    pub index: int,
    pub page_height: int,
    pub offset: int,
}

/// The last index of a list of `len` rows, and zero for an empty one.
pub open spec fn last_index(len: int) -> int {
    if len > 0 {
        len - 1
    } else {
        0
    }
}

pub open spec fn min_of(a: int, b: int) -> int {
    if a <= b {
        a
    } else {
        b
    }
}

pub open spec fn max_of(a: int, b: int) -> int {
    if a >= b {
        a
    } else {
        b
    }
}

impl CursorView {
    /// The cursor after a draw fitted a page of the list.
    pub open spec fn drawn_in(self, viewport: Viewport) -> CursorView {
        CursorView {
            page_height: max_of(viewport.height as int, 1),
            offset: viewport.offset as int,
            ..self
        }
    }

    pub open spec fn on(self, index: int) -> CursorView {
        CursorView { index, ..self }
    }

    pub open spec fn clamped(self, len: int) -> CursorView {
        self.on(min_of(self.index, last_index(len)))
    }

    /// One row down, staying put on the last row and past it.
    pub open spec fn below(self, len: int) -> CursorView {
        if self.index + 1 < len {
            self.on(self.index + 1)
        } else {
            self
        }
    }

    /// One row up, staying put on the first row.
    pub open spec fn above(self) -> CursorView {
        self.on(max_of(self.index - 1, 0))
    }

    pub open spec fn at_end(self, len: int) -> CursorView {
        self.on(last_index(len))
    }

    /// A page down, stopping on the last row.
    pub open spec fn page_below(self, len: int) -> CursorView {
        self.on(min_of(self.index + self.page_height, last_index(len)))
    }

    /// A page up, stopping on the first row.
    pub open spec fn page_above(self) -> CursorView {
        self.on(max_of(self.index - self.page_height, 0))
    }

    /// What one of the six list keys does over `len` rows. Any other key
    /// leaves the cursor alone.
    pub open spec fn moved(self, code: KeyCode, len: int) -> CursorView {
        match code {
            KeyCode::Up => self.above(),
            KeyCode::Down => self.below(len),
            KeyCode::Home => self.on(0),
            KeyCode::End => self.at_end(len),
            KeyCode::PageUp => self.page_above(),
            KeyCode::PageDown => self.page_below(len),
            _ => self,
        }
    }
}

impl View for Cursor {
    type V = CursorView;

    closed spec fn view(&self) -> CursorView {
        CursorView {
            index: self.index as int,
            page_height: self.page_height as int,
            offset: self.offset as int,
        }
    }
}

impl Cursor {
    /// A page holds at least one row, so paging always moves.
    #[verifier::type_invariant]
    spec fn page_holds_a_row(self) -> bool {
        self.page_height >= 1
    }

    /// Opens on the first row, one line to a page until a draw says otherwise.
    pub fn new() -> (cursor: Cursor)
        ensures
            cursor@ == (CursorView { index: 0, page_height: 1, offset: 0 }),
    {
        Cursor { index: 0, page_height: 1, offset: 0 }
    }

    pub fn index(self) -> (index: usize)
        ensures
            index == self@.index,
    {
        self.index
    }

    /// Put the cursor somewhere specific: an anchor after a reload, not a
    /// keypress. The caller is responsible for the index being in range.
    pub fn select(&mut self, index: usize)
        ensures
            final(self)@ == old(self)@.on(index as int),
    {
        proof {
            use_type_invariant(&*self);
        }
        self.index = index;
    }

    /// Pull the cursor back inside a list that has just shrunk.
    ///
    /// A cursor left past the end would make the row operators act on
    /// nothing, or on whatever later lands at that index.
    pub fn clamp(&mut self, len: usize)
        ensures
            final(self)@ == old(self)@.clamped(len as int),
    {
        proof {
            use_type_invariant(&*self);
        }
        let last: usize = len.saturating_sub(1);
        if last < self.index {
            self.index = last;
        }
    }

    pub fn next(&mut self, len: usize)
        ensures
            final(self)@ == old(self)@.below(len as int),
    {
        proof {
            use_type_invariant(&*self);
        }
        if self.index < len.saturating_sub(1) {
            self.index = self.index + 1;
        }
    }

    pub fn previous(&mut self)
        ensures
            final(self)@ == old(self)@.above(),
    {
        proof {
            use_type_invariant(&*self);
        }
        self.index = self.index.saturating_sub(1);
    }

    pub fn first(&mut self)
        ensures
            final(self)@ == old(self)@.on(0),
    {
        proof {
            use_type_invariant(&*self);
        }
        self.index = 0;
    }

    pub fn last(&mut self, len: usize)
        ensures
            final(self)@ == old(self)@.at_end(len as int),
    {
        proof {
            use_type_invariant(&*self);
        }
        self.index = len.saturating_sub(1);
    }

    pub fn page_down(&mut self, len: usize)
        ensures
            final(self)@ == old(self)@.page_below(len as int),
    {
        proof {
            use_type_invariant(&*self);
        }
        let below: usize = self.index.saturating_add(self.page_height);
        let last: usize = len.saturating_sub(1);
        self.index = if below <= last {
            below
        } else {
            last
        };
    }

    pub fn page_up(&mut self)
        ensures
            final(self)@ == old(self)@.page_above(),
    {
        proof {
            use_type_invariant(&*self);
        }
        self.index = self.index.saturating_sub(self.page_height);
    }

    pub fn page_height(self) -> (height: usize)
        ensures
            height == self@.page_height,
            height >= 1,
    {
        proof {
            use_type_invariant(&self);
        }
        self.page_height
    }

    /// The viewport height, recorded by the draw so `PageUp` and `PageDown`
    /// can move by it.
    ///
    /// Clamped to one: a screen too short to hold a row would otherwise leave
    /// paging a no-op.
    pub fn set_page_height(&mut self, height: usize)
        ensures
            final(self)@ == (CursorView { page_height: max_of(height as int, 1), ..old(self)@ }),
    {
        self.page_height = if height >= 1 {
            height
        } else {
            1
        };
    }

    /// Which row the list was last drawn from.
    pub fn offset(self) -> (offset: usize)
        ensures
            offset == self@.offset,
    {
        self.offset
    }

    /// Take back what the draw resolved: the viewport it had, and where it
    /// started it. The next draw starts from that offset rather than from
    /// zero, which is what makes the view hold still while the cursor has
    /// room to move inside it.
    pub fn record_viewport(&mut self, viewport: Viewport)
        ensures
            final(self)@ == (CursorView {
                page_height: max_of(viewport.height as int, 1),
                offset: viewport.offset as int,
                ..old(self)@
            }),
    {
        self.set_page_height(viewport.height);
        proof {
            use_type_invariant(&*self);
        }
        self.offset = viewport.offset;
    }
}

impl Default for Cursor {
    fn default() -> (cursor: Cursor)
        ensures
            cursor@ == (CursorView { index: 0, page_height: 1, offset: 0 }),
    {
        Cursor::new()
    }
}

/// What a draw resolved for one list: how tall its viewport was, and which row
/// it started at. Both come back out of the draw, because only the draw knows
/// how many lines the screen left for rows.
#[derive(Copy, Clone, Debug, PartialEq, Eq, Structural)]
pub struct Viewport {
    pub height: usize,
    pub offset: usize,
}

impl Default for Viewport {
    fn default() -> (viewport: Viewport)
        ensures
            viewport == (Viewport { height: 0, offset: 0 }),
    {
        Viewport { height: 0, offset: 0 }
    }
}

impl Viewport {
    /// A viewport with nothing scrolled out of it: what a screen reports when
    /// it drew a message in place of its list.
    pub fn of_height(height: usize) -> (viewport: Viewport)
        ensures
            viewport == (Viewport { height, offset: 0 }),
    {
        Viewport { height, offset: 0 }
    }
}

/// How many rows of context the cursor keeps between itself and the edge it is
/// travelling towards, so that the row it is about to reach is already on
/// screen.
pub const MARGIN: usize = 3;

/// What a draw has to keep on screen: the selected row, and the runs either
/// side of it that the cursor cannot rest on.
///
/// `context` is the topmost row that has to come into view with the
/// selection, `tail` the bottommost. Both are the selection itself on every
/// list whose rows the cursor can all rest on. Where it cannot, a row the
/// cursor can never reach is reachable by nothing but the view, so it travels
/// with the nearest row that can be selected.
#[derive(Copy, Clone, Debug, PartialEq, Eq, Structural)]
pub struct Selection {
    pub context: usize,
    pub selected: usize,
    pub tail: usize,
}

/// The rows kept clear between the cursor and either edge: [`MARGIN`], or as
/// many as a short viewport can hold on both sides of the cursor.
pub open spec fn margin_in(height: int) -> int {
    min_of(MARGIN as int, (height - 1) / 2)
}

/// The least offset that shows the cursor with its margin below it and the
/// tail with none, held to the last screenful.
///
/// A run below the cursor that is taller than the viewport gives way: the tail
/// takes the view no further down than the cursor's own row.
pub open spec fn lowest_offset(selection: Selection, rows: int, height: int) -> int {
    min_of(
        max_of(
            max_of(selection.selected - (height - 1 - margin_in(height)), 0),
            min_of(max_of(selection.tail - (height - 1), 0), selection.selected as int),
        ),
        rows - height,
    )
}

/// The greatest offset that keeps the margin above the cursor and the context
/// in view, held to the last screenful and never below [`lowest_offset`].
pub open spec fn highest_offset(selection: Selection, rows: int, height: int) -> int {
    max_of(
        min_of(
            min_of(max_of(selection.selected - margin_in(height), 0), selection.context as int),
            rows - height,
        ),
        lowest_offset(selection, rows, height),
    )
}

/// Where a viewport of `height` lines over `rows` rows starts: at the top when
/// everything fits, and otherwise as near to where it last started as
/// [`lowest_offset`] and [`highest_offset`] allow.
pub open spec fn offset_for(current: int, selection: Selection, rows: int, height: int) -> int {
    if rows <= height || height == 0 {
        0
    } else {
        min_of(
            max_of(current, lowest_offset(selection, rows, height)),
            highest_offset(selection, rows, height),
        )
    }
}

/// Where the viewport starts, given where it started last time, where the
/// cursor is now, and what sits either side of the cursor that it cannot
/// reach.
///
/// The view holds still until the cursor comes within [`MARGIN`] rows of an
/// edge, and then scrolls by exactly what that costs. The margin gives way at
/// the ends of the list, where there is nothing beyond the last row to keep
/// in view, and on a viewport too short to hold it either side of the cursor.
/// The row the cursor is on is drawn whatever is either side of it.
pub fn viewport_offset(current: usize, selection: Selection, rows: usize, height: usize) -> (offset:
    usize)
    ensures
        offset == offset_for(current as int, selection, rows as int, height as int),
        0 < height < rows && selection.selected < rows ==> offset <= selection.selected < offset
            + height,
{
    if rows <= height || height == 0 {
        return 0;
    }
    let last: usize = rows - height;
    let half: usize = (height - 1) / 2;
    let margin: usize = if MARGIN <= half {
        MARGIN
    } else {
        half
    };
    let for_cursor: usize = selection.selected.saturating_sub(height - 1 - margin);
    let whole_tail: usize = selection.tail.saturating_sub(height - 1);
    // A run too long for the viewport gives way rather than scrolling the
    // selection off the top.
    let for_tail: usize = if whole_tail <= selection.selected {
        whole_tail
    } else {
        selection.selected
    };
    let wanted: usize = if for_cursor >= for_tail {
        for_cursor
    } else {
        for_tail
    };
    let lowest: usize = if wanted <= last {
        wanted
    } else {
        last
    };
    let above: usize = selection.selected.saturating_sub(margin);
    let with_context: usize = if above <= selection.context {
        above
    } else {
        selection.context
    };
    let held: usize = if with_context <= last {
        with_context
    } else {
        last
    };
    // The row the cursor is on has to be drawn whatever is either side of
    // it, so the lower bound wins where the two cross.
    let highest: usize = if held >= lowest {
        held
    } else {
        lowest
    };
    if current < lowest {
        lowest
    } else if current > highest {
        highest
    } else {
        current
    }
}

/// A list with a cursor in it: where the cursor lives, and how many rows it
/// may move over.
///
/// The three required methods are the whole of what a list has to say. The
/// movements are the same on every list, so they are written once here.
pub trait Scroll: Sized {
    /// What the list and its cursor stand for.
    type Shown;

    spec fn shown(&self) -> Self::Shown;

    spec fn cursor_of(shown: Self::Shown) -> CursorView;

    /// The list with another cursor and nothing else changed.
    spec fn with_cursor(shown: Self::Shown, cursor: CursorView) -> Self::Shown;

    /// How many rows the cursor may move over: the visible ones wherever a
    /// list is filtered.
    spec fn rows_of(shown: Self::Shown) -> int;

    fn cursor(&self) -> (cursor: &Cursor)
        ensures
            cursor@ == Self::cursor_of(self.shown()),
    ;

    fn cursor_mut(&mut self) -> (cursor: &mut Cursor)
        ensures
            cursor@ == Self::cursor_of(old(self).shown()),
            final(self).shown() == Self::with_cursor(old(self).shown(), final(cursor)@),
    ;

    fn row_count(&self) -> (count: usize)
        ensures
            count == Self::rows_of(self.shown()),
    ;

    fn selected_index(&self) -> (index: usize)
        ensures
            index == Self::cursor_of(self.shown()).index,
    {
        self.cursor().index()
    }

    /// The topmost row that has to be on screen with the selection: the
    /// selection itself, unless the rows above it are ones the cursor can
    /// never rest on.
    fn context_row(&self) -> (row: usize)
        ensures
            row <= Self::cursor_of(self.shown()).index,
        default_ensures
            row == Self::cursor_of(self.shown()).index,
    {
        self.selected_index()
    }

    /// The bottommost row that has to be on screen with the selection:
    /// [`context_row`](Scroll::context_row)'s mirror.
    fn tail_row(&self) -> (row: usize)
        ensures
            row >= Self::cursor_of(self.shown()).index,
        default_ensures
            row == Self::cursor_of(self.shown()).index,
    {
        self.selected_index()
    }

    fn select_next(&mut self)
        ensures
            final(self).shown() == Self::with_cursor(
                old(self).shown(),
                Self::cursor_of(old(self).shown()).below(Self::rows_of(old(self).shown())),
            ),
    {
        let len: usize = self.row_count();
        self.cursor_mut().next(len);
    }

    fn select_previous(&mut self)
        ensures
            final(self).shown() == Self::with_cursor(
                old(self).shown(),
                Self::cursor_of(old(self).shown()).above(),
            ),
    {
        self.cursor_mut().previous();
    }

    fn select_first(&mut self)
        ensures
            final(self).shown() == Self::with_cursor(
                old(self).shown(),
                Self::cursor_of(old(self).shown()).on(0),
            ),
    {
        self.cursor_mut().first();
    }

    fn select_last(&mut self)
        ensures
            final(self).shown() == Self::with_cursor(
                old(self).shown(),
                Self::cursor_of(old(self).shown()).at_end(Self::rows_of(old(self).shown())),
            ),
    {
        let len: usize = self.row_count();
        self.cursor_mut().last(len);
    }

    fn page_down(&mut self)
        ensures
            final(self).shown() == Self::with_cursor(
                old(self).shown(),
                Self::cursor_of(old(self).shown()).page_below(Self::rows_of(old(self).shown())),
            ),
    {
        let len: usize = self.row_count();
        self.cursor_mut().page_down(len);
    }

    fn page_up(&mut self)
        ensures
            final(self).shown() == Self::with_cursor(
                old(self).shown(),
                Self::cursor_of(old(self).shown()).page_above(),
            ),
    {
        self.cursor_mut().page_up();
    }

    fn record_viewport(&mut self, viewport: Viewport)
        ensures
            final(self).shown() == Self::with_cursor(
                old(self).shown(),
                Self::cursor_of(old(self).shown()).drawn_in(viewport),
            ),
    {
        self.cursor_mut().record_viewport(viewport);
    }
}

/// The six keys every list answers.
pub open spec fn is_scroll(code: KeyCode) -> bool {
    code is Up || code is Down || code is Home || code is End || code is PageUp || code is PageDown
}

/// Dispatch the six list-navigation keys, reporting whether one was consumed.
///
/// A key handler tries this first and falls through to its own operators.
/// Written once so the six keys mean the same thing everywhere.
pub fn scroll_key<T: Scroll>(target: &mut T, code: KeyCode) -> (consumed: bool)
    ensures
        consumed == is_scroll(code),
        final(target).shown() == (if is_scroll(code) {
            T::with_cursor(
                old(target).shown(),
                T::cursor_of(old(target).shown()).moved(code, T::rows_of(old(target).shown())),
            )
        } else {
            old(target).shown()
        }),
{
    match code {
        KeyCode::Up => target.select_previous(),
        KeyCode::Down => target.select_next(),
        KeyCode::Home => target.select_first(),
        KeyCode::End => target.select_last(),
        KeyCode::PageUp => target.page_up(),
        KeyCode::PageDown => target.page_down(),
        _ => return false,
    }
    true
}

impl CursorView {
    /// On a row of a list of `len` rows, or at zero over an empty one.
    pub open spec fn within(self, len: int) -> bool {
        0 <= self.index <= last_index(len)
    }
}

/// Every list key leaves a cursor that was on a row on a row, and over an
/// empty list at zero.
pub proof fn moves_stay_in_the_list(cursor: CursorView, code: KeyCode, len: int)
    requires
        cursor.within(len),
        cursor.page_height >= 1,
    ensures
        cursor.moved(code, len).within(len),
        cursor.moved(code, len).page_height == cursor.page_height,
        cursor.moved(code, len).offset == cursor.offset,
{
}

/// Clamping puts any cursor on a row of the list, and leaves alone one that
/// is on a row already.
pub proof fn clamping_puts_the_cursor_in_the_list(cursor: CursorView, len: int)
    requires
        cursor.index >= 0,
    ensures
        cursor.clamped(len).within(len),
        cursor.within(len) ==> cursor.clamped(len) == cursor,
{
}

/// Paging always moves, until the last row or the first stops it.
pub proof fn a_page_always_moves(cursor: CursorView, len: int)
    requires
        cursor.within(len),
        cursor.page_height >= 1,
    ensures
        cursor.index < last_index(len) ==> cursor.page_below(len).index > cursor.index,
        cursor.index > 0 ==> cursor.page_above().index < cursor.index,
{
}

/// The view never scrolls past the last row.
pub proof fn the_view_stops_with_the_last_row_on_screen(
    current: int,
    selection: Selection,
    rows: int,
    height: int,
)
    requires
        current >= 0,
        rows >= 0,
        height >= 0,
    ensures
        0 <= offset_for(current, selection, rows, height),
        offset_for(current, selection, rows, height) <= max_of(rows - height, 0),
{
}

/// The row the cursor is on is always drawn, whatever is either side of it.
pub proof fn the_selected_row_is_on_screen(
    current: int,
    selection: Selection,
    rows: int,
    height: int,
)
    requires
        current >= 0,
        height > 0,
        selection.selected < rows,
    ensures
        offset_for(current, selection, rows, height) <= selection.selected,
        selection.selected < offset_for(current, selection, rows, height) + height,
{
}

/// Between the cursor and each edge there are [`margin_in`] rows, or as many
/// as the list has left on that side, whenever the selection has nothing
/// unreachable either side of it.
pub proof fn the_cursor_keeps_its_margin(current: int, selected: usize, rows: int, height: int)
    requires
        current >= 0,
        height > 0,
        selected < rows,
    ensures
        ({
            let selection = Selection { context: selected, selected, tail: selected };
            let offset = offset_for(current, selection, rows, height);
            &&& selected - offset >= min_of(margin_in(height), selected as int)
            &&& offset + height - 1 - selected >= min_of(margin_in(height), rows - 1 - selected)
        }),
{
}

/// The end of the unreachable run below the cursor is on screen too. A run
/// taller than the viewport is shown as far as it goes, from the cursor's own
/// row at the top.
pub proof fn the_tail_is_on_screen(current: int, selection: Selection, rows: int, height: int)
    requires
        current >= 0,
        height > 0,
        selection.tail < rows,
    ensures
        selection.tail < selection.selected + height ==> selection.tail < offset_for(
            current,
            selection,
            rows,
            height,
        ) + height,
        selection.tail >= selection.selected + height ==> offset_for(
            current,
            selection,
            rows,
            height,
        ) == selection.selected,
{
}

/// So is the start of the unreachable run above it, where that run, the
/// cursor with its margin and the run below all fit in one screenful.
pub proof fn the_context_is_on_screen(current: int, selection: Selection, rows: int, height: int)
    requires
        current >= 0,
        height > 0,
        selection.selected < rows,
        selection.selected + margin_in(height) < selection.context + height,
        selection.tail < selection.context + height,
    ensures
        offset_for(current, selection, rows, height) <= selection.context,
{
}

/// The view holds still while the offset it had is allowed, and otherwise
/// moves by the least that makes it so.
pub proof fn the_view_moves_no_further_than_it_must(
    current: int,
    selection: Selection,
    rows: int,
    height: int,
    other: int,
)
    requires
        current >= 0,
        height > 0,
        rows > height,
        lowest_offset(selection, rows, height) <= other <= highest_offset(selection, rows, height),
    ensures
        current == other ==> offset_for(current, selection, rows, height) == current,
        current <= offset_for(current, selection, rows, height) ==> offset_for(
            current,
            selection,
            rows,
            height,
        ) - current <= max_of(other - current, current - other),
        current >= offset_for(current, selection, rows, height) ==> current - offset_for(
            current,
            selection,
            rows,
            height,
        ) <= max_of(other - current, current - other),
{
}

/// Each of the six list keys moves the cursor its own way: a row, a page, or to
/// an end, and never past one.
pub proof fn each_list_key_moves_its_own_way(cursor: CursorView, code: KeyCode, len: int)
    requires
        0 <= cursor.index < len,
        cursor.page_height > 0,
    ensures
        cursor.moved(code, len).page_height == cursor.page_height,
        cursor.moved(code, len).offset == cursor.offset,
        cursor.index < len - 1 ==> cursor.moved(KeyCode::Down, len).index == cursor.index + 1,
        cursor.index == len - 1 ==> cursor.moved(KeyCode::Down, len).index == len - 1,
        cursor.index > 0 ==> cursor.moved(KeyCode::Up, len).index == cursor.index - 1,
        cursor.index == 0 ==> cursor.moved(KeyCode::Up, len).index == 0,
        cursor.moved(KeyCode::Home, len).index == 0,
        cursor.moved(KeyCode::End, len).index == len - 1,
        cursor.index + cursor.page_height < len ==> cursor.moved(KeyCode::PageDown, len).index
            == cursor.index + cursor.page_height,
        cursor.index + cursor.page_height >= len ==> cursor.moved(KeyCode::PageDown, len).index
            == len - 1,
        cursor.index >= cursor.page_height ==> cursor.moved(KeyCode::PageUp, len).index
            == cursor.index - cursor.page_height,
        cursor.index < cursor.page_height ==> cursor.moved(KeyCode::PageUp, len).index == 0,
        code is Char || code is Enter || code is Esc || code is Tab || code is Left || code is Right
            ==> cursor.moved(code, len) == cursor,
{
}

/// A list that lost rows keeps its place where that row is still there, and
/// otherwise goes to its last.
pub proof fn a_shorter_list_keeps_the_place(cursor: CursorView, len: int)
    requires
        cursor.index >= 0,
        len >= 0,
    ensures
        cursor.index < len ==> cursor.clamped(len) == cursor,
        cursor.index >= len && len > 0 ==> cursor.clamped(len).index == len - 1,
        len == 0 ==> cursor.clamped(len).index == 0,
        cursor.clamped(len).page_height == cursor.page_height,
        cursor.clamped(len).offset == cursor.offset,
{
}

} // verus!
