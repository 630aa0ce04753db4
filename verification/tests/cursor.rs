use moneybook::cursor::{viewport_offset, Cursor, Selection, Viewport};


#[test]
fn the_cursor_stops_at_both_ends_of_the_list() {
    let mut cursor = Cursor::new();
    cursor.previous();
    assert_eq!(cursor.index(), 0);
    for _ in 0..5 {
        cursor.next(2);
    }
    assert_eq!(cursor.index(), 1);
}

#[test]
fn home_and_end_jump_to_the_first_and_last_row() {
    let mut cursor = Cursor::new();
    cursor.last(50);
    assert_eq!(cursor.index(), 49);
    cursor.first();
    assert_eq!(cursor.index(), 0);
}

#[test]
fn paging_moves_the_cursor_by_one_viewport() {
    let mut cursor = Cursor::new();
    cursor.set_page_height(10);

    cursor.page_down(50);
    assert_eq!(cursor.index(), 10);
    cursor.page_down(50);
    assert_eq!(cursor.index(), 20);
    cursor.page_up();
    assert_eq!(cursor.index(), 10);
}

#[test]
fn paging_past_either_end_stops_on_the_last_row() {
    let mut cursor = Cursor::new();
    cursor.set_page_height(10);

    cursor.page_down(15);
    cursor.page_down(15);
    assert_eq!(cursor.index(), 14);
    cursor.page_up();
    cursor.page_up();
    assert_eq!(cursor.index(), 0);
}

/// Every move against an empty list has to land on zero rather than
/// underflowing, since `len - 1` is the natural way to write all of them.
#[test]
fn every_move_over_an_empty_list_stays_at_zero() {
    let mut cursor = Cursor::new();
    cursor.set_page_height(10);

    cursor.next(0);
    cursor.last(0);
    cursor.page_down(0);
    assert_eq!(cursor.index(), 0);
}

/// A search box narrowing the list under the cursor is the common case.
#[test]
fn clamping_pulls_the_cursor_into_a_shrunken_list() {
    let mut cursor = Cursor::new();
    cursor.last(5);
    assert_eq!(cursor.index(), 4);

    cursor.clamp(2);
    assert_eq!(cursor.index(), 1);
    cursor.clamp(0);
    assert_eq!(cursor.index(), 0);
}

/// A height of zero would leave `PageDown` moving nowhere on a terminal
/// too short to hold a row.
#[test]
fn a_page_is_never_shorter_than_one_row() {
    let mut cursor = Cursor::new();
    cursor.set_page_height(0);
    assert_eq!(cursor.page_height(), 1);

    cursor.page_down(10);
    assert_eq!(cursor.index(), 1);
}
/// Every list but Planning's has a cursor that can rest on any row, which
/// is the context and the tail both being the selection itself.
fn offset(current: usize, selected: usize, rows: usize, height: usize) -> usize {
    viewport_offset(current, at(selected), rows, height)
}

/// A selection with nothing unreachable either side of it.
fn at(selected: usize) -> Selection {
    Selection {
        context: selected,
        selected,
        tail: selected,
    }
}

/// A list that fits has nothing to scroll: every row is on screen whatever
/// the cursor does.
#[test]
fn a_list_shorter_than_the_viewport_never_scrolls() {
    assert_eq!(offset(0, 0, 4, 10), 0);
    assert_eq!(offset(0, 3, 4, 10), 0);
}

/// The complaint this rule was written for: the Planning screen's
/// transfers head the list, and reaching `Excess (Used)` twenty rows down
/// a thirty-row viewport must not take them off the top.
#[test]
fn the_view_holds_still_while_the_cursor_has_room_below_it() {
    for selected in 0..=26 {
        assert_eq!(
            offset(0, selected, 58, 30),
            0,
            "scrolled with the cursor on row {selected}"
        );
    }
}

/// Once the cursor is within the margin of the bottom, the list moves by
/// exactly what each further row costs.
#[test]
fn the_list_scrolls_by_one_row_once_the_cursor_reaches_the_margin() {
    assert_eq!(offset(0, 27, 58, 30), 1);
    assert_eq!(offset(1, 28, 58, 30), 2);
}

/// Coming back up, the view holds until the cursor reaches the margin at
/// the top -- so the context follows the direction of travel rather than
/// the cursor being pinned to one line of the screen.
#[test]
fn coming_back_up_the_view_holds_until_the_cursor_nears_the_top() {
    assert_eq!(offset(20, 25, 58, 30), 20);
    assert_eq!(offset(20, 23, 58, 30), 20);
    assert_eq!(offset(20, 22, 58, 30), 19);
}

/// A jump lands the cursor a screenful away, and the view has to follow it
/// in one step rather than a row at a time.
#[test]
fn a_jump_past_the_viewport_brings_the_cursor_back_into_it() {
    assert_eq!(offset(0, 57, 58, 30), 28);
    assert_eq!(offset(28, 0, 58, 30), 0);
}

/// The margin gives way at the ends: below the last row there is nothing
/// to keep in view, so the cursor reaches it rather than the list
/// scrolling past its end.
#[test]
fn the_offset_stops_with_the_last_row_on_screen() {
    assert_eq!(offset(1500, 1599, 1600, 10), 1590);
    assert_eq!(offset(1590, 1599, 1600, 10), 1590);
}

/// A viewport too short to hold the margin either side of the cursor still
/// has to show the row the cursor is on.
#[test]
fn a_viewport_shorter_than_the_margin_still_shows_the_cursor() {
    assert_eq!(offset(0, 7, 20, 1), 7);
    assert_eq!(offset(9, 3, 20, 2), 3);
}

/// A cursor that cannot reach the rows above it -- Planning's transfers,
/// which carry nothing to edit -- still has to bring them into view, or
/// the top of that screen is lost for the rest of the session.
#[test]
fn the_context_above_an_unreachable_row_comes_into_view_with_it() {
    let selection = Selection {
        context: 0,
        ..at(14)
    };
    assert_eq!(viewport_offset(28, selection, 58, 30), 0);
}

/// The mirror, and the case Planning reaches when the last of its
/// editable rows has computed lines under it: nothing the cursor can
/// stand on is below them, so a rule that only ever followed the cursor
/// would leave them off the bottom for good.
#[test]
fn the_tail_below_an_unreachable_row_comes_into_view_with_it() {
    let selection = Selection { tail: 57, ..at(53) };
    assert_eq!(viewport_offset(0, selection, 58, 30), 28);
}

/// The tail is the end of a run rather than a cursor about to move past
/// it, so it comes into view on the last line of the screen and asks for
/// no margin under itself.
#[test]
fn the_tail_keeps_no_margin_of_its_own() {
    let selection = Selection { tail: 45, ..at(38) };
    assert_eq!(viewport_offset(0, selection, 58, 30), 16);
}

/// It is context, not a second cursor: the row the cursor is on has to be
/// drawn, so a run too long for the viewport gives way rather than
/// scrolling the selection off the top.
#[test]
fn context_taller_than_the_viewport_gives_way_to_the_cursor() {
    let selection = Selection {
        context: 0,
        ..at(57)
    };
    assert_eq!(viewport_offset(40, selection, 58, 30), 28);
}

/// The height a draw reports is the page height *and* where the next draw
/// starts from, so both come back through one write.
#[test]
fn a_recorded_viewport_is_the_page_height_and_the_offset() {
    let mut cursor = Cursor::new();
    cursor.record_viewport(Viewport {
        height: 12,
        offset: 4,
    });
    assert_eq!(cursor.page_height(), 12);
    assert_eq!(cursor.offset(), 4);
}

/// A run below the cursor that no viewport could hold gives way: the row the
/// cursor is on is drawn, at the top.
#[test]
fn a_tail_taller_than_the_viewport_gives_way_to_the_cursor() {
    let selection = Selection {
        context: 10,
        selected: 10,
        tail: 50,
    };
    for current in [0, 10, 21, 28] {
        assert_eq!(viewport_offset(current, selection, 58, 30), 10);
    }
}
