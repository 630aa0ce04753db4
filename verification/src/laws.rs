//! What holds of the application as a whole, whatever is on screen.

use crate::app_view::{AppView, FooterView, Loaded, STATUS_TTL};
use crate::confirm::Confirm;
use crate::field::DateFieldView;
use crate::form_keys::arrow_step;
use crate::key::{KeyCode, KeyEvent, Modifiers};
use crate::modal::{Anchor, ModalView, Opening, Request};
use crate::said::{self, PieceView};
use crate::screen::Screen;
use crate::worksheet::{shared, SheetLine};
use crate::written::Written;
use vstd::prelude::*;
use vstd::string::*;

verus! {

/// What a key says never depends on what was said before it: the last message
/// is gone before the key is answered.
pub proof fn a_key_takes_the_last_message_away(
    app: AppView,
    one: Seq<PieceView>,
    other: Seq<PieceView>,
    key: KeyEvent,
    now: int,
)
    ensures
        app.said(one).keyed(key, now) == app.said(other).keyed(key, now),
{
}

/// A message under something open stays until a key takes it away, however
/// long that is: it is there to qualify a question not yet answered.
pub proof fn a_message_under_something_open_does_not_fade(
    app: AppView,
    key: KeyEvent,
    now: int,
    later: int,
)
    requires
        app.keyed(key, now).0.modal is Some,
    ensures
        app.keyed(key, now).0.expired(later) == app.keyed(key, now).0,
{
}

/// A message with nothing open holds the footer for its whole time, is gone
/// from then on, and only the tick that takes it away has anything to report.
pub proof fn a_message_fades_once(app: AppView, key: KeyEvent, now: int, later: int, after: int)
    requires
        0 <= now,
        now + STATUS_TTL <= u64::MAX,
        app.keyed(key, now).0.modal is None,
        app.keyed(key, now).0.status.len() > 0,
    ensures
        later < now + STATUS_TTL ==> app.keyed(key, now).0.expired(later) == app.keyed(key, now).0,
        now + STATUS_TTL <= later ==> {
            let faded = app.keyed(key, now).0.expired(later);
            &&& app.keyed(key, now).0.outlived(later)
            &&& faded.status.len() == 0
            &&& !faded.outlived(after)
        },
{
}

/// A key that said nothing starts no clock.
pub proof fn silence_never_fades(app: AppView, key: KeyEvent, now: int, later: int)
    requires
        app.keyed(key, now).0.status.len() == 0,
    ensures
        !app.keyed(key, now).0.outlived(later),
{
}

/// While the help panel is up no key reaches anything under it.
pub proof fn the_help_panel_swallows_every_key(app: AppView, key: KeyEvent)
    requires
        app.help is Some,
    ensures
        app.dispatched(key) == (
            AppView { help: app.help->0.pressed(key), ..app },
            Request::Nothing,
        ),
{
}

/// `F1` opens the panel anywhere, over whatever is open, and disturbs none of
/// it.
pub proof fn f1_opens_help_anywhere(app: AppView, modifiers: Modifiers)
    requires
        app.help is None,
    ensures
        ({
            let (after, request) = app.dispatched(KeyEvent { code: KeyCode::F(1), modifiers });
            &&& after.help matches Some(help) && help.topic == app.topic()
            &&& after == AppView { help: after.help, ..app }
            &&& request == Request::Nothing
        }),
{
}

/// A question mark asks for help wherever it is no character, and is typed
/// where it is one.
pub proof fn a_question_mark_asks_or_is_typed(app: AppView, modifiers: Modifiers)
    requires
        app.help is None,
    ensures
        app.dispatched(KeyEvent { code: KeyCode::Char('?'), modifiers }).0.help is Some
            == !app.topic().typed_into(),
{
    let key = KeyEvent { code: KeyCode::Char('?'), modifiers };
    if app.topic().typed_into() {
        if let Some(modal) = app.modal {
            a_modal_keeps_the_screen_under_it(app.taken(), modal, key);
        }
    }
}

/// A question is answered by `y` alone. Help may be asked for over it, and
/// every other key takes it away with nothing written.
pub proof fn only_y_answers_a_question(
    app: AppView,
    action: Confirm,
    label: Seq<PieceView>,
    code: KeyCode,
)
    requires
        app.help is None,
        app.modal == Some(ModalView::Confirm { action, label }),
    ensures
        ({
            let key = KeyEvent {
                code,
                modifiers: Modifiers { shift: false, control: false, alt: false },
            };
            let (after, request) = app.dispatched(key);
            if code == KeyCode::Char('y') {
                after.modal == app.modal && request == Request::Write(action)
            } else if code == KeyCode::Char('?') || code == KeyCode::F(1) {
                after.modal == app.modal && after.help is Some && request == Request::Nothing
            } else {
                &&& after.modal is None
                &&& after.status == said::words(action.refusal())
                &&& request == Request::Nothing
            }
        }),
{
}

/// A character held with `Ctrl` or `Alt` does nothing where there is no caret
/// to edit at.
pub proof fn a_modified_character_needs_a_caret(app: AppView, key: KeyEvent)
    requires
        app.help is None,
        app.drops(key),
        key.code != KeyCode::Char('?'),
    ensures
        app.dispatched(key) == (app, Request::Nothing),
{
}

/// What is open above the screen takes every key: none of them switches the
/// screen, quits, or closes the help panel there is not.
pub proof fn a_modal_keeps_the_screen_under_it(app: AppView, modal: ModalView, key: KeyEvent)
    ensures
        app.modal_pressed(modal, key).0.screen == app.screen,
        app.modal_pressed(modal, key).0.quit == app.quit,
        app.modal_pressed(modal, key).0.help == app.help,
{
    match modal {
        ModalView::Confirm { action, label } => {
            assert(app.modal_pressed(modal, key) == app.confirm_pressed(action, label, key));
        },
        ModalView::Form { purpose, form } => {
            assert(app.modal_pressed(modal, key) == app.form_modal_pressed(purpose, form, key));
        },
        ModalView::Value { target, form } => {
            assert(app.modal_pressed(modal, key) == app.value_pressed(target, form, key));
        },
        ModalView::Reconcile { account, form } => {
            assert(app.modal_pressed(modal, key) == app.reconcile_pressed(account, form, key));
        },
        ModalView::Worksheet(sheet) => {
            assert(app.modal_pressed(modal, key) == app.worksheet_pressed(sheet, key));
        },
        ModalView::Picker(picker) => {
            assert(app.modal_pressed(modal, key) == app.picker_pressed(picker, key));
        },
        ModalView::Destination(chooser) => {
            assert(app.modal_pressed(modal, key) == app.destination_pressed(chooser, key));
        },
        ModalView::Details(title, lines) => {
            assert(app.modal_pressed(modal, key) == app.details_pressed(title, lines, key));
        },
        ModalView::Transfers(confirm) => {
            assert(app.modal_pressed(modal, key) == app.transfers_pressed(confirm, key));
        },
        ModalView::History(history) => {
            assert(app.modal_pressed(modal, key) == app.history_pressed(history, key));
        },
    }
}

/// With a box open over the screen every key is the box's: a letter or a digit
/// is text, so none of them quits, switches the screen or asks for anything.
pub proof fn an_open_box_takes_every_character(app: AppView, c: char)
    requires
        app.help is None,
        app.modal is None,
        app.open_box() is Some,
    ensures
        ({
            let key = KeyEvent {
                code: KeyCode::Char(c),
                modifiers: Modifiers { shift: false, control: false, alt: false },
            };
            let (after, request) = app.dispatched(key);
            &&& after == app.box_pressed(key)
            &&& after.quit == app.quit
            &&& after.screen == app.screen
            &&& after.modal is None
            &&& request == Request::Nothing
        }),
{
}

/// A digit switches the screen and touches nothing else, from any screen with
/// nothing open over it.
pub proof fn a_digit_only_switches_the_screen(app: AppView, screen: Screen, c: char)
    requires
        app.help is None,
        app.modal is None,
        app.open_box() is None,
        Screen::reached_by(c) == Some(screen),
    ensures
        ({
            let key = KeyEvent {
                code: KeyCode::Char(c),
                modifiers: Modifiers { shift: false, control: false, alt: false },
            };
            app.dispatched(key).0 == AppView { screen, ..app }
        }),
{
}

/// The app-wide keys are drawn exactly where they are answered: on a screen
/// with nothing open over it, no panel above it and no message in the footer.
pub proof fn the_app_wide_keys_are_drawn_where_they_are_answered(app: AppView)
    ensures
        app.chrome() == (app.help is None && app.modal is None && app.open_box() is None
            && app.status.len() == 0),
{
    if let Some(modal) = app.modal {
        match modal {
            ModalView::History(history) => {
                assert(!history.topic().is_screen());
            },
            ModalView::Worksheet(sheet) => {
                assert(!sheet.topic().is_screen());
            },
            _ => {},
        }
    }
}

/// The credit ledger's footer leaves out `t`, which does nothing there: a
/// footer must not name a key its screen refuses.
pub proof fn the_credit_footer_leaves_out_the_transfer_it_refuses(app: AppView)
    requires
        app.help is None,
        app.modal is None,
        app.screen is Credit,
        app.valid(),
        app.open_box() is None,
    ensures
        ({
            let key = KeyEvent {
                code: KeyCode::Char('t'),
                modifiers: Modifiers { shift: false, control: false, alt: false },
            };
            app.dispatched(key) == (app, Request::Nothing)
        }),
        app.status.len() == 0 ==> (app.footer() matches FooterView::Keys {
            without,
            ..
        } && without == Some('t')),
{
}

/// Scrubbing one way and back the other lands on the date it started from.
pub proof fn a_scrub_is_undone_by_its_opposite(app: AppView, week: bool)
    requires
        app.adhoc.valid(),
        app.baseline.valid(),
        arrow_step(arrow(KeyCode::Right, week)).from(app.adhoc) is Some,
    ensures
        app.overview_pressed(arrow(KeyCode::Right, week)).0.overview_pressed(
            arrow(KeyCode::Left, week),
        ).0.adhoc == app.adhoc,
{
    crate::step::a_day_step_is_undone_by_its_opposite(
        app.adhoc,
        if week {
            7
        } else {
            1
        },
    );
}

/// An arrow, with `Shift` held for a week.
pub open spec fn arrow(code: KeyCode, week: bool) -> KeyEvent {
    KeyEvent { code, modifiers: Modifiers { shift: week, control: false, alt: false } }
}

/// Reading everything again moves the scrubbed date with its baseline: it
/// stays as far from the new one as it was from the old.
pub proof fn a_reload_keeps_the_drift(
    app: AppView,
    loaded: Loaded,
    anchor: Anchor,
    now: int,
)
    requires
        loaded.baseline@.valid(),
        loaded.baseline@.reaches(app.drift()),
    ensures
        app.reloaded(loaded, anchor, now).0.drift() == app.drift(),
        app.reloaded(loaded, anchor, now).0.baseline == loaded.baseline@,
{
    crate::date::every_number_is_a_day(loaded.baseline@.day_number() + app.drift());
}

/// `[`, `]` and clearing the filters are one control over a month both
/// ledgers share: wherever one of them asks for the rows of another month,
/// both ledgers are on it.
pub proof fn the_ledgers_share_their_month(app: AppView, key: KeyEvent)
    requires
        app.screen is Cash || app.screen is Credit,
        app.ledger_pressed(key).1 == Request::Reload(Anchor::Both),
    ensures
        app.ledger_pressed(key).0.cash.window == app.ledger_pressed(key).0.credit.window,
{
}

/// Only a row added, or a transfer, says which day the next row is entered
/// for. A row edited leaves it alone.
pub proof fn an_edit_leaves_the_entry_day(app: AppView, what: Written, now: int)
    requires
        what.entered() is None,
    ensures
        app.recorded(what, now).entry_day() == app.entry_day(),
{
}

/// The next row opens on the day the last one was added for.
pub proof fn the_next_row_opens_on_the_day_of_the_last(app: AppView, what: Written, now: int)
    requires
        what.entered() is Some,
    ensures
        app.recorded(what, now).entry_day() == what.entered()->0,
{
}

/// A refusal keeps what is open, with everything typed into it, and says why.
pub proof fn a_refusal_keeps_what_is_open(app: AppView, why: Seq<PieceView>, now: int)
    ensures
        app.said(why).timed(now).modal == app.modal,
        app.said(why).timed(now).popup == app.popup,
        app.said(why).timed(now).status == why,
{
}

/// A read that failed leaves no worksheet waiting, so that no later key can
/// bring back one whose figures are stale.
pub proof fn a_failed_read_leaves_no_worksheet_waiting(app: AppView, why: Seq<char>, now: int)
    ensures
        app.failed(why, now).queue.len() == 0,
        app.failed(why, now).next_request() == Request::Nothing,
{
}

/// Throwing a worksheet away asks for the next while one waits: whichever way
/// a sheet ends, the one behind it opens.
pub proof fn a_cancelled_sheet_opens_the_next(app: AppView)
    ensures
        app.sheet_cancelled().0.modal is None,
        app.sheet_cancelled().0.queue == app.queue,
        app.sheet_cancelled().1 == (if app.queue.len() > 0 {
            Request::Open(Opening::NextSheet)
        } else {
            Request::Nothing
        }),
{
}

/// A worksheet posted asks for the next once everything has been read again,
/// while one waits.
pub proof fn a_posted_sheet_opens_the_next(
    app: AppView,
    what: Written,
    loaded: Loaded,
    now: int,
    later: int,
)
    requires
        !(app.modal matches Some(ModalView::History(_))),
        loaded.baseline@.reaches(app.recorded(what, now).drift()),
        app.queue.len() > 0,
    ensures
        app.recorded(what, now).reloaded(loaded, Anchor::Keep, later).1 == Request::Open(
            Opening::NextSheet,
        ),
{
}

/// Worksheets open in the order their transfers were written, one at a time,
/// each dated as its transfer was, with the transfer as its pot and every
/// goal down for its share.
pub proof fn worksheets_open_in_their_order(app: AppView, lines: Seq<SheetLine>)
    requires
        app.queue.len() > 0,
    ensures
        ({
            let after = app.next_opened(lines);
            &&& after.queue == app.queue.skip(1)
            &&& after.modal matches Some(ModalView::Worksheet(sheet)) && sheet.container
                == app.queue[0].container && sheet.date == DateFieldView::on(
                app.today,
                app.queue[0].date,
            ) && sheet.amount == app.queue[0].pot && sheet.lines.rows == shared(
                lines,
                app.queue[0].shares,
            )
        }),
{
    assert(app.queue.drop_first() =~= app.queue.skip(1));
}

/// A write made from the history goes back to its list; any other closes what
/// was open.
pub proof fn a_write_puts_away_what_was_open(app: AppView, status: Seq<PieceView>, now: int)
    ensures
        match app.modal {
            Some(ModalView::History(history)) => {
                app.wrote(status, now).modal matches Some(ModalView::History(after)) && after.mode
                    is List && after.rows == history.rows
            },
            _ => app.wrote(status, now).modal is None,
        },
        app.wrote(status, now).status == status,
{
}

/// Entering the funds raises the prompt for a date of birth exactly where
/// none is on record.
pub proof fn entering_the_funds_asks_for_a_missing_birth_date(app: AppView)
    requires
        app.help is None,
        app.modal is None,
        app.open_box() is None,
    ensures
        ({
            let key = KeyEvent {
                code: KeyCode::Char('6'),
                modifiers: Modifiers { shift: false, control: false, alt: false },
            };
            let (after, request) = app.dispatched(key);
            &&& after.screen is Funds
            &&& request == (if app.funds.needs_birth_date {
                Request::Open(Opening::BirthDate)
            } else {
                Request::Nothing
            })
        }),
{
}

} // verus!
