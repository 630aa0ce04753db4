//! What each key of each screen asks for, of the row under the cursor and of
//! nothing else.

use crate::app_view::{deadline, drift_words, AppView, FooterView, Loaded};
use crate::confirm::Confirm;
use crate::cursor::{CursorView, Viewport};
use crate::date::DateView;
use crate::destination::{Choice, ChooserView};
use crate::form::FormView;
use crate::funds::FundRow;
use crate::history::{HistoryRow, HistoryView, ModeView};
use crate::ids::{AccountId, GoalId};
use crate::key::{KeyCode, KeyEvent, Modifiers};
use crate::ledger::{reconciled, Kind, LedgerView};
use crate::modal::{Anchor, ModalView, Opening, Purpose, Request};
use crate::money::Cents;
use crate::payday::TransfersView;
use crate::picker::PickerView;
use crate::planning::{Editable, Plan, Target};
use crate::said;
use crate::screen::{Move, Screen};
use crate::search::{ListingView, Sought};
use crate::value_form::ValueFormView;
use crate::worksheet::{SheetOp, SheetView};
use vstd::prelude::*;
use vstd::string::*;

verus! {

/// A key with nothing held.
pub open spec fn press(code: KeyCode) -> KeyEvent {
    KeyEvent { code, modifiers: Modifiers { shift: false, control: false, alt: false } }
}

/// A character with nothing held.
pub open spec fn letter(c: char) -> KeyEvent {
    press(KeyCode::Char(c))
}

/// A screen with nothing open over it.
pub open spec fn idle(app: AppView) -> bool {
    app.valid() && app.help is None && app.modal is None && app.open_box() is None
}

/// The row under the cursor of a list.
pub open spec fn under<T: Sought>(list: ListingView<T>) -> T {
    list.rows[list.visible[list.cursor.index]]
}

/// A row is chosen exactly where the cursor is on one, and it is that row.
pub proof fn the_row_chosen_is_the_one_under_the_cursor<T: Sought>(list: ListingView<T>)
    requires
        list.settled(),
    ensures
        list.chosen() == (if list.visible.len() > 0 {
            Some(under(list))
        } else {
            None
        }),
{
}

/// On the savings a payday, a posting of interest and a new goal act on the
/// container the screen is narrowed to, and under All on the first listed.
pub proof fn the_savings_act_on_the_narrowed_container(app: AppView, id: AccountId)
    requires
        idle(app),
        app.screen is Savings,
        match app.savings.containers.at {
            Some(at) => id == AccountId(app.savings.containers.choices[at]),
            None => app.savings.excess.len() > 0 && id == app.savings.excess[0].0,
        },
    ensures
        app.dispatched(letter('A')) == (app, Request::Open(Opening::Payday(id))),
        app.dispatched(letter('i')) == (app, Request::Open(Opening::Interest(id))),
        app.dispatched(letter('n')) == (app, Request::Open(Opening::NewGoal(id))),
{
}

/// So does a reseed from the catalog, over the month the catalog is narrowed
/// to.
pub proof fn a_reseed_acts_on_the_narrowed_container(app: AppView, id: AccountId)
    requires
        idle(app),
        app.screen is RecurringGoals,
        match app.savings.containers.at {
            Some(at) => id == AccountId(app.savings.containers.choices[at]),
            None => app.savings.excess.len() > 0 && id == app.savings.excess[0].0,
        },
    ensures
        app.dispatched(letter('s')) == (
            app,
            Request::Open(
                Opening::Seed { container: id, month: app.recurring_goals.list.filter.month },
            ),
        ),
{
}

/// Where no container holds goals, the keys that act on one say so and ask
/// for nothing.
pub proof fn without_a_container_nothing_is_asked_for(app: AppView, c: char)
    requires
        idle(app),
        app.savings.containers.at is None,
        app.savings.excess.len() == 0,
        app.screen is Savings && (c == 'A' || c == 'i' || c == 'n') || app.screen is RecurringGoals
            && c == 's',
    ensures
        app.dispatched(letter(c)) == (
            AppView { status: said::words("no container holds goals yet"@), ..app },
            Request::Nothing,
        ),
{
}

/// `Tab` narrows the savings to the next container listed and shows its goals
/// alone, `Shift-Tab` to the one before, and the brackets do the same over the
/// months.
pub proof fn the_savings_are_narrowed_one_at_a_time(app: AppView)
    requires
        idle(app),
        app.screen is Savings,
    ensures
        ({
            let after = app.dispatched(press(KeyCode::Tab)).0.savings;
            &&& after.containers == app.savings.containers.forward()
            &&& after.months == app.savings.months
            &&& after.list.filter.container == after.containers.chosen()
            &&& after.list.filter.month == after.months.chosen()
        }),
        ({
            let after = app.dispatched(press(KeyCode::BackTab)).0.savings;
            &&& after.containers == app.savings.containers.back()
            &&& after.months == app.savings.months
            &&& after.list.filter.container == after.containers.chosen()
        }),
        ({
            let after = app.dispatched(letter(']')).0.savings;
            &&& after.months == app.savings.months.forward()
            &&& after.containers == app.savings.containers
            &&& after.list.filter.month == after.months.chosen()
        }),
        ({
            let after = app.dispatched(letter('[')).0.savings;
            &&& after.months == app.savings.months.back()
            &&& after.containers == app.savings.containers
            &&& after.list.filter.month == after.months.chosen()
        }),
{
}

/// Every other key of the savings acts on the goal under the cursor, in the
/// container that goal is in.
pub proof fn the_savings_keys_act_on_the_goal_under_the_cursor(app: AppView)
    requires
        idle(app),
        app.screen is Savings,
        app.savings.list.visible.len() > 0,
    ensures
        ({
            let row = under(app.savings.list);
            let (goal, container) = (row.goal, row.container);
            &&& app.dispatched(letter('a')) == (app, Request::Open(Opening::Allocation(goal)))
            &&& app.dispatched(letter('t')) == (
                app,
                Request::Open(Opening::GoalTransfer { goal, container }),
            )
            &&& app.dispatched(letter('e')) == (app, Request::Open(Opening::GoalEdit(goal)))
            &&& app.dispatched(letter('c')) == (
                app,
                Request::Open(Opening::CloseOut { goal, container }),
            )
            &&& app.dispatched(letter('f')) == (
                app,
                Request::Favorite { goal, favorite: !row.favorite },
            )
            &&& app.dispatched(press(KeyCode::Enter)) == (
                app,
                Request::Open(Opening::History { goal, container }),
            )
            &&& app.dispatched(letter('U')) == (app, Request::Open(Opening::Undo))
            &&& row.date is None && app.savings.list.search.line.text.len() == 0 ==> {
                &&& app.dispatched(letter('K')) == (
                    app,
                    Request::Reorder { goal, container, way: Move::Up },
                )
                &&& app.dispatched(letter('J')) == (
                    app,
                    Request::Reorder { goal, container, way: Move::Down },
                )
            }
            &&& row.date is Some || app.savings.list.search.line.text.len() > 0 ==> {
                &&& app.dispatched(letter('K')).1 == Request::Nothing
                &&& app.dispatched(letter('J')).1 == Request::Nothing
                &&& app.dispatched(letter('K')).0.status.len() > 0
            }
        }),
{
    reveal_strlit("Clear the search before reordering goals");
    reveal_strlit(" has a goal date, so its place comes from that date");
}

/// On either ledger a new row is of that ledger's kind and on the account it
/// is narrowed to; editing and deleting act on the row under the cursor; a
/// transfer is asked for on the cash ledger alone.
pub proof fn the_ledger_keys_act_on_their_ledger(app: AppView, kind: Kind)
    requires
        idle(app),
        app.screen is Cash && kind is Cash || app.screen is Credit && kind is Credit,
    ensures
        ({
            let ledger = if kind is Cash {
                app.cash
            } else {
                app.credit
            };
            let account = match ledger.dial.at {
                Some(at) => Some(AccountId(ledger.dial.choices[at])),
                None => None,
            };
            &&& app.dispatched(letter('a')) == (
                app,
                Request::Open(Opening::Txn { kind, account }),
            )
            &&& app.dispatched(letter('p')) == (app, Request::Open(Opening::Payment))
            &&& kind is Cash ==> app.dispatched(letter('t')) == (
                app,
                Request::Open(Opening::Transfer),
            )
            &&& kind is Credit ==> app.dispatched(letter('t')) == (app, Request::Nothing)
            &&& account is None ==> app.dispatched(letter('r')).0.modal is None
            &&& account matches Some(id) ==> (app.dispatched(letter('r')).0.modal matches Some(
                ModalView::Reconcile { account: of, .. },
            ) && of == id)
            &&& ledger.list.visible.len() > 0 ==> {
                let row = under(ledger.list);
                &&& app.dispatched(letter('e')) == (
                    app,
                    Request::Open(Opening::TxnEdit(row.id)),
                )
                &&& app.dispatched(letter('d')) == (
                    AppView {
                        modal: Some(
                            ModalView::Confirm {
                                action: Confirm::DeleteTxn(row.id),
                                label: row.summary(),
                            },
                        ),
                        ..app
                    },
                    Request::Nothing,
                )
            }
            &&& ledger.list.visible.len() == 0 ==> {
                let said = AppView { status: said::words("nothing selected"@), ..app };
                &&& app.dispatched(letter('e')) == (said, Request::Nothing)
                &&& app.dispatched(letter('d')) == (said, Request::Nothing)
            }
        }),
{
}

/// `Tab` narrows the ledger on screen to its next account and leaves the other
/// ledger alone; the rows are read again with the cursor back on today.
pub proof fn a_ledger_is_narrowed_on_its_own(app: AppView)
    requires
        idle(app),
        app.screen is Cash,
    ensures
        ({
            let (after, request) = app.dispatched(press(KeyCode::Tab));
            &&& after.cash.dial == app.cash.dial.forward()
            &&& after.cash.window == app.cash.window
            &&& after.credit == app.credit
            &&& request == Request::Reload(Anchor::Active)
        }),
        ({
            let (after, request) = app.dispatched(press(KeyCode::BackTab));
            &&& after.cash.dial == app.cash.dial.back()
            &&& after.credit == app.credit
            &&& request == Request::Reload(Anchor::Active)
        }),
{
}

/// The same of the credit ledger.
pub proof fn the_credit_ledger_is_narrowed_on_its_own(app: AppView)
    requires
        idle(app),
        app.screen is Credit,
    ensures
        ({
            let (after, request) = app.dispatched(press(KeyCode::Tab));
            &&& after.credit.dial == app.credit.dial.forward()
            &&& after.cash == app.cash
            &&& request == Request::Reload(Anchor::Active)
        }),
        ({
            let (after, request) = app.dispatched(press(KeyCode::BackTab));
            &&& after.credit.dial == app.credit.dial.back()
            &&& after.cash == app.cash
            &&& request == Request::Reload(Anchor::Active)
        }),
{
}

/// The brackets step both ledgers a month back and a month on together, no
/// further than there are rows, and change nothing else of either.
pub proof fn the_brackets_step_both_ledgers_a_month(app: AppView, first: i64, last: i64)
    requires
        idle(app),
        app.screen is Cash || app.screen is Credit,
        app.cash.window == app.credit.window,
        app.cash.range == Some((first, last)),
        app.credit.range == Some((first, last)),
    ensures
        ({
            let (after, request) = app.dispatched(letter(']'));
            let window = if app.cash.window < last {
                app.cash.window + 1
            } else {
                app.cash.window
            };
            &&& after.cash.window == window
            &&& after.credit.window == window
            &&& after.cash.dial == app.cash.dial
            &&& after.credit.dial == app.credit.dial
            &&& request == Request::Reload(Anchor::Both)
        }),
        ({
            let (after, request) = app.dispatched(letter('['));
            let window = if app.cash.window > first {
                app.cash.window - 1
            } else {
                app.cash.window
            };
            &&& after.cash.window == window
            &&& after.credit.window == window
            &&& after.cash.dial == app.cash.dial
            &&& after.credit.dial == app.credit.dial
            &&& request == Request::Reload(Anchor::Both)
        }),
{
}

/// On the planning `e` edits what the row under the cursor carries: a constant
/// is typed, a line's destination is chosen. `E` and `d` are a bill's alone.
pub proof fn the_planning_keys_act_on_the_row_under_the_cursor(app: AppView)
    requires
        idle(app),
        app.screen is Planning,
        app.planning.list.visible.len() > 0,
    ensures
        ({
            let row = under(app.planning.list);
            &&& row.editable matches Editable::Destination(line) ==> app.dispatched(letter('e'))
                == (app, Request::Open(Opening::Destination(line)))
            &&& row.editable matches Editable::Constant(target) ==> (app.dispatched(
                letter('e'),
            ).0.modal matches Some(ModalView::Value { target: of, .. }) && of == target)
            &&& row.editable matches Editable::Constant(Target::Bill(id)) ==> {
                &&& app.dispatched(letter('E')) == (app, Request::Open(Opening::Bill(Some(id))))
                &&& app.dispatched(letter('d')) == (app, Request::Open(Opening::BillDelete(id)))
            }
            &&& !(row.editable matches Editable::Constant(Target::Bill(_))) ==> {
                &&& app.dispatched(letter('E')).1 == Request::Nothing
                &&& app.dispatched(letter('d')).1 == Request::Nothing
                &&& app.dispatched(letter('d')).0.modal is None
            }
        }),
        app.dispatched(letter('a')) == (app, Request::Open(Opening::Bill(None))),
        app.dispatched(letter('t')) == (app, Request::Open(Opening::Transfers)),
{
}

/// A plan that computes is pinned at the whole dollars left over; a pin is
/// taken away exactly where there is one.
pub proof fn a_pin_is_set_and_taken_away(app: AppView)
    requires
        idle(app),
        app.screen is Planning,
    ensures
        app.planning.message is None ==> match app.dispatched(letter('p')).1 {
            Request::Pin(cents) => cents.0 % 100 == 0 && cents.0 <= app.planning.excess.0
                < cents.0 + 100,
            Request::Nothing => app.planning.excess.0 < i64::MIN + 100,
            _ => false,
        },
        app.planning.message is Some ==> app.dispatched(letter('p')).1 == Request::Nothing,
        app.planning.pinned ==> app.dispatched(letter('P')).1 == Request::Unpin,
        !app.planning.pinned ==> app.dispatched(letter('P')).1 == Request::Nothing,
{
}

/// On the funds a new holding opens on the account the screen is narrowed to;
/// editing, deleting and refreshing act on the holding under the cursor.
pub proof fn the_funds_keys_act_on_the_holding_under_the_cursor(app: AppView)
    requires
        idle(app),
        app.screen is Funds,
        app.funds.list.visible.len() > 0,
    ensures
        ({
            let row: FundRow = under(app.funds.list);
            let account = match app.funds.dial.at {
                Some(at) => Some(AccountId(app.funds.dial.choices[at])),
                None => None,
            };
            &&& app.dispatched(letter('a')) == (
                app,
                Request::Open(Opening::Holding { editing: None, account }),
            )
            &&& app.dispatched(letter('e')) == (
                app,
                Request::Open(Opening::Holding { editing: Some(row.id), account }),
            )
            &&& app.dispatched(letter('d')) == (
                AppView {
                    modal: Some(
                        ModalView::Confirm {
                            action: Confirm::DeleteHolding(row.id),
                            label: row.summary(),
                        },
                    ),
                    ..app
                },
                Request::Nothing,
            )
            &&& app.dispatched(letter('G')) == (app, Request::Tickers)
            &&& app.contact ==> app.dispatched(letter('g')).0.deferred == Some(seq![row.ticker])
            &&& !app.contact ==> app.dispatched(letter('g')).0.deferred == app.deferred
            &&& app.dispatched(letter('g')).1 == Request::Nothing
        }),
{
}

/// `Tab` narrows the holdings to one account's, and shows those alone.
pub proof fn the_funds_are_narrowed_one_account_at_a_time(app: AppView)
    requires
        idle(app),
        app.screen is Funds,
    ensures
        ({
            let after = app.dispatched(press(KeyCode::Tab)).0.funds;
            &&& after.dial == app.funds.dial.forward()
            &&& after.list.filter.account == after.dial.chosen()
        }),
        ({
            let after = app.dispatched(press(KeyCode::BackTab)).0.funds;
            &&& after.dial == app.funds.dial.back()
            &&& after.list.filter.account == after.dial.chosen()
        }),
{
}

/// Each key of the recurring transactions acts on the rule under the cursor,
/// but for adding one and regenerating them all.
pub proof fn the_rule_keys_act_on_the_rule_under_the_cursor(app: AppView)
    requires
        idle(app),
        app.screen is RecurringTxns,
        app.recurring_txns.visible.len() > 0,
    ensures
        ({
            let row = under(app.recurring_txns);
            &&& app.dispatched(letter('a')) == (app, Request::Open(Opening::RecurringTxn(None)))
            &&& app.dispatched(letter('e')) == (
                app,
                Request::Open(Opening::RecurringTxn(Some(row.id))),
            )
            &&& app.dispatched(letter('g')) == (app, Request::Regenerate(row.id))
            &&& app.dispatched(letter('G')) == (app, Request::RegenerateEvery)
            &&& app.dispatched(letter('x')) == (app, Request::Extend(row.id))
            &&& app.dispatched(letter('P')) == (app, Request::MakePaycheck(row.id))
            &&& app.dispatched(letter('d')) == (
                AppView {
                    modal: Some(
                        ModalView::Confirm {
                            action: Confirm::DeleteRecurringTxn(row.id),
                            label: row.release(),
                        },
                    ),
                    ..app
                },
                Request::Nothing,
            )
        }),
{
}

/// Each key of the catalog acts on the entry under the cursor, and of the
/// accounts on the account under it.
pub proof fn the_catalog_and_account_keys_act_on_the_row_under_the_cursor(app: AppView)
    requires
        idle(app),
    ensures
        app.screen is RecurringGoals ==> app.dispatched(letter('a')) == (
            app,
            Request::Open(Opening::RecurringGoal(None)),
        ),
        app.screen is RecurringGoals && app.recurring_goals.list.visible.len() > 0 ==> {
            let row = under(app.recurring_goals.list);
            &&& app.dispatched(letter('e')) == (
                app,
                Request::Open(Opening::RecurringGoal(Some(row.id))),
            )
            &&& app.dispatched(letter('d')) == (
                app,
                Request::Open(Opening::RecurringGoalDelete(row.id)),
            )
        },
        app.screen is Accounts ==> app.dispatched(letter('a')) == (
            app,
            Request::Open(Opening::Account(None)),
        ),
        app.screen is Accounts && app.accounts.visible.len() > 0 ==> app.dispatched(letter('e'))
            == (
            app,
            Request::Open(Opening::Account(Some(under(app.accounts).record.account.id))),
        ),
{
}

/// A key that acts on a row says that there is none where there is none, and
/// asks for nothing.
pub proof fn a_row_key_says_that_nothing_is_selected(app: AppView, c: char)
    requires
        idle(app),
        match app.screen {
            Screen::Savings => app.savings.list.visible.len() == 0 && (c == 'a' || c == 't' || c
                == 'e' || c == 'c' || c == 'f' || c == 'K' || c == 'J'),
            Screen::Planning => app.planning.list.visible.len() == 0 && c == 'e',
            Screen::Funds => app.funds.list.visible.len() == 0 && (c == 'e' || c == 'd' || c
                == 'g'),
            Screen::RecurringTxns => app.recurring_txns.visible.len() == 0 && (c == 'e' || c == 'd'
                || c == 'g' || c == 'x' || c == 'P'),
            Screen::RecurringGoals => app.recurring_goals.list.visible.len() == 0 && (c == 'e' || c
                == 'd'),
            Screen::Accounts => app.accounts.visible.len() == 0 && c == 'e',
            _ => false,
        },
    ensures
        app.dispatched(letter(c)) == (
            AppView { status: said::words("nothing selected"@), ..app },
            Request::Nothing,
        ),
{
}

/// `q` quits, and each digit reaches the screen it numbers.
pub proof fn the_digits_number_the_screens(app: AppView)
    requires
        idle(app),
    ensures
        app.dispatched(letter('q')) == (AppView { quit: true, ..app }, Request::Nothing),
        app.dispatched(letter('1')).0 == (AppView { screen: Screen::Overview, ..app }),
        app.dispatched(letter('2')).0 == (AppView { screen: Screen::Cash, ..app }),
        app.dispatched(letter('3')).0 == (AppView { screen: Screen::Credit, ..app }),
        app.dispatched(letter('4')).0 == (AppView { screen: Screen::Savings, ..app }),
        app.dispatched(letter('5')).0 == (AppView { screen: Screen::Planning, ..app }),
        app.dispatched(letter('6')).0 == (AppView { screen: Screen::Funds, ..app }),
        app.dispatched(letter('7')).0 == (AppView { screen: Screen::RecurringGoals, ..app }),
        app.dispatched(letter('8')).0 == (AppView { screen: Screen::RecurringTxns, ..app }),
        app.dispatched(letter('9')).0 == (AppView { screen: Screen::Accounts, ..app }),
{
}

/// On every list the six keys move the cursor of that list alone: a row, a
/// page, or to an end.
pub proof fn the_six_keys_move_the_list_on_screen(app: AppView, code: KeyCode)
    requires
        idle(app),
        !(app.screen is Overview),
        code is Up || code is Down || code is Home || code is End || code is PageUp
            || code is PageDown,
    ensures
        ({
            let (after, request) = app.dispatched(press(code));
            let same = AppView {
                cash: after.cash,
                credit: after.credit,
                savings: after.savings,
                planning: after.planning,
                funds: after.funds,
                recurring_txns: after.recurring_txns,
                recurring_goals: after.recurring_goals,
                accounts: after.accounts,
                ..app
            };
            &&& request == Request::Nothing
            &&& after == same
            &&& (if app.screen is Cash {
                after.cash == app.cash.with_list(moved(app.cash.list, code))
            } else {
                after.cash == app.cash
            })
            &&& (if app.screen is Credit {
                after.credit == app.credit.with_list(moved(app.credit.list, code))
            } else {
                after.credit == app.credit
            })
            &&& (if app.screen is Savings {
                after.savings == app.savings.with_list(moved(app.savings.list, code))
            } else {
                after.savings == app.savings
            })
            &&& (if app.screen is Planning {
                after.planning == app.planning.with_list(moved(app.planning.list, code))
            } else {
                after.planning == app.planning
            })
            &&& (if app.screen is Funds {
                after.funds == app.funds.with_list(moved(app.funds.list, code))
            } else {
                after.funds == app.funds
            })
            &&& (if app.screen is RecurringTxns {
                after.recurring_txns == moved(app.recurring_txns, code)
            } else {
                after.recurring_txns == app.recurring_txns
            })
            &&& (if app.screen is RecurringGoals {
                after.recurring_goals == app.recurring_goals.with_list(
                    moved(app.recurring_goals.list, code),
                )
            } else {
                after.recurring_goals == app.recurring_goals
            })
            &&& (if app.screen is Accounts {
                after.accounts == moved(app.accounts, code)
            } else {
                after.accounts == app.accounts
            })
        }),
{
}

/// A list with its cursor moved: `Up` and `Down` by a row, the page keys by
/// what the last draw fitted, `Home` and `End` to the ends, and never off the
/// list.
pub open spec fn moved<T: Sought>(list: ListingView<T>, code: KeyCode) -> ListingView<T> {
    let rows = list.visible.len() as int;
    let at = list.cursor.index;
    let page = list.cursor.page_height;
    let to = match code {
        KeyCode::Up => at - 1,
        KeyCode::Down => at + 1,
        KeyCode::PageUp => at - page,
        KeyCode::PageDown => at + page,
        KeyCode::Home => 0,
        _ => rows - 1,
    };
    let index = if to >= rows {
        if rows > 0 {
            rows - 1
        } else {
            0
        }
    } else if to < 0 {
        0
    } else {
        to
    };
    ListingView { cursor: CursorView { index, ..list.cursor }, ..list }
}

/// Reading everything again puts on every screen what was read for it, under
/// the filters and the needles that were there.
pub proof fn a_reload_shows_what_was_read(
    app: AppView,
    loaded: Loaded,
    anchor: Anchor,
    now: int,
)
    requires
        loaded.baseline@.reaches(app.drift()),
    ensures
        ({
            let after = app.reloaded(loaded, anchor, now).0;
            &&& after.cash.list.rows == loaded.cash.rows@
            &&& after.cash.accounts == loaded.cash.accounts@
            &&& after.cash.total == loaded.cash.total
            &&& after.cash.range == loaded.range
            &&& after.cash.window == app.cash.window
            &&& after.cash.targets == app.cash.targets
            &&& after.cash.list.search == app.cash.list.search
            &&& after.credit.list.rows == loaded.credit.rows@
            &&& after.credit.accounts == loaded.credit.accounts@
            &&& after.credit.total == loaded.credit.total
            &&& after.credit.range == loaded.range
            &&& after.credit.window == app.credit.window
            &&& after.credit.targets == app.credit.targets
            &&& after.credit.list.search == app.credit.list.search
            &&& after.savings.list.rows == loaded.goals@
            &&& after.savings.excess == loaded.excess@
            &&& after.savings.accounts == loaded.accounts@
            &&& after.savings.months.choices == loaded.months@
            &&& after.savings.list.search == app.savings.list.search
            &&& after.funds.list.rows == loaded.holdings@
            &&& after.funds.accounts == loaded.fund_accounts@
            &&& after.funds.targets == loaded.targets@
            &&& after.funds.needs_birth_date == loaded.needs_birth_date
            &&& after.recurring_txns.rows == loaded.recurring_txns@
            &&& after.recurring_goals.list.rows == loaded.recurring_goals@
            &&& after.recurring_goals.list.filter == app.recurring_goals.list.filter
            &&& after.accounts.rows == loaded.account_rows@
            &&& loaded.plan matches Ok(plan) ==> {
                &&& after.planning.list.rows == plan.rows@
                &&& after.planning.message is None
                &&& after.planning.pinned == plan.pinned
                &&& after.planning.excess == plan.excess
                &&& after.planning.detail == plan.detail@
                &&& after.planning.asked == plan.asked
            }
            &&& loaded.plan matches Err(why) ==> {
                &&& after.planning.message == Some(why@)
                &&& after.planning.pinned == app.planning.pinned
                &&& after.planning.list == app.planning.list
            }
            &&& after.screen == app.screen
            &&& after.modal == app.modal
            &&& after.entry_date == app.entry_date
            &&& after.status == app.status
            &&& after.queue == app.queue
        }),
{
}

/// The containers, the accounts and the months a screen is narrowed by are
/// those that were read, in their order, and a choice that is still among them
/// is kept.
pub proof fn a_reload_keeps_what_is_still_there(app: AppView, loaded: Loaded, anchor: Anchor, now: int)
    requires
        loaded.baseline@.reaches(app.drift()),
    ensures
        ({
            let after = app.reloaded(loaded, anchor, now).0;
            let containers = Seq::new(loaded.excess@.len(), |i: int| loaded.excess@[i].0.0);
            let cash = Seq::new(loaded.cash.accounts@.len(), |i: int| loaded.cash.accounts@[i].id.0);
            let credit = Seq::new(
                loaded.credit.accounts@.len(),
                |i: int| loaded.credit.accounts@[i].id.0,
            );
            let funds = Seq::new(
                loaded.fund_accounts@.len(),
                |i: int| loaded.fund_accounts@[i].id.0,
            );
            &&& after.savings.containers.choices == containers
            &&& after.cash.dial.choices == cash
            &&& after.credit.dial.choices == credit
            &&& after.funds.dial.choices == funds
            &&& after.savings.list.filter.container == after.savings.containers.chosen()
            &&& after.savings.list.filter.month == after.savings.months.chosen()
            &&& after.funds.list.filter.account == after.funds.dial.chosen()
            &&& app.savings.containers.chosen() matches Some(id) ==> containers.contains(id)
                ==> after.savings.containers.chosen() == Some(id)
            &&& app.cash.dial.chosen() matches Some(id) ==> cash.contains(id)
                ==> after.cash.dial.chosen() == Some(id)
            &&& app.credit.dial.chosen() matches Some(id) ==> credit.contains(id)
                ==> after.credit.dial.chosen() == Some(id)
            &&& app.funds.dial.chosen() matches Some(id) ==> funds.contains(id)
                ==> after.funds.dial.chosen() == Some(id)
        }),
{
    let after = app.reloaded(loaded, anchor, now).0;
    assert(after.savings.containers.choices =~= Seq::new(
        loaded.excess@.len(),
        |i: int| loaded.excess@[i].0.0,
    ));
    assert(after.cash.dial.choices =~= Seq::new(
        loaded.cash.accounts@.len(),
        |i: int| loaded.cash.accounts@[i].id.0,
    ));
    assert(after.credit.dial.choices =~= Seq::new(
        loaded.credit.accounts@.len(),
        |i: int| loaded.credit.accounts@[i].id.0,
    ));
    assert(after.funds.dial.choices =~= Seq::new(
        loaded.fund_accounts@.len(),
        |i: int| loaded.fund_accounts@[i].id.0,
    ));
    if let Some(id) = app.savings.containers.chosen() {
        after.savings.containers.choices.index_of_first_ensures(id);
    }
    if let Some(id) = app.cash.dial.chosen() {
        after.cash.dial.choices.index_of_first_ensures(id);
    }
    if let Some(id) = app.credit.dial.chosen() {
        after.credit.dial.choices.index_of_first_ensures(id);
    }
    if let Some(id) = app.funds.dial.chosen() {
        after.funds.dial.choices.index_of_first_ensures(id);
    }
}

/// On the list a line is pointed from, `Enter` points a line that holds a goal
/// at the goal under the cursor, or at none on the row that clears it, and
/// leaves the list open for the write; a line that holds no goal is refused.
pub proof fn a_line_is_pointed_at_the_goal_under_the_cursor(app: AppView, chooser: ChooserView)
    requires
        app.valid(),
        app.help is None,
        app.modal == Some(ModalView::Destination(chooser)),
        !chooser.list.search.open,
        chooser.list.visible.len() > 0,
    ensures
        ({
            let (after, request) = app.dispatched(press(KeyCode::Enter));
            let line = chooser.line;
            &&& after.modal == app.modal
            &&& (line is Bills || line is CurrentHousing || line is Roth || line is EmergencyFund
                || line is MomAndDad || line is FutureHousing ==> request == Request::Point(
                line,
                match under(chooser.list) {
                    Choice::Unset => None,
                    Choice::Goal { id, .. } => Some(id),
                },
            ))
            &&& (line is Retirement || line is Investment || line is Goals ==> request
                == Request::Nothing && after.status == said::words(
                line.word() + " holds no goal to point"@,
            ))
        }),
{
    crate::plan_line::each_line_lands_where_its_money_goes(chooser.line);
}

/// What a line was pointed at is what is said of it, and what is written.
pub proof fn what_is_pointed_is_what_was_chosen(app: AppView, chooser: ChooserView)
    requires
        app.valid(),
        app.modal == Some(ModalView::Destination(chooser)),
        chooser.list.visible.len() > 0,
    ensures
        app.pointing() matches Some(pointed) && pointed.0 == (match under(chooser.list) {
            Choice::Unset => None,
            Choice::Goal { id, .. } => Some(id),
        }),
{
}

/// On the list a line is pointed from, a slash opens the box, `Esc` gives up a
/// needle and then the list, and the six keys move over it.
pub proof fn the_destination_list_answers_its_keys(app: AppView, chooser: ChooserView, code: KeyCode)
    requires
        app.valid(),
        app.help is None,
        app.modal == Some(ModalView::Destination(chooser)),
        !chooser.list.search.open,
    ensures
        app.dispatched(letter('/')).0.modal matches Some(ModalView::Destination(after))
            && after.list.search.open && after.line == chooser.line,
        app.dispatched(letter('/')).1 == Request::Nothing,
        chooser.list.search.needle().len() == 0 ==> app.dispatched(press(KeyCode::Esc)).0.modal
            is None,
        chooser.list.search.needle().len() > 0 ==> (app.dispatched(
            press(KeyCode::Esc),
        ).0.modal matches Some(ModalView::Destination(after)) && after.list
            == chooser.list.needle_escaped() && after.line == chooser.line),
        code is Up || code is Down || code is Home || code is End || code is PageUp
            || code is PageDown ==> app.dispatched(press(code)).0.modal == Some(
            ModalView::Destination(
                ChooserView { list: moved(chooser.list, code), ..chooser },
            ),
        ),
{
}

/// A form open over the screen is written by `Enter`, discarded by `Esc`, and
/// typed into by every other key; what it is for never changes.
pub proof fn a_form_is_written_or_discarded(app: AppView, purpose: Purpose, form: FormView)
    requires
        app.help is None,
        app.modal == Some(ModalView::Form { purpose, form }),
        app.popup.visible == 0,
    ensures
        app.dispatched(press(KeyCode::Enter)).1 == Request::Commit,
        app.dispatched(press(KeyCode::Enter)).0.modal == app.modal,
        app.dispatched(press(KeyCode::Esc)).1 == Request::Nothing,
        app.dispatched(press(KeyCode::Esc)).0.modal is None,
{
}

/// A value being typed is for the target it was opened for, until it is
/// written or discarded.
pub proof fn a_value_is_written_to_its_own_target(app: AppView, target: Target, key: KeyEvent)
    requires
        app.help is None,
        app.modal matches Some(ModalView::Value { target: opened, .. }) && opened == target,
    ensures
        app.dispatched(key).0.modal is None || (app.dispatched(
            key,
        ).0.modal matches Some(ModalView::Value { target: still, .. }) && still == target),
{
}

/// A worksheet asks for what its key asks for: a post, an operation on its
/// figures, or nothing; thrown away, the next in the queue is opened.
pub proof fn a_worksheet_asks_for_what_its_key_says(app: AppView, sheet: SheetView)
    requires
        app.help is None,
        app.modal == Some(ModalView::Worksheet(sheet)),
        !sheet.pending_slash,
        !sheet.lines.search.open,
        !(sheet.focus is Date),
    ensures
        app.dispatched(press(KeyCode::Enter)).1 == Request::Commit,
        app.dispatched(letter('s')).1 == Request::Operate(SheetOp::Spread),
        app.dispatched(letter('w')).1 == Request::Operate(SheetOp::SpreadByWeight),
        app.dispatched(letter('z')).1 == Request::Operate(SheetOp::ZeroUntargeted),
        app.dispatched(letter(' ')).1 == Request::Operate(SheetOp::Toggle),
        app.dispatched(letter('*')).1 == Request::Operate(SheetOp::SelectAllVisible),
        app.dispatched(letter('-')).1 == Request::Operate(SheetOp::ClearSelection),
        app.dispatched(press(KeyCode::Backspace)).1 == Request::Operate(SheetOp::Backspace),
        sheet.lines.search.needle().len() == 0 ==> {
            let (after, request) = app.dispatched(press(KeyCode::Esc));
            &&& after.modal is None
            &&& request == (if app.queue.len() > 0 {
                Request::Open(Opening::NextSheet)
            } else {
                Request::Nothing
            })
        },
{
}

/// The picker makes its goals where any entry is ticked, and says that nothing
/// is selected where none is.
pub proof fn the_picker_makes_the_goals_ticked(app: AppView, picker: PickerView)
    requires
        app.help is None,
        app.modal == Some(ModalView::Picker(picker)),
    ensures
        ({
            let (after, request) = app.dispatched(press(KeyCode::Enter));
            &&& after.modal == app.modal
            &&& (picker.chosen().len() > 0 ==> request == Request::Commit)
            &&& (picker.chosen().len() == 0 ==> request == Request::Nothing && after.status
                == said::words("nothing selected"@))
            &&& app.dispatched(press(KeyCode::Esc)).0.modal is None
        }),
{
}

/// The transfers of a payday are written by `Enter` and cancelled by `Esc`.
pub proof fn the_transfers_are_written_or_cancelled(app: AppView, confirm: TransfersView)
    requires
        app.help is None,
        app.modal == Some(ModalView::Transfers(confirm)),
    ensures
        app.dispatched(press(KeyCode::Enter)).1 == Request::Commit,
        app.dispatched(press(KeyCode::Enter)).0.modal == app.modal,
        app.dispatched(press(KeyCode::Esc)).1 == Request::Nothing,
        app.dispatched(press(KeyCode::Esc)).0.modal is None,
        app.dispatched(press(KeyCode::Esc)).0.status == said::words("cancelled"@),
{
}

/// On the overview the arrows scrub the date a day, a week with `Shift`, and
/// say how far it is from its baseline; what is quoted at it is read again.
pub proof fn the_overview_scrubs_its_date(app: AppView, shift: bool)
    requires
        idle(app),
        app.screen is Overview,
        app.adhoc.valid(),
    ensures
        ({
            let days: int = if shift {
                7
            } else {
                1
            };
            let held = Modifiers { shift, control: false, alt: false };
            let (on, asked) = app.dispatched(KeyEvent { code: KeyCode::Right, modifiers: held });
            let (back, also) = app.dispatched(KeyEvent { code: KeyCode::Left, modifiers: held });
            &&& (app.adhoc.reaches(days) ==> asked == Request::Reprice && on.adhoc.day_number()
                == app.adhoc.day_number() + days && on.baseline == app.baseline)
            &&& (!app.adhoc.reaches(days) ==> asked == Request::Nothing && on.adhoc == app.adhoc)
            &&& (app.adhoc.reaches(-days) ==> also == Request::Reprice && back.adhoc.day_number()
                == app.adhoc.day_number() - days && back.baseline == app.baseline)
            &&& (!app.adhoc.reaches(-days) ==> also == Request::Nothing && back.adhoc == app.adhoc)
        }),
{
    let days: int = if shift {
        7
    } else {
        1
    };
    if app.adhoc.reaches(days) {
        crate::date::days_on_counts_the_days(app.adhoc, days);
    }
    if app.adhoc.reaches(-days) {
        crate::date::days_on_counts_the_days(app.adhoc, -days);
    }
}

/// A scrub is told by its sign and its days, and the baseline by its name.
pub proof fn a_scrub_says_how_far_it_went(drift: int)
    ensures
        drift == 0 ==> drift_words(drift) == "back to Paycheck-Eve"@,
        drift > 0 ==> drift_words(drift) == "scrubbed "@ + ("+"@ + crate::text::decimal(drift))
            + "d"@,
        drift < 0 ==> drift_words(drift) == "scrubbed "@ + ("-"@ + crate::text::decimal(-drift))
            + "d"@,
{
}

/// The footer shows a message before all else, then an open box, and the keys
/// of the screen where there is neither; a key the screen would refuse is left
/// out of them.
pub proof fn the_footer_shows_what_matters_most(app: AppView)
    ensures
        app.status.len() > 0 ==> app.footer() == FooterView::Status(app.status),
        app.status.len() == 0 && app.open_box() is Some ==> app.footer() is Search,
        app.status.len() == 0 && app.open_box() is None ==> (app.footer() matches FooterView::Keys {
            topic,
            without,
            needs_birth_date,
        } && (app.screen is Overview ==> topic is Overview) && (app.screen is Cash || app.screen
            is Credit ==> topic is Ledger) && (app.screen is Savings ==> topic is Savings) && (
        app.screen is Planning ==> topic is Planning) && (app.screen is Funds ==> topic is Funds)
            && (app.screen is RecurringGoals ==> topic is RecurringGoals) && (app.screen
            is RecurringTxns ==> topic is RecurringTxns) && (app.screen is Accounts ==> topic
            is Accounts) && (without == Some('t') <==> app.screen is Credit) && (without == Some(
            'P',
        ) <==> app.screen is Planning && !app.planning.pinned) && (needs_birth_date
            <==> app.screen is Funds && app.funds.needs_birth_date)),
{
}

/// A history opens on the goal under the cursor, by its own name and the name
/// of the container it lives in.
pub proof fn a_history_opens_on_the_goal_under_the_cursor(app: AppView, rows: Seq<HistoryRow>)
    requires
        app.valid(),
        app.savings.list.visible.len() > 0,
    ensures
        app.history_opened(rows).modal matches Some(ModalView::History(history)) && history
            == HistoryView::opened(
            under(app.savings.list).goal,
            under(app.savings.list).name@,
            under(app.savings.list).container,
            crate::label::name_among(app.savings.accounts, under(app.savings.list).container),
            rows,
        ),
{
}

/// A row typed next opens on the day of the row typed last, and on today where
/// none was.
pub proof fn the_entry_day_is_the_last_one_typed(app: AppView, day: DateView)
    ensures
        app.entry_date == Some(day) ==> app.entry_day() == day,
        app.entry_date is None ==> app.entry_day() == app.today,
{
}

/// A slash opens the box of the list on screen, wherever the list can be
/// searched, with the needle it had.
pub proof fn a_slash_opens_the_box_of_its_list(app: AppView)
    requires
        idle(app),
        app.screen is Cash || app.screen is Credit || app.screen is Savings || app.screen is Funds
            || app.screen is RecurringGoals,
    ensures
        ({
            let (after, request) = app.dispatched(letter('/'));
            &&& request == Request::Nothing
            &&& after.open_box() is Some
            &&& (app.screen is Cash ==> after.cash.list.search.open
                && after.cash.list.search.line == app.cash.list.search.line && after.credit
                == app.credit)
            &&& (app.screen is Credit ==> after.credit.list.search.open
                && after.credit.list.search.line == app.credit.list.search.line && after.cash
                == app.cash)
            &&& (app.screen is Savings ==> after.savings.list.search.open
                && after.savings.list.search.line == app.savings.list.search.line)
            &&& (app.screen is Funds ==> after.funds.list.search.open
                && after.funds.list.search.line == app.funds.list.search.line)
            &&& (app.screen is RecurringGoals ==> after.recurring_goals.list.search.open
                && after.recurring_goals.list.search.line == app.recurring_goals.list.search.line)
        }),
{
}

/// An open box takes its keys itself, and the box it takes them for is the one
/// of the list on screen.
pub proof fn an_open_box_is_the_one_on_screen(app: AppView, key: KeyEvent)
    requires
        app.help is None,
        app.modal is None,
        app.open_box() is Some,
        key.bare(),
        key.code is Char || key.code is Enter || key.code is Esc || key.code is Backspace,
    ensures
        app.dispatched(key).1 == Request::Nothing,
        app.screen is Cash ==> app.dispatched(key).0 == (AppView {
            cash: app.cash.with_list(app.cash.list.box_pressed(key)),
            ..app
        }),
        app.screen is Credit ==> app.dispatched(key).0 == (AppView {
            credit: app.credit.with_list(app.credit.list.box_pressed(key)),
            ..app
        }),
        app.screen is Savings ==> app.dispatched(key).0 == (AppView {
            savings: app.savings.with_list(app.savings.list.box_pressed(key)),
            ..app
        }),
        app.screen is Funds ==> app.dispatched(key).0 == (AppView {
            funds: app.funds.with_list(app.funds.list.box_pressed(key)),
            ..app
        }),
        app.screen is RecurringGoals ==> app.dispatched(key).0 == (AppView {
            recurring_goals: app.recurring_goals.with_list(
                app.recurring_goals.list.box_pressed(key),
            ),
            ..app
        }),
{
}

/// The ledger on screen is the credit one on its own screen and the cash one
/// everywhere else, and it is the one that is changed.
pub proof fn each_ledger_is_on_its_own_screen(app: AppView, ledger: LedgerView)
    ensures
        app.screen is Credit ==> app.ledger() == app.credit && app.kind() == Kind::Credit
            && app.with_ledger(ledger).credit == ledger && app.with_ledger(ledger).cash
            == app.cash,
        !(app.screen is Credit) ==> app.ledger() == app.cash && app.kind() == Kind::Cash
            && app.with_ledger(ledger).cash == ledger && app.with_ledger(ledger).credit
            == app.credit,
{
}

/// A draw measures the list it drew, and changes nothing else: the list on
/// screen, or the one of what is open over it.
pub proof fn a_draw_measures_the_list_it_drew(app: AppView, viewport: Viewport)
    ensures
        ({
            let height: int = if viewport.height > 0 {
                viewport.height as int
            } else {
                1
            };
            let after = app.drawn_in(viewport);
            let over = app.modal_drawn_in(viewport);
            &&& (app.screen is Overview ==> after == app)
            &&& (app.screen is Cash ==> after.cash.list.cursor == (CursorView {
                index: app.cash.list.cursor.index,
                page_height: height,
                offset: viewport.offset as int,
            }) && after.credit == app.credit)
            &&& (app.screen is Credit ==> after.credit.list.cursor == (CursorView {
                index: app.credit.list.cursor.index,
                page_height: height,
                offset: viewport.offset as int,
            }) && after.cash == app.cash)
            &&& (app.screen is Savings ==> after.savings.list.cursor == (CursorView {
                index: app.savings.list.cursor.index,
                page_height: height,
                offset: viewport.offset as int,
            }))
            &&& (app.screen is Planning ==> after.planning.list.cursor == (CursorView {
                index: app.planning.list.cursor.index,
                page_height: height,
                offset: viewport.offset as int,
            }))
            &&& (app.screen is Funds ==> after.funds.list.cursor == (CursorView {
                index: app.funds.list.cursor.index,
                page_height: height,
                offset: viewport.offset as int,
            }))
            &&& (app.screen is RecurringTxns ==> after.recurring_txns.cursor == (CursorView {
                index: app.recurring_txns.cursor.index,
                page_height: height,
                offset: viewport.offset as int,
            }))
            &&& (app.screen is RecurringGoals ==> after.recurring_goals.list.cursor == (
            CursorView {
                index: app.recurring_goals.list.cursor.index,
                page_height: height,
                offset: viewport.offset as int,
            }))
            &&& (app.screen is Accounts ==> after.accounts.cursor == (CursorView {
                index: app.accounts.cursor.index,
                page_height: height,
                offset: viewport.offset as int,
            }))
            &&& over == (AppView { modal: over.modal, ..app })
            &&& (app.modal matches Some(ModalView::Worksheet(sheet)) ==> (
            over.modal matches Some(ModalView::Worksheet(drawn)) && drawn.lines.cursor == (
            CursorView {
                index: sheet.lines.cursor.index,
                page_height: height,
                offset: viewport.offset as int,
            }) && drawn.lines.rows == sheet.lines.rows))
            &&& (app.modal matches Some(ModalView::Picker(picker)) ==> (
            over.modal matches Some(ModalView::Picker(drawn)) && drawn.cursor == (CursorView {
                index: picker.cursor.index,
                page_height: height,
                offset: viewport.offset as int,
            })))
            &&& (app.modal matches Some(ModalView::Destination(chooser)) ==> (
            over.modal matches Some(ModalView::Destination(drawn)) && drawn.list.cursor == (
            CursorView {
                index: chooser.list.cursor.index,
                page_height: height,
                offset: viewport.offset as int,
            })))
            &&& (app.modal matches Some(ModalView::History(history)) ==> (
            over.modal matches Some(ModalView::History(drawn)) && drawn.cursor == (CursorView {
                index: history.cursor.index,
                page_height: height,
                offset: viewport.offset as int,
            })))
        }),
{
}

/// A message is shown for four seconds.
pub proof fn a_message_is_shown_four_seconds(now: int)
    requires
        0 <= now,
        now + 4000 <= u64::MAX,
    ensures
        deadline(now) == now + 4000,
{
}

/// The application opens on the overview, scrubbed nowhere, with nothing open
/// and nothing said.
pub proof fn the_application_opens_on_the_overview(today: DateView, baseline: DateView, contact: bool)
    ensures
        ({
            let app = AppView::blank(today, baseline, contact);
            &&& app.screen is Overview
            &&& app.today == today
            &&& app.baseline == baseline
            &&& app.drift() == 0
            &&& app.entry_day() == today
            &&& app.modal is None
            &&& app.help is None
            &&& app.status.len() == 0
            &&& app.queue.len() == 0
            &&& app.contact == contact
            &&& !app.quit
            &&& app.cash.kind is Cash
            &&& app.credit.kind is Credit
            &&& app.cash.window == 12 * today.year + today.month - 1
            &&& app.credit.window == app.cash.window
        }),
{
}

/// Whatever is open has the keys of its own kind: a question, a form, a panel
/// or a list, and a box open over a list those of a box.
pub proof fn what_is_open_has_its_own_keys(modal: ModalView)
    ensures
        modal is Confirm ==> modal.topic() is Confirm,
        modal matches ModalView::Form { form, .. } ==> (if form.description is Some {
            modal.topic() is SuggestForm
        } else {
            modal.topic() is Form
        }),
        modal is Value || modal is Reconcile ==> modal.topic() is Form,
        modal is Picker ==> modal.topic() is Picker,
        modal is Details ==> modal.topic() is Details,
        modal is Transfers ==> modal.topic() is PlanTransfers,
        modal matches ModalView::Destination(chooser) ==> (if chooser.list.search.open {
            modal.topic() is DestinationSearch
        } else {
            modal.topic() is Destination
        }),
        modal matches ModalView::Worksheet(sheet) ==> (if sheet.pending_slash
            || sheet.lines.search.open {
            modal.topic() is WorksheetSearch
        } else {
            modal.topic() is Worksheet
        }),
{
}

/// An anchored reload puts the ledgers it was asked for back on today: none,
/// the one on screen, or both.
pub proof fn each_anchor_moves_its_own_ledgers(app: AppView)
    ensures
        app.anchored(Anchor::Keep) == app,
        app.anchored(Anchor::Both).cash == app.cash.anchored(app.today),
        app.anchored(Anchor::Both).credit == app.credit.anchored(app.today),
        app.screen is Credit ==> app.anchored(Anchor::Active).credit == app.credit.anchored(
            app.today,
        ) && app.anchored(Anchor::Active).cash == app.cash,
        !(app.screen is Credit) ==> app.anchored(Anchor::Active).cash == app.cash.anchored(
            app.today,
        ) && app.anchored(Anchor::Active).credit == app.credit,
{
}

/// What was worked out of a worksheet lands on the one that is open, and on
/// nothing where none is.
pub proof fn an_operation_lands_on_the_open_sheet(
    app: AppView,
    amount: Cents,
    shares: Seq<(GoalId, Cents)>,
)
    ensures
        app.modal matches Some(ModalView::Worksheet(sheet)) ==> app.figured(amount, shares).modal
            == Some(ModalView::Worksheet(sheet.figured(amount, shares))),
        !(app.modal matches Some(ModalView::Worksheet(_))) ==> app.figured(amount, shares) == app,
        app.figured(amount, shares) == (AppView {
            modal: app.figured(amount, shares).modal,
            ..app
        }),
{
}

/// The rows read again and the row to rewrite go to the history that is open,
/// and to nothing where none is.
pub proof fn a_history_is_answered_where_it_is_open(
    app: AppView,
    rows: Seq<HistoryRow>,
    form: FormView,
)
    ensures
        app.modal matches Some(ModalView::History(history)) ==> {
            &&& (app.history_refilled(rows).modal matches Some(ModalView::History(after))
                && after.rows == rows && after.goal == history.goal && after.mode == history.mode)
            &&& (app.editing(form).modal matches Some(ModalView::History(after)) && after.mode
                == ModeView::Editing(form) && after.rows == history.rows && after.cursor
                == history.cursor)
        },
        !(app.modal matches Some(ModalView::History(_))) ==> app.history_refilled(rows) == app
            && app.editing(form) == app,
{
}

/// Funds are put off to be refreshed only where they can be, and what was put
/// off before stays where they cannot.
pub proof fn a_refresh_is_put_off_or_refused(app: AppView, tickers: Seq<String>)
    ensures
        app.contact && tickers.len() > 0 ==> app.announced(tickers).deferred == Some(tickers),
        !app.contact || tickers.len() == 0 ==> app.announced(tickers).deferred == app.deferred,
        app.announced(tickers).status == crate::funds::refresh_reply(app.contact, tickers).0,
{
}

/// What is quoted at a scrubbed date changes the plan and nothing else.
pub proof fn a_scrub_changes_the_plan_alone(app: AppView, plan: Plan)
    ensures
        ({
            let after = app.repriced(Ok(plan));
            &&& after == (AppView { planning: after.planning, ..app })
            &&& after.planning.list.rows == plan.rows@
            &&& after.planning.excess == plan.excess
            &&& after.planning.pinned == plan.pinned
            &&& after.planning.asked == plan.asked
        }),
{
}

/// A write that was made puts away what was open, but a history only what was
/// open over its list.
pub proof fn a_history_outlives_a_write(app: AppView, history: HistoryView)
    requires
        app.modal == Some(ModalView::History(history)),
    ensures
        app.put_away().modal matches Some(ModalView::History(after)) && after.mode is List
            && after.rows == history.rows && after.goal == history.goal && after.cursor
            == history.cursor,
{
}

/// A figure typed for a statement sets the target of the account it was opened
/// for and closes; one that does not read stays open and says why.
pub proof fn a_statement_is_taken_or_refused(app: AppView, account: AccountId, form: ValueFormView)
    requires
        app.help is None,
        app.modal == Some(ModalView::Reconcile { account, form }),
        app.popup.visible == 0,
    ensures
        ({
            let (after, request) = app.dispatched(press(KeyCode::Enter));
            let typed = crate::value_form::slot_text(form.slot);
            &&& request == Request::Nothing
            &&& match reconciled(app.ledger(), account, typed) {
                Ok((ledger, words)) => after.modal is None && after.status == words
                    && after.ledger() == ledger,
                Err(why) => after.modal == app.modal && after.status == why.said()
                    && after.ledger() == app.ledger(),
            }
        }),
{
    assert(form.shaped(form.shape()) == form);
}

} // verus!
