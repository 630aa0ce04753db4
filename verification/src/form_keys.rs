//! Every field form's keys, and the suggestion list under them.

use crate::autocomplete::{Autocomplete, PopupView};
use crate::form::{FormFields, FormView, SlotView};
use crate::key::{is_bare, KeyCode, KeyEvent};
use crate::step::{week_step, Step, StepView, WEEK};
use crate::text::Edit;
use vstd::prelude::*;
use vstd::string::*;

verus! {

/// What a form's key asks of whoever holds the form.
#[derive(Copy, Clone, Debug, PartialEq, Eq, Structural)]
pub enum FormVerb {
    /// The key is answered.
    Answered,
    /// Discard everything typed.
    Close,
    /// Write what was typed.
    Commit,
    /// The text under the caret changed: ask for suggestions again.
    Suggest,
}

/// A form, the suggestions under it, and what a key asks for.
pub struct FormPress {
    pub shape: FormView,
    pub popup: PopupView,
    pub verb: FormVerb,
}

/// The step an arrow stands for: a day, and a week with `Shift` held.
pub open spec fn arrow_step(key: KeyEvent) -> StepView {
    let days = if key.modifiers.shift {
        WEEK as int
    } else {
        1
    };
    if key.code is Left {
        StepView::of_days(-days)
    } else {
        StepView::of_days(days)
    }
}

/// The month step a bare bracket stands for.
pub open spec fn bracket_step(key: KeyEvent) -> Option<StepView> {
    if key.bare() && key.code == KeyCode::Char('[') {
        Some(StepView::of_months(-1))
    } else if key.bare() && key.code == KeyCode::Char(']') {
        Some(StepView::of_months(1))
    } else {
        None
    }
}

/// The keys a suggestion list answers while it has rows on screen.
pub open spec fn popup_answers(popup: PopupView, code: KeyCode) -> bool {
    popup.visible > 0 && (code is Up || code is Down || code is Enter || code is Tab)
}

/// A suggestion taken, or the cursor moved over the list.
pub open spec fn popup_pressed(shape: FormView, popup: PopupView, code: KeyCode) -> (
    FormView,
    PopupView,
) {
    match code {
        KeyCode::Up => (shape, popup.before()),
        KeyCode::Down => (shape, popup.after()),
        _ => (
            match popup.chosen() {
                Some(hit) => shape.suggested(hit),
                None => shape,
            },
            PopupView::closed(),
        ),
    }
}

/// What a key leaves of a form's own fields, once neither the suggestions nor
/// `Enter` nor `Esc` took it.
pub open spec fn fields_pressed(shape: FormView, popup: PopupView, key: KeyEvent) -> FormPress {
    match key.code {
        KeyCode::Tab => FormPress {
            shape: shape.focus_moved(1),
            popup: PopupView::closed(),
            verb: FormVerb::Answered,
        },
        KeyCode::BackTab => FormPress {
            shape: shape.focus_moved(-1),
            popup: PopupView::closed(),
            verb: FormVerb::Answered,
        },
        KeyCode::Left | KeyCode::Right => FormPress {
            shape: shape.chosen(arrow_step(key)),
            popup,
            verb: FormVerb::Answered,
        },
        _ => match (bracket_step(key), shape.current()) {
            (Some(step), SlotView::Date(_)) => FormPress {
                shape: shape.month_stepped(step),
                popup,
                verb: FormVerb::Answered,
            },
            _ => FormPress {
                shape: shape.edited(key),
                popup,
                verb: if shape.current().edit(key) == Edit::Changed {
                    FormVerb::Suggest
                } else {
                    FormVerb::Answered
                },
            },
        },
    }
}

/// What any key leaves of a form and the suggestions under it.
///
/// `Esc` dismisses the suggestions where any row of them is on screen, and
/// the form otherwise. `Enter` takes the suggestion under the cursor where
/// one is on screen, and writes the form otherwise.
pub open spec fn form_pressed(shape: FormView, popup: PopupView, key: KeyEvent) -> FormPress {
    if key.code is Esc {
        if popup.visible > 0 {
            FormPress { shape, popup: PopupView::closed(), verb: FormVerb::Answered }
        } else {
            FormPress { shape, popup, verb: FormVerb::Close }
        }
    } else if popup_answers(popup, key.code) {
        let (shape, popup) = popup_pressed(shape, popup, key.code);
        FormPress { shape, popup, verb: FormVerb::Answered }
    } else if key.code is Enter {
        FormPress { shape, popup, verb: FormVerb::Commit }
    } else {
        fields_pressed(shape, popup, key)
    }
}

/// `Up` and `Down` select and `Enter` or `Tab` accepts, but only while the
/// popup has rows on screen -- otherwise `Tab` moves fields and `Enter`
/// commits.
///
/// Gated on what the last draw fitted, not on the list being non-empty: a
/// popup clipped off the bottom of a short terminal must not capture the
/// `Enter` its form's title advertises as "save".
///
/// Returns whether the key was consumed by the popup.
pub fn popup_key<F: FormFields>(fields: &mut F, popup: &mut Autocomplete, key: KeyEvent) -> (consumed:
    bool)
    requires
        old(fields).shape().valid(),
    ensures
        consumed == popup_answers(old(popup)@, key.code),
        consumed ==> (final(fields).shape(), final(popup)@) == popup_pressed(
            old(fields).shape(),
            old(popup)@,
            key.code,
        ),
        !consumed ==> (final(fields).shape(), final(popup)@) == (
            old(fields).shape(),
            old(popup)@,
        ),
        final(fields).shape().valid(),
        final(fields).rest() == old(fields).rest(),
{
    if popup.visible() == 0 {
        return false;
    }
    match key.code {
        KeyCode::Up => popup.previous(),
        KeyCode::Down => popup.next(),
        KeyCode::Enter | KeyCode::Tab => {
            if let Some(hit) = popup.selected() {
                fields.apply_suggestion(hit);
            }
            popup.clear();
        },
        _ => return false,
    }
    true
}

/// Every field form's keys. What `Enter` writes is the caller's, which is the
/// only part that differs between forms.
pub fn form_key<F: FormFields>(fields: &mut F, popup: &mut Autocomplete, key: KeyEvent) -> (verb:
    FormVerb)
    requires
        old(fields).shape().valid(),
    ensures
        ({
            let pressed = form_pressed(old(fields).shape(), old(popup)@, key);
            &&& final(fields).shape() == pressed.shape
            &&& final(popup)@ == pressed.popup
            &&& verb == pressed.verb
        }),
        final(fields).shape().valid(),
        final(fields).rest() == old(fields).rest(),
{
    let ghost shape = fields.shape();
    if let KeyCode::Esc = key.code {
        if popup.visible() > 0 {
            popup.clear();
            return FormVerb::Answered;
        }
        return FormVerb::Close;
    }
    if popup_key(fields, popup, key) {
        return FormVerb::Answered;
    }
    match key.code {
        KeyCode::Enter => FormVerb::Commit,
        KeyCode::Tab => {
            fields.next_field();
            popup.clear();
            FormVerb::Answered
        },
        KeyCode::BackTab => {
            fields.previous_field();
            popup.clear();
            FormVerb::Answered
        },
        KeyCode::Left => {
            fields.choice(week_step(key, Step::previous_week(), Step::previous()));
            FormVerb::Answered
        },
        KeyCode::Right => {
            fields.choice(week_step(key, Step::next_week(), Step::next()));
            FormVerb::Answered
        },
        _ => {
            let bracket = match key.code {
                KeyCode::Char('[') if is_bare(key) => Some(Step::previous_month()),
                KeyCode::Char(']') if is_bare(key) => Some(Step::next_month()),
                _ => None,
            };
            if let Some(step) = bracket {
                if fields.step_month(step) {
                    return FormVerb::Answered;
                }
                proof {
                    assert(shape.with_current(shape.current()) =~= shape);
                }
            }
            match fields.edit(key) {
                Edit::Changed => FormVerb::Suggest,
                _ => FormVerb::Answered,
            }
        },
    }
}

/// A form holds together whatever key is pressed: the caret stays in one of
/// its fields, and no field is added or lost.
pub proof fn a_form_keeps_its_fields(shape: FormView, popup: PopupView, key: KeyEvent)
    requires
        shape.valid(),
    ensures
        form_pressed(shape, popup, key).shape.slots.len() == shape.slots.len(),
        form_pressed(shape, popup, key).shape.valid(),
{
    crate::form::stepping_an_index_is_undone(shape.focus, shape.slots.len() as int, 1);
    crate::form::stepping_an_index_is_undone(shape.focus, shape.slots.len() as int, -1);
}

/// `Tab` and `BackTab` undo each other, wherever the caret is.
pub proof fn tab_and_back_tab_undo_each_other(shape: FormView)
    requires
        shape.valid(),
    ensures
        shape.focus_moved(1).focus_moved(-1) == shape,
        shape.focus_moved(-1).focus_moved(1) == shape,
{
    crate::form::stepping_an_index_is_undone(shape.focus, shape.slots.len() as int, 1);
    crate::form::stepping_an_index_is_undone(shape.focus, shape.slots.len() as int, -1);
}

/// Nothing is written but by `Enter`, and nothing is discarded but by `Esc`.
pub proof fn only_enter_writes_and_only_esc_discards(
    shape: FormView,
    popup: PopupView,
    key: KeyEvent,
)
    ensures
        form_pressed(shape, popup, key).verb == FormVerb::Commit ==> key.code is Enter,
        form_pressed(shape, popup, key).verb == FormVerb::Close ==> key.code is Esc,
{
}

/// A key pressed with `Shift` held or with nothing held.
pub open spec fn pressed_with(code: KeyCode, shift: bool) -> KeyEvent {
    KeyEvent { code, modifiers: crate::key::Modifiers { shift, control: false, alt: false } }
}

/// The arrows and the brackets do to each field what it takes of them: a date
/// steps a day, a week with `Shift`, and a month on the brackets; a text moves
/// its caret and types the brackets; a choice goes to the one next to it.
pub proof fn each_field_answers_the_arrows_its_own_way(
    shape: FormView,
    popup: PopupView,
    shift: bool,
)
    requires
        shape.valid(),
    ensures
        ({
            let at = shape.focus;
            let left = form_pressed(shape, popup, pressed_with(KeyCode::Left, shift));
            let right = form_pressed(shape, popup, pressed_with(KeyCode::Right, shift));
            let open = form_pressed(shape, popup, pressed_with(KeyCode::Char('['), shift));
            let close = form_pressed(shape, popup, pressed_with(KeyCode::Char(']'), shift));
            let days: int = if shift {
                7
            } else {
                1
            };
            &&& left.verb == FormVerb::Answered && right.verb == FormVerb::Answered
            &&& left.popup == popup && right.popup == popup
            &&& left.shape.focus == at && right.shape.focus == at
            &&& open.shape.focus == at && close.shape.focus == at
            &&& match shape.slots[at] {
                SlotView::Date(date) => {
                    &&& left.shape.slots[at] == SlotView::Date(
                        date.stepped(StepView { amount: -days, unit: crate::step::Unit::Days }),
                    )
                    &&& right.shape.slots[at] == SlotView::Date(
                        date.stepped(StepView { amount: days, unit: crate::step::Unit::Days }),
                    )
                    &&& open.shape.slots[at] == SlotView::Date(
                        date.stepped(StepView { amount: -1, unit: crate::step::Unit::Months }),
                    )
                    &&& close.shape.slots[at] == SlotView::Date(
                        date.stepped(StepView { amount: 1, unit: crate::step::Unit::Months }),
                    )
                    &&& open.verb == FormVerb::Answered && close.verb == FormVerb::Answered
                },
                SlotView::Text(field) => {
                    &&& left.shape.slots[at] == SlotView::Text(
                        crate::field::FieldView { line: field.line.stepped(-1), ..field },
                    )
                    &&& right.shape.slots[at] == SlotView::Text(
                        crate::field::FieldView { line: field.line.stepped(1), ..field },
                    )
                    &&& open.shape.slots[at] == SlotView::Text(
                        field.edited(pressed_with(KeyCode::Char('['), shift)),
                    )
                    &&& close.shape.slots[at] == SlotView::Text(
                        field.edited(pressed_with(KeyCode::Char(']'), shift)),
                    )
                },
                SlotView::Selector { index, len, .. } => {
                    &&& left.shape.slots[at] == (SlotView::Selector {
                        index: crate::form::wrapped(index, len, -1),
                        len,
                        touched: true,
                    })
                    &&& right.shape.slots[at] == (SlotView::Selector {
                        index: crate::form::wrapped(index, len, 1),
                        len,
                        touched: true,
                    })
                    &&& open.shape.slots[at] == shape.slots[at]
                    &&& close.shape.slots[at] == shape.slots[at]
                },
            }
        }),
{
}

/// `Tab` goes to the field after and `BackTab` to the one before, round either
/// end; no field changes, and the suggestions close.
pub proof fn tab_goes_to_the_field_next_door(shape: FormView, popup: PopupView)
    requires
        shape.valid(),
        popup.visible == 0,
    ensures
        ({
            let next = form_pressed(shape, popup, pressed_with(KeyCode::Tab, false));
            let back = form_pressed(shape, popup, pressed_with(KeyCode::BackTab, true));
            let last = shape.slots.len() - 1;
            &&& next.shape.slots == shape.slots && back.shape.slots == shape.slots
            &&& next.popup.suggestions.len() == 0 && back.popup.suggestions.len() == 0
            &&& (shape.focus < last ==> next.shape.focus == shape.focus + 1)
            &&& (shape.focus == last ==> next.shape.focus == 0)
            &&& (shape.focus > 0 ==> back.shape.focus == shape.focus - 1)
            &&& (shape.focus == 0 ==> back.shape.focus == last)
        }),
{
    crate::form::a_step_goes_next_door(shape.focus, shape.slots.len() as int);
}

/// With suggestions on screen `Enter` and `Tab` take the one under the cursor
/// and close the list, the arrows move over it, and `Esc` closes it; with none
/// on screen `Enter` writes the form and `Esc` discards it.
pub proof fn suggestions_take_their_keys_first(shape: FormView, popup: PopupView, key: KeyEvent)
    requires
        popup.confined(),
    ensures
        popup.visible > 0 && (key.code is Enter || key.code is Tab) ==> {
            let after = form_pressed(shape, popup, key);
            &&& after.shape == shape.suggested(popup.suggestions[popup.selected])
            &&& after.popup.suggestions.len() == 0 && after.popup.visible == 0
            &&& after.verb == FormVerb::Answered
        },
        popup.visible > 0 && key.code is Esc ==> {
            let after = form_pressed(shape, popup, key);
            &&& after.shape == shape
            &&& after.popup.suggestions.len() == 0 && after.popup.visible == 0
            &&& after.verb == FormVerb::Answered
        },
        popup.visible > 0 && (key.code is Up || key.code is Down) ==> {
            let after = form_pressed(shape, popup, key);
            let last = popup.visible - 1;
            &&& after.shape == shape
            &&& after.popup.suggestions == popup.suggestions
            &&& after.popup.visible == popup.visible
            &&& after.verb == FormVerb::Answered
            &&& (key.code is Down && popup.selected < last ==> after.popup.selected
                == popup.selected + 1)
            &&& (key.code is Down && popup.selected == last ==> after.popup.selected == 0)
            &&& (key.code is Up && popup.selected > 0 ==> after.popup.selected == popup.selected
                - 1)
            &&& (key.code is Up && popup.selected == 0 ==> after.popup.selected == last)
        },
        popup.visible == 0 && key.code is Enter ==> {
            let after = form_pressed(shape, popup, key);
            after.shape == shape && after.verb == FormVerb::Commit
        },
        popup.visible == 0 && key.code is Esc ==> {
            let after = form_pressed(shape, popup, key);
            after.shape == shape && after.verb == FormVerb::Close
        },
{
}

/// A character typed into a text has suggestions looked for again; one pressed
/// on a choice does not.
pub proof fn a_changed_text_asks_for_suggestions(
    shape: FormView,
    popup: PopupView,
    c: char,
    shift: bool,
)
    requires
        shape.valid(),
        c != '[',
        c != ']',
    ensures
        ({
            let key = pressed_with(KeyCode::Char(c), shift);
            let after = form_pressed(shape, popup, key);
            &&& after.shape == shape.edited(key)
            &&& after.popup == popup
            &&& (shape.current() matches SlotView::Text(field) ==> (field.line.valid()
                ==> after.verb == FormVerb::Suggest))
            &&& (shape.current() is Selector ==> after.verb == FormVerb::Answered)
        }),
{
    if let SlotView::Text(field) = shape.current() {
        let typed = field.line.inserted(c).text;
        if field.line.valid() {
            assert(typed.len() == field.line.text.len() + 1);
        }
    }
}

} // verus!
