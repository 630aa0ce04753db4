//! The one form that belongs to no single screen: a label and one field.

use crate::autocomplete::Suggestion;
use crate::field::{Caret, DateField, DateFieldView, Field, FieldView};
use crate::form::{Focused, FormFields, FormView, SlotView};
use crate::label::{words, Label, SegmentView};
use crate::said::{self, PieceView, Said};
use crate::step::Step;
use vstd::prelude::*;
use vstd::string::*;

verus! {

/// The one field a [`ValueForm`] collects, and which reading it is.
#[derive(Debug)]
enum Entry {
    /// A figure, which this form does not parse: the caller knows which
    /// constant is being edited and therefore how its text reads.
    Figure(Field),
    /// A figure in dollars. Apart from the plain figure because a pay-period
    /// count and a split percentage are edited through this same form, and
    /// neither of those is money.
    Money(Field),
    /// A date, which the arrows step like every other date.
    Date(DateField),
}

impl Entry {
    spec fn slot(&self) -> SlotView {
        match self {
            Entry::Figure(field) => SlotView::Text(field@),
            Entry::Money(field) => SlotView::Text(field@),
            Entry::Date(date) => SlotView::Date(date@),
        }
    }

    fn value(&self) -> (value: &str)
        ensures
            value@ == slot_text(self.slot()),
    {
        match self {
            Entry::Figure(field) => field.value(),
            Entry::Money(field) => field.value(),
            Entry::Date(date) => date.value(),
        }
    }
}

/// The text a field holds.
pub open spec fn slot_text(slot: SlotView) -> Seq<char> {
    match slot {
        SlotView::Text(field) => field.line.text,
        SlotView::Date(date) => date.field.line.text,
        SlotView::Selector { .. } => Seq::empty(),
    }
}

/// One labelled, prefilled field.
///
/// It does not parse: the caller knows what is being edited and therefore how
/// its text reads. This form only collects the characters.
#[derive(Debug)]
pub struct ValueForm {
    label: Label,
    entry: Entry,
}

/// What a [`ValueForm`] stands for.
pub struct ValueFormView {
    pub label: Seq<SegmentView>,
    pub slot: SlotView,
    pub money: bool,
}

impl ValueFormView {
    /// A form over an amount of money, holding `text`.
    pub open spec fn of_money(label: Seq<SegmentView>, text: Seq<char>) -> ValueFormView {
        ValueFormView { label, slot: SlotView::Text(FieldView::own(text)), money: true }
    }

    /// A form of one field has one slot, which the caret is always in.
    pub open spec fn shape(self) -> FormView {
        FormView {
            slots: seq![self.slot],
            focus: 0,
            description: None,
            amount: None,
            account: None,
        }
    }

    /// The form with what a key left of its one field.
    pub open spec fn shaped(self, shape: FormView) -> ValueFormView {
        ValueFormView { slot: shape.slots[0], ..self }
    }

    /// What the field shows, and whether it is an amount of the owner's.
    pub open spec fn shown(self) -> Seq<PieceView> {
        if self.money {
            said::typed(slot_text(self.slot))
        } else {
            said::words(slot_text(self.slot))
        }
    }

    /// The border's words: what is edited, and what the keys do.
    pub open spec fn title(self) -> Seq<SegmentView> {
        (seq![words("Edit "@)] + self.label).push(words(" — Enter save · Esc cancel"@))
    }
}

impl View for ValueForm {
    type V = ValueFormView;

    closed spec fn view(&self) -> ValueFormView {
        ValueFormView {
            label: self.label@,
            slot: self.entry.slot(),
            money: self.entry is Money,
        }
    }
}

impl ValueForm {
    pub fn new(label: Label, prefill: &str) -> (form: ValueForm)
        ensures
            form@ == (ValueFormView {
                label: label@,
                slot: SlotView::Text(FieldView::own(prefill@)),
                money: false,
            }),
    {
        ValueForm { label, entry: Entry::Figure(Field::given(prefill)) }
    }

    /// The same form over an amount of money.
    pub fn money(label: Label, prefill: &str) -> (form: ValueForm)
        ensures
            form@ == (ValueFormView {
                label: label@,
                slot: SlotView::Text(FieldView::own(prefill@)),
                money: true,
            }),
    {
        ValueForm { label, entry: Entry::Money(Field::given(prefill)) }
    }

    /// The same form over a date that takes no shorthand. The arrows step it,
    /// as they do on every other date field.
    pub fn date(label: Label, prefill: &str) -> (form: ValueForm)
        ensures
            form@ == (ValueFormView {
                label: label@,
                slot: SlotView::Date(
                    DateFieldView { field: FieldView::own(prefill@), shorthand_from: None },
                ),
                money: false,
            }),
    {
        ValueForm { label, entry: Entry::Date(DateField::iso_only(prefill)) }
    }

    pub fn label(&self) -> (label: &Label)
        ensures
            label@ == self@.label,
    {
        &self.label
    }

    pub fn value(&self) -> (value: &str)
        ensures
            value@ == slot_text(self@.slot),
    {
        self.entry.value()
    }

    /// What the field shows, which is what was typed into it: an amount of
    /// the owner's where the form collects money, and nothing of theirs where
    /// it does not.
    pub fn display(&self) -> (shown: Said)
        ensures
            shown@ == self@.shown(),
    {
        if self.is_money() {
            Said::of_typed(self.value())
        } else {
            Said::of(self.value())
        }
    }

    /// Whether the form collects an amount of money.
    pub fn is_money(&self) -> (money: bool)
        ensures
            money == self@.money,
    {
        match self.entry {
            Entry::Money(_) => true,
            _ => false,
        }
    }

    /// The label, with an account segment where it carries one, goes straight
    /// through into the border.
    pub fn title(&self) -> (title: Label)
        ensures
            title@ == self@.title(),
    {
        self.label.clone().prepend("Edit ").text(" — Enter save · Esc cancel")
    }
}

impl FormFields for ValueForm {
    type Rest = (Seq<SegmentView>, bool);

    open spec fn shape(&self) -> FormView {
        self@.shape()
    }

    open spec fn rest(&self) -> (Seq<SegmentView>, bool) {
        (self@.label, self@.money)
    }

    // One field, so there is nowhere to tab to.
    fn move_focus(&mut self, step: isize) {
        proof {
            assert((0 + step) % 1 == 0) by (nonlinear_arith);
        }
    }

    // Nothing to cycle either: the one field is a buffer.
    fn focused(&mut self) -> (focused: Focused<'_>) {
        match &mut self.entry {
            Entry::Figure(field) => Focused::Text(field),
            Entry::Money(field) => Focused::Text(field),
            Entry::Date(date) => Focused::Date(date),
        }
    }

    fn caret(&self) -> (caret: Caret) {
        match &self.entry {
            Entry::Figure(field) => Caret::in_field(field),
            Entry::Money(field) => Caret::in_field(field),
            Entry::Date(date) => Caret::in_field(date.text()),
        }
    }

    fn cycle(&mut self, step: Step)
        ensures
            final(self)@ == old(self)@,
    {
        proof {
            assert(self.shape().with_current(self.shape().current()) =~= self.shape());
        }
    }

    fn suggestion_prefix(&self) -> (prefix: Option<&str>) {
        None
    }

    fn apply_suggestion(&mut self, hit: &Suggestion) {
    }
}

/// A form of one value has one field, and shows what is typed in it: as the
/// owner's figure where it is money, and as words where it is not.
pub proof fn a_value_form_shows_its_one_field(form: ValueFormView)
    ensures
        form.shape().slots == seq![form.slot],
        form.shape().valid(),
        form.shape().focus == 0,
        form.shaped(form.shape()) == form,
        form.money ==> form.shown() == said::typed(slot_text(form.slot)),
        !form.money ==> form.shown() == said::words(slot_text(form.slot)),
        form.slot matches SlotView::Text(field) ==> slot_text(form.slot) == field.line.text,
        form.slot matches SlotView::Date(date) ==> slot_text(form.slot) == date.field.line.text,
{
}

} // verus!
