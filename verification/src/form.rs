//! What a form's keys do: moving between fields, and handing a key to the
//! field under the caret.

use crate::autocomplete::Suggestion;
use crate::field::{Caret, CaretView, DateField, DateFieldView, Field, FieldView};
use crate::ids::AccountId;
use crate::key::KeyEvent;
use crate::money::{figure, write_figure};
use crate::step::{Step, StepView};
use crate::text::{edit_of, Edit, TextView};
use vstd::prelude::*;
use vstd::std_specs::cmp::PartialEqSpec;
use vstd::string::*;

verus! {

/// Step an index into a list of `len` choices by `step`, wrapping.
///
/// An empty list has no index to step to, so it stays at zero rather than
/// dividing by zero.
pub fn step_index(index: usize, len: usize, step: isize) -> (stepped: usize)
    ensures
        stepped == wrapped(index as int, len as int, step as int),
{
    if len == 0 {
        return 0;
    }
    let wide: i128 = index as i128 + step as i128;
    let around: i128 = len as i128;
    let rest: i128 = if wide >= 0 {
        wide % around
    } else {
        around - 1 - (-(wide + 1)) % around
    };
    proof {
        if wide < 0 {
            lemma_wrap_below(wide as int, around as int);
        }
    }
    rest as usize
}

/// Where `step` places on from `index` is, around a ring of `len`; zero for
/// an empty ring.
pub open spec fn wrapped(index: int, len: int, step: int) -> int {
    if len == 0 {
        0
    } else {
        (index + step) % len
    }
}

proof fn lemma_wrap_below(n: int, around: int)
    requires
        n < 0,
        around > 0,
    ensures
        around - 1 - (-(n + 1)) % around == n % around,
{
    let up = -(n + 1);
    let turns = up / around;
    let rest = up % around;
    assert(up == around * turns + rest && 0 <= rest < around) by (nonlinear_arith)
        requires
            turns == up / around,
            rest == up % around,
            around > 0,
    ;
    assert(n == (-turns - 1) * around + (around - 1 - rest)) by (nonlinear_arith)
        requires
            n == -up - 1,
            up == around * turns + rest,
    ;
    vstd::arithmetic::div_mod::lemma_fundamental_div_mod_converse(
        n,
        around,
        -turns - 1,
        around - 1 - rest,
    );
}

/// Where `focus` stands in `order`: at the first of its like, or at the start
/// where there is none.
pub open spec fn place_of<T: PartialEq>(order: Seq<T>, focus: T) -> int
    decreases order.len(),
{
    if exists|i: int| 0 <= i < order.len() && (#[trigger] order[i]).eq_spec(&focus) {
        first_like(order, focus)
    } else {
        0
    }
}

pub open spec fn first_like<T: PartialEq>(order: Seq<T>, focus: T) -> int
    decreases order.len(),
{
    if order.len() == 0 || order[0].eq_spec(&focus) {
        0
    } else {
        1 + first_like(order.drop_first(), focus)
    }
}

proof fn lemma_first_like<T: PartialEq>(order: Seq<T>, focus: T, at: int)
    requires
        0 <= at < order.len(),
        order[at].eq_spec(&focus),
        forall|i: int| 0 <= i < at ==> !(#[trigger] order[i]).eq_spec(&focus),
    ensures
        first_like(order, focus) == at,
    decreases at,
{
    if at > 0 {
        assert(!order[0].eq_spec(&focus));
        assert(order.drop_first()[at - 1] == order[at]);
        assert forall|i: int| 0 <= i < at - 1 implies !(#[trigger] order.drop_first()[i]).eq_spec(
            &focus,
        ) by {
            assert(order.drop_first()[i] == order[i + 1]);
        }
        lemma_first_like(order.drop_first(), focus, at - 1);
    }
}

/// Step `focus` around `order` by `step`, wrapping. Every form's tab order is
/// this, written once.
pub fn next_in<T: Copy + PartialEq>(order: &[T], focus: T, step: isize) -> (next: T)
    requires
        order@.len() > 0,
        T::obeys_eq_spec(),
    ensures
        next == order@[wrapped(place_of(order@, focus), order@.len() as int, step as int)],
{
    let mut at: usize = 0;
    while at < order.len() && !(order[at] == focus)
        invariant
            at <= order@.len(),
            T::obeys_eq_spec(),
            forall|i: int| 0 <= i < at ==> !(#[trigger] order@[i]).eq_spec(&focus),
        ensures
            at < order@.len() ==> order@[at as int].eq_spec(&focus),
        decreases order@.len() - at,
    {
        at = at + 1;
    }
    let place: usize = if at < order.len() {
        proof {
            lemma_first_like(order@, focus, at as int);
        }
        at
    } else {
        0
    };
    proof {
        assert(place == place_of(order@, focus));
        lemma_wrap_in_range(place as int, order@.len() as int, step as int);
    }
    order[step_index(place, order.len(), step)]
}

proof fn lemma_wrap_in_range(index: int, len: int, step: int)
    requires
        len > 0,
    ensures
        0 <= wrapped(index, len, step) < len,
{
    assert(0 <= (index + step) % len < len) by (nonlinear_arith)
        requires
            len > 0,
    ;
}

/// Stepping one way around a list of choices and back again returns to the
/// same choice.
pub proof fn stepping_an_index_is_undone(index: int, len: int, step: int)
    requires
        0 <= index < len,
    ensures
        0 <= wrapped(index, len, step) < len,
        wrapped(wrapped(index, len, step), len, -step) == index,
{
    lemma_wrap_in_range(index, len, step);
    let n = index + step;
    assert((n % len - step) % len == index) by (nonlinear_arith)
        requires
            n == index + step,
            0 <= index < len,
    {
        assert(n == len * (n / len) + n % len);
        let m = n % len - step;
        assert(m == index + len * (-(n / len)));
        assert(m % len == index) by (nonlinear_arith)
            requires
                m == index + len * (-(n / len)),
                0 <= index < len,
        ;
    }
}

/// One field of a form, as its keys see it.
pub enum SlotView {
    Text(FieldView),
    Date(DateFieldView),
    /// A choice among `len`, which no keystroke types into.
    Selector { index: int, len: int, touched: bool },
}

/// A form as its keys see it: its fields in tab order, which one the caret is
/// in, and which of them a suggestion fills.
#[verifier::ext_equal]
pub struct FormView {
    pub slots: Seq<SlotView>,
    pub focus: int,
    /// The field suggestions are asked for.
    pub description: Option<int>,
    pub amount: Option<int>,
    /// The field choosing an account, and the accounts it chooses among.
    pub account: Option<(int, Seq<AccountId>)>,
}

impl SlotView {
    /// What an editing key leaves of the field. A selector types nothing.
    pub open spec fn edited(self, key: KeyEvent) -> SlotView {
        match self {
            SlotView::Text(field) => SlotView::Text(field.edited(key)),
            SlotView::Date(date) => SlotView::Date(date.edited(key)),
            SlotView::Selector { .. } => self,
        }
    }

    pub open spec fn edit(self, key: KeyEvent) -> Edit {
        match self {
            SlotView::Text(field) => edit_of(field.line, key),
            SlotView::Date(date) => edit_of(date.field.line, key),
            SlotView::Selector { .. } => Edit::Ignored,
        }
    }

    /// What the arrows leave of the field: a text field moves its caret, a
    /// date steps, and a selector cycles.
    pub open spec fn chosen(self, step: StepView) -> SlotView {
        match self {
            SlotView::Text(field) => SlotView::Text(field.caret_stepped(step)),
            SlotView::Date(date) => SlotView::Date(date.stepped(step)),
            SlotView::Selector { .. } => self.cycled(step),
        }
    }

    pub open spec fn cycled(self, step: StepView) -> SlotView {
        match self {
            SlotView::Selector { index, len, .. } => SlotView::Selector {
                index: wrapped(index, len, step.direction()),
                len,
                touched: true,
            },
            _ => self,
        }
    }

    /// What the month keys leave of the field: a date steps, and nothing else
    /// answers them.
    pub open spec fn month_stepped(self, step: StepView) -> SlotView {
        match self {
            SlotView::Date(date) => SlotView::Date(date.stepped(step)),
            _ => self,
        }
    }

    pub open spec fn caret(self) -> CaretView {
        match self {
            SlotView::Text(field) => CaretView::In(field.line),
            SlotView::Date(date) => CaretView::In(date.field.line),
            SlotView::Selector { .. } => CaretView::End,
        }
    }

    /// A text field holding another text, as touched as it was.
    pub open spec fn filled(self, text: Seq<char>) -> SlotView {
        match self {
            SlotView::Text(field) => SlotView::Text(
                FieldView { line: TextView::holding(text), ..field },
            ),
            _ => self,
        }
    }

    /// A field the user has not touched holding another text.
    pub open spec fn offered(self, text: Seq<char>) -> SlotView {
        match self {
            SlotView::Text(field) => if field.touched {
                self
            } else {
                self.filled(text)
            },
            _ => self,
        }
    }

    /// A selector the user has not touched, on the place `id` has among
    /// `accounts`, where it has one.
    pub open spec fn pointed(self, accounts: Seq<AccountId>, id: AccountId) -> SlotView {
        match self {
            SlotView::Selector { len, touched, .. } => if touched || !accounts.contains(id) {
                self
            } else {
                SlotView::Selector { index: accounts.index_of_first(id)->0, len, touched }
            },
            _ => self,
        }
    }
}

impl FormView {
    /// The caret is in one of the fields, and so is every field a suggestion
    /// fills.
    pub open spec fn valid(self) -> bool {
        &&& 0 <= self.focus < self.slots.len()
        &&& (self.description matches Some(at) ==> 0 <= at < self.slots.len())
        &&& (self.amount matches Some(at) ==> 0 <= at < self.slots.len())
        &&& (self.account matches Some(at) ==> 0 <= at.0 < self.slots.len())
    }

    pub open spec fn current(self) -> SlotView {
        self.slots[self.focus]
    }

    pub open spec fn with_slot(self, at: int, slot: SlotView) -> FormView {
        FormView { slots: self.slots.update(at, slot), ..self }
    }

    pub open spec fn with_current(self, slot: SlotView) -> FormView {
        self.with_slot(self.focus, slot)
    }

    /// The form with the caret `step` fields along, wrapping.
    pub open spec fn focus_moved(self, step: int) -> FormView {
        FormView { focus: wrapped(self.focus, self.slots.len() as int, step), ..self }
    }

    pub open spec fn edited(self, key: KeyEvent) -> FormView {
        self.with_current(self.current().edited(key))
    }

    pub open spec fn chosen(self, step: StepView) -> FormView {
        self.with_current(self.current().chosen(step))
    }

    pub open spec fn cycled(self, step: StepView) -> FormView {
        self.with_current(self.current().cycled(step))
    }

    pub open spec fn month_stepped(self, step: StepView) -> FormView {
        self.with_current(self.current().month_stepped(step))
    }

    /// The text to autocomplete against: the description's, while the caret
    /// is in it.
    pub open spec fn prefix(self) -> Option<Seq<char>> {
        match (self.description, self.current()) {
            (Some(at), SlotView::Text(field)) => if at == self.focus {
                Some(field.line.text)
            } else {
                None
            },
            _ => None,
        }
    }

    /// Whether the description has the caret and anything in it to complete.
    pub open spec fn asks(self) -> bool {
        self.prefix() matches Some(text) && text.len() > 0
    }

    pub open spec fn described(self, hit: Suggestion) -> FormView {
        match self.description {
            Some(at) => self.with_slot(at, self.slots[at].filled(hit.description@)),
            None => self,
        }
    }

    pub open spec fn priced(self, hit: Suggestion) -> FormView {
        match self.amount {
            Some(at) => self.with_slot(at, self.slots[at].offered(figure(hit.cents))),
            None => self,
        }
    }

    pub open spec fn placed(self, hit: Suggestion) -> FormView {
        match self.account {
            Some((at, accounts)) => self.with_slot(
                at,
                self.slots[at].pointed(accounts, hit.account_id),
            ),
            None => self,
        }
    }

    /// The form with a suggestion accepted: the description is the
    /// suggestion's, and the amount and the account are too wherever the user
    /// has not touched them.
    pub open spec fn suggested(self, hit: Suggestion) -> FormView {
        self.described(hit).priced(hit).placed(hit)
    }
}

/// The field a form's caret is in, as the key handler has to see it.
///
/// The three arms are the three readings of the arrows: a text field moves
/// the caret, a date steps a day, and a selector cycles.
pub enum Focused<'a> {
    Text(&'a mut Field),
    Date(&'a mut DateField),
    /// A choice, which no keystroke types into.
    Selector,
}

/// What the shared key handler needs from a form.
pub trait FormFields: Sized {
    /// What else a form holds, which no key changes.
    type Rest;

    /// The form as its keys see it.
    spec fn shape(&self) -> FormView;

    /// The rest of the form.
    spec fn rest(&self) -> Self::Rest;

    /// Step the focus `step` places along this form's tab order, wrapping.
    fn move_focus(&mut self, step: isize)
        requires
            old(self).shape().valid(),
        ensures
            final(self).shape() == old(self).shape().focus_moved(step as int),
            final(self).shape().valid(),
            final(self).rest() == old(self).rest(),
    ;

    fn next_field(&mut self)
        requires
            old(self).shape().valid(),
        ensures
            final(self).shape() == old(self).shape().focus_moved(1),
            final(self).shape().valid(),
            final(self).rest() == old(self).rest(),
    {
        self.move_focus(1);
    }

    fn previous_field(&mut self)
        requires
            old(self).shape().valid(),
        ensures
            final(self).shape() == old(self).shape().focus_moved(-1),
            final(self).shape().valid(),
            final(self).rest() == old(self).rest(),
    {
        self.move_focus(-1);
    }

    /// The field under the caret. One method, because what a keystroke means
    /// depends on which of the three kinds has the focus and a form that
    /// answered that question twice would answer it differently twice.
    fn focused(&mut self) -> (focused: Focused<'_>)
        requires
            old(self).shape().valid(),
        ensures
            final(self).rest() == old(self).rest(),
            match focused {
                Focused::Text(field) => old(self).shape().current() == SlotView::Text(field@)
                    && final(self).shape() == old(self).shape().with_current(
                    SlotView::Text(final(field)@),
                ),
                Focused::Date(date) => old(self).shape().current() == SlotView::Date(date@)
                    && final(self).shape() == old(self).shape().with_current(
                    SlotView::Date(final(date)@),
                ),
                Focused::Selector => old(self).shape().current() is Selector
                    && final(self).shape() == old(self).shape(),
            },
    ;

    /// The same field, for the draw, which has no `&mut` to ask with.
    fn caret(&self) -> (caret: Caret)
        requires
            self.shape().valid(),
        ensures
            caret@ == self.shape().current().caret(),
    ;

    /// Cycle the focused selector by `step`. A form whose caret is in a
    /// buffer is left alone.
    fn cycle(&mut self, step: Step)
        requires
            old(self).shape().valid(),
        ensures
            final(self).shape() == old(self).shape().cycled(step@),
            final(self).shape().valid(),
            final(self).rest() == old(self).rest(),
    ;

    /// Answer an editing key, and say what it did. A selector types nothing.
    fn edit(&mut self, key: KeyEvent) -> (edit: Edit)
        requires
            old(self).shape().valid(),
        ensures
            final(self).shape() == old(self).shape().edited(key),
            final(self).shape().valid(),
            final(self).rest() == old(self).rest(),
            edit == old(self).shape().current().edit(key),
    {
        match self.focused() {
            Focused::Text(field) => field.edit(key),
            Focused::Date(date) => date.edit(key),
            Focused::Selector => Edit::Ignored,
        }
    }

    /// The arrows, and `Shift` with them: the field under the caret decides.
    fn choice(&mut self, step: Step)
        requires
            old(self).shape().valid(),
        ensures
            final(self).shape() == old(self).shape().chosen(step@),
            final(self).shape().valid(),
            final(self).rest() == old(self).rest(),
    {
        match self.focused() {
            Focused::Text(field) => {
                field.step_caret(step);
                return ;
            },
            Focused::Date(date) => {
                date.step(step);
                return ;
            },
            Focused::Selector => {},
        }
        self.cycle(step);
    }

    /// The brackets: step the focused date a month, and say whether there was
    /// one.
    ///
    /// The difference from [`FormFields::choice`], which every kind of field
    /// answers, is that a bracket stays an ordinary character everywhere else.
    /// So a form with no date under the caret reports that rather than
    /// swallowing the key, and the handler above lets it through to the text.
    fn step_month(&mut self, step: Step) -> (stepped: bool)
        requires
            old(self).shape().valid(),
        ensures
            stepped == (old(self).shape().current() is Date),
            final(self).shape() == old(self).shape().month_stepped(step@),
            final(self).shape().valid(),
            final(self).rest() == old(self).rest(),
    {
        match self.focused() {
            Focused::Date(date) => {
                date.step(step);
                true
            },
            Focused::Text(_) => false,
            Focused::Selector => false,
        }
    }

    /// The text to autocomplete against, when the description field has the
    /// focus. `None` closes the popup.
    fn suggestion_prefix(&self) -> (prefix: Option<&str>)
        requires
            self.shape().valid(),
        ensures
            match prefix {
                Some(text) => self.shape().prefix() == Some(text@),
                None => self.shape().prefix() is None,
            },
    ;

    /// Whether the description has the caret and anything in it to complete.
    fn asks(&self) -> (asks: bool)
        requires
            self.shape().valid(),
        ensures
            asks == self.shape().asks(),
    {
        match self.suggestion_prefix() {
            Some(text) => text.unicode_len() > 0,
            None => false,
        }
    }

    /// Accept a suggestion: fill the fields the user has not touched.
    fn apply_suggestion(&mut self, hit: &Suggestion)
        requires
            old(self).shape().valid(),
        ensures
            final(self).shape() == old(self).shape().suggested(*hit),
            final(self).shape().valid(),
            final(self).rest() == old(self).rest(),
    ;
}

/// Where `id` first stands among `accounts`.
fn place_among(accounts: &Vec<AccountId>, id: AccountId) -> (place: Option<usize>)
    ensures
        match place {
            Some(at) => accounts@.contains(id) && accounts@.index_of_first(id) == Some(at as int),
            None => !accounts@.contains(id),
        },
{
    proof {
        accounts@.index_of_first_ensures(id);
    }
    let mut at: usize = 0;
    while at < accounts.len()
        invariant
            at <= accounts@.len(),
            forall|i: int| 0 <= i < at ==> accounts@[i] != id,
        decreases accounts@.len() - at,
    {
        if accounts[at] == id {
            proof {
                accounts@.index_of_first_ensures(id);
                let first = accounts@.index_of_first(id)->0;
                assert(accounts@[first] == id);
            }
            return Some(at);
        }
        at = at + 1;
    }
    None
}

/// One field of a [`Form`].
#[derive(Debug)]
pub enum Slot {
    Text(Field),
    Date(DateField),
    /// A choice among `len`.
    Selector { index: usize, len: usize, touched: bool },
}

impl View for Slot {
    type V = SlotView;

    open spec fn view(&self) -> SlotView {
        match self {
            Slot::Text(field) => SlotView::Text(field@),
            Slot::Date(date) => SlotView::Date(date@),
            Slot::Selector { index, len, touched } => SlotView::Selector {
                index: *index as int,
                len: *len as int,
                touched: *touched,
            },
        }
    }
}

/// A form of several fields in a tab order.
#[derive(Debug)]
pub struct Form {
    slots: Vec<Slot>,
    focus: usize,
    description: Option<usize>,
    amount: Option<usize>,
    account: Option<(usize, Vec<AccountId>)>,
}

impl View for Form {
    type V = FormView;

    closed spec fn view(&self) -> FormView {
        FormView {
            slots: Seq::new(self.slots@.len(), |i: int| self.slots@[i]@),
            focus: self.focus as int,
            description: match self.description {
                Some(at) => Some(at as int),
                None => None,
            },
            amount: match self.amount {
                Some(at) => Some(at as int),
                None => None,
            },
            account: match self.account {
                Some((at, accounts)) => Some((at as int, accounts@)),
                None => None,
            },
        }
    }
}

impl Form {
    /// A form of `slots`, opening with the caret in the one at `focus`. No
    /// field of it asks for suggestions.
    pub fn new(slots: Vec<Slot>, focus: usize) -> (form: Form)
        requires
            focus < slots@.len(),
        ensures
            form@.valid(),
            form@ == (FormView {
                slots: Seq::new(slots@.len(), |i: int| slots@[i]@),
                focus: focus as int,
                description: None,
                amount: None,
                account: None,
            }),
    {
        Form { slots, focus, description: None, amount: None, account: None }
    }

    /// The form with suggestions asked for in the field at `description`, and
    /// filling the amount and the account beside it.
    pub fn suggesting(
        self,
        description: usize,
        amount: usize,
        account: usize,
        accounts: Vec<AccountId>,
    ) -> (form: Form)
        requires
            self@.valid(),
            description < self@.slots.len(),
            amount < self@.slots.len(),
            account < self@.slots.len(),
        ensures
            form@.valid(),
            form@ == (FormView {
                description: Some(description as int),
                amount: Some(amount as int),
                account: Some((account as int, accounts@)),
                ..self@
            }),
    {
        Form {
            slots: self.slots,
            focus: self.focus,
            description: Some(description),
            amount: Some(amount),
            account: Some((account, accounts)),
        }
    }

    /// Whether the caret and the fields a suggestion fills are among the
    /// form's own.
    pub fn is_whole(&self) -> (whole: bool)
        ensures
            whole == self@.valid(),
    {
        let len: usize = self.slots.len();
        let described = match self.description {
            Some(at) => at < len,
            None => true,
        };
        let priced = match self.amount {
            Some(at) => at < len,
            None => true,
        };
        let placed = match &self.account {
            Some((at, _)) => *at < len,
            None => true,
        };
        self.focus < len && described && priced && placed
    }

    /// Whether a field of the form is offered suggestions.
    pub fn suggests(&self) -> (suggests: bool)
        ensures
            suggests == self@.description is Some,
    {
        self.description.is_some()
    }

    /// How many fields the form has.
    pub fn len(&self) -> (len: usize)
        ensures
            len == self@.slots.len(),
    {
        self.slots.len()
    }

    /// Which field the caret is in.
    pub fn focus(&self) -> (focus: usize)
        ensures
            focus == self@.focus,
    {
        self.focus
    }

    /// The field at `at`.
    pub fn slot(&self, at: usize) -> (slot: &Slot)
        requires
            at < self@.slots.len(),
        ensures
            slot@ == self@.slots[at as int],
    {
        &self.slots[at]
    }

    fn describe(&mut self, hit: &Suggestion)
        requires
            old(self)@.valid(),
        ensures
            final(self)@ == old(self)@.described(*hit),
            final(self)@.valid(),
    {
        let ghost before = self@;
        if let Some(at) = self.description {
            match &mut self.slots[at] {
                Slot::Text(field) => field.fill(&hit.description),
                _ => {},
            }
            proof {
                assert(self@ =~= before.described(*hit));
            }
        }
    }

    fn price(&mut self, hit: &Suggestion)
        requires
            old(self)@.valid(),
        ensures
            final(self)@ == old(self)@.priced(*hit),
            final(self)@.valid(),
    {
        let ghost before = self@;
        if let Some(at) = self.amount {
            match &mut self.slots[at] {
                Slot::Text(field) => {
                    if !field.is_touched() {
                        field.fill(&write_figure(hit.cents));
                    }
                },
                _ => {},
            }
            proof {
                assert(self@ =~= before.priced(*hit));
            }
        }
    }

    fn place(&mut self, hit: &Suggestion)
        requires
            old(self)@.valid(),
        ensures
            final(self)@ == old(self)@.placed(*hit),
            final(self)@.valid(),
    {
        let ghost before = self@;
        if let Some((at, accounts)) = &self.account {
            let at: usize = *at;
            let found: Option<usize> = place_among(accounts, hit.account_id);
            match (&self.slots[at], found) {
                (Slot::Selector { len, touched, .. }, Some(index)) => {
                    if !*touched {
                        let slot = Slot::Selector { index, len: *len, touched: false };
                        self.set_slot(at, slot);
                    }
                },
                _ => {},
            }
            proof {
                assert(self@ =~= before.placed(*hit));
            }
        }
    }

    fn set_slot(&mut self, at: usize, slot: Slot)
        requires
            at < old(self)@.slots.len(),
        ensures
            final(self)@ == old(self)@.with_slot(at as int, slot@),
    {
        let ghost before = self@;
        self.slots.set(at, slot);
        proof {
            assert(self@ =~= before.with_slot(at as int, slot@));
        }
    }
}

impl FormFields for Form {
    type Rest = ();

    open spec fn shape(&self) -> FormView {
        self@
    }

    open spec fn rest(&self) -> () {
        ()
    }

    fn move_focus(&mut self, step: isize) {
        proof {
            lemma_wrap_in_range(self.focus as int, self.slots@.len() as int, step as int);
        }
        self.focus = step_index(self.focus, self.slots.len(), step);
    }

    fn focused(&mut self) -> (focused: Focused<'_>) {
        match &mut self.slots[self.focus] {
            Slot::Text(field) => Focused::Text(field),
            Slot::Date(date) => Focused::Date(date),
            Slot::Selector { .. } => Focused::Selector,
        }
    }

    fn caret(&self) -> (caret: Caret) {
        match &self.slots[self.focus] {
            Slot::Text(field) => Caret::in_field(field),
            Slot::Date(date) => Caret::in_field(date.text()),
            Slot::Selector { .. } => Caret::End,
        }
    }

    fn cycle(&mut self, step: Step) {
        let at: usize = self.focus;
        let ghost before = self@;
        match &self.slots[at] {
            Slot::Selector { index, len, .. } => {
                let next: usize = step_index(*index, *len, step.direction());
                let slot = Slot::Selector { index: next, len: *len, touched: true };
                self.set_slot(at, slot);
            },
            _ => {
                assert(before.with_current(before.current()) =~= before);
            },
        }
    }

    fn suggestion_prefix(&self) -> (prefix: Option<&str>) {
        match self.description {
            Some(at) => if at == self.focus {
                match &self.slots[at] {
                    Slot::Text(field) => Some(field.value()),
                    _ => None,
                }
            } else {
                None
            },
            None => None,
        }
    }

    fn apply_suggestion(&mut self, hit: &Suggestion) {
        self.describe(hit);
        self.price(hit);
        self.place(hit);
    }
}

/// A step along a ring goes to the place next to it, and from either end comes
/// round to the other.
pub proof fn a_step_goes_next_door(index: int, len: int)
    requires
        0 <= index < len,
    ensures
        index + 1 < len ==> wrapped(index, len, 1) == index + 1,
        index + 1 == len ==> wrapped(index, len, 1) == 0,
        index > 0 ==> wrapped(index, len, -1) == index - 1,
        index == 0 ==> wrapped(index, len, -1) == len - 1,
        wrapped(index, len, 0) == index,
        wrapped(0, 0, 1) == 0,
        wrapped(0, 0, -1) == 0,
{
    assert(index + 1 < len ==> (index + 1) % len == index + 1) by (nonlinear_arith)
        requires
            0 <= index < len,
    ;
    assert(len % len == 0) by (nonlinear_arith)
        requires
            len > 0,
    ;
    assert(index > 0 ==> (index - 1) % len == index - 1) by (nonlinear_arith)
        requires
            0 <= index < len,
    ;
    assert((-1int) % len == len - 1) by (nonlinear_arith)
        requires
            len > 0,
    ;
    assert(index % len == index) by (nonlinear_arith)
        requires
            0 <= index < len,
    ;
}

/// What stands once in an order is found at its own place.
pub proof fn a_place_is_where_it_stands<T: PartialEq>(order: Seq<T>, focus: T, at: int)
    requires
        0 <= at < order.len(),
        order[at].eq_spec(&focus),
        forall|i: int|
            0 <= i < order.len() && i != at ==> !(#[trigger] order[i]).eq_spec(&focus),
    ensures
        place_of(order, focus) == at,
{
    lemma_first_like(order, focus, at);
}

/// An accepted suggestion writes its description over what was typed, its
/// amount into an amount nobody touched, and its account into a choice nobody
/// touched; every other field, and every touched one, stays as it was.
pub proof fn a_suggestion_fills_what_was_not_touched(shape: FormView, hit: Suggestion, at: int)
    requires
        shape.valid(),
        0 <= at < shape.slots.len(),
        shape.description != shape.amount || shape.description is None,
        shape.account matches Some(account) ==> shape.description != Some(account.0)
            && shape.amount != Some(account.0),
    ensures
        ({
            let after = shape.suggested(hit);
            &&& after.slots.len() == shape.slots.len()
            &&& after.focus == shape.focus
            &&& (shape.description == Some(at) ==> (shape.slots[at] matches SlotView::Text(field)
                ==> (after.slots[at] matches SlotView::Text(filled) && filled.line.text
                == hit.description@ && filled.line.caret == hit.description@.len()
                && filled.touched == field.touched)))
            &&& (shape.amount == Some(at) ==> (shape.slots[at] matches SlotView::Text(field)
                ==> (after.slots[at] matches SlotView::Text(filled) && (if field.touched {
                filled == field
            } else {
                filled.line.text == figure(hit.cents) && !filled.touched
            }))))
            &&& (shape.account matches Some(account) ==> (account.0 == at ==> (
            shape.slots[at] matches SlotView::Selector { index, len, touched } ==> (
            after.slots[at] matches SlotView::Selector {
                index: chosen,
                len: among,
                touched: own,
            } && among == len && own == touched && (touched || !account.1.contains(hit.account_id)
                ==> chosen == index) && (!touched && account.1.contains(hit.account_id) ==> 0
                <= chosen < account.1.len() && account.1[chosen] == hit.account_id)))))
            &&& (shape.description != Some(at) && shape.amount != Some(at) && (
            shape.account matches Some(account) ==> account.0 != at) ==> after.slots[at]
                == shape.slots[at])
        }),
{
    if let Some(account) = shape.account {
        account.1.index_of_first_ensures(hit.account_id);
    }
}

/// An editing key changes the field under the caret and no other, and a field
/// no keystroke types into not even that.
pub proof fn a_key_edits_the_field_under_the_caret(shape: FormView, key: KeyEvent, at: int)
    requires
        shape.valid(),
        0 <= at < shape.slots.len(),
    ensures
        at != shape.focus ==> shape.edited(key).slots[at] == shape.slots[at],
        at == shape.focus ==> match shape.slots[at] {
            SlotView::Text(field) => shape.edited(key).slots[at] == SlotView::Text(
                field.edited(key),
            ),
            SlotView::Date(date) => shape.edited(key).slots[at] == SlotView::Date(
                date.edited(key),
            ),
            SlotView::Selector { .. } => shape.edited(key) == shape,
        },
        shape.edited(key).focus == shape.focus,
{
    assert(shape.with_current(shape.current()) =~= shape);
}

/// Suggestions are asked for while the caret is in a description with
/// something typed in it, and what is typed there is what they are asked for.
pub proof fn suggestions_are_asked_for_a_description(shape: FormView)
    requires
        shape.valid(),
    ensures
        shape.asks() <==> shape.description == Some(shape.focus) && (
        shape.slots[shape.focus] matches SlotView::Text(field) && field.line.text.len() > 0),
        shape.description != Some(shape.focus) ==> shape.prefix() is None,
        shape.description == Some(shape.focus) ==> (
        shape.slots[shape.focus] matches SlotView::Text(field) ==> shape.prefix() == Some(
            field.line.text,
        )),
{
}

} // verus!
