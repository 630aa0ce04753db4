//! The planning screen: the constants and bills behind the plan, the pin, and
//! where each line lands.

use crate::cursor::is_scroll;
use crate::destination::Choice;
use crate::field::FieldView;
use crate::form::SlotView;
use crate::ids::{BillId, GoalId};
use crate::key::{KeyCode, KeyEvent};
use crate::label::{words, Label};
use crate::money::{fits, sum, sums_fit, Cents};
use crate::plan_line::{Destination, Line};
use crate::posting::{amounts, shares_total};
use crate::said::{self, PieceView, Said};
use crate::search::{Listing, ListingView, Sought, Unfiltered};
use crate::text::{trim, trimmed};
use crate::value_form::{ValueForm, ValueFormView};
use vstd::prelude::*;
use vstd::string::*;

verus! {

/// A constant of the plan, by what it is an amount of.
#[derive(Copy, Clone, Debug, PartialEq, Eq, Structural)]
pub enum Target {
    /// A bill's amount.
    Bill(BillId),
    /// A setting that is an amount of money.
    Money(i64),
    /// A setting that is a percentage or a count.
    Plain(i64),
}

impl Target {
    pub open spec fn money(self) -> bool {
        !(self is Plain)
    }

    pub fn is_money(self) -> (money: bool)
        ensures
            money == self.money(),
    {
        match self {
            Target::Plain(_) => false,
            _ => true,
        }
    }
}

/// What `e` edits on a row.
#[derive(Copy, Clone, Debug, PartialEq, Eq, Structural)]
pub enum Editable {
    /// A constant, which is typed.
    Constant(Target),
    /// Where a line lands, which is chosen.
    Destination(Line),
}

/// A row the cursor can rest on: one that carries something to edit.
#[derive(Debug)]
pub struct PlanRow {
    pub label: String,
    /// What the row's editor opens on.
    pub edit: String,
    pub editable: Editable,
}

impl Sought for PlanRow {
    type Filter = Unfiltered;

    /// Nothing narrows this list.
    open spec fn found(&self, filter: Unfiltered, needle: Seq<char>) -> bool {
        true
    }

    fn is_found(&self, filter: Unfiltered, needle: &str) -> (found: bool) {
        true
    }
}

/// What a key on the screen asks for.
#[derive(Copy, Clone, Debug, PartialEq, Eq, Structural)]
pub enum PlanningVerb {
    Answered,
    EditValue,
    AddBill,
    EditBill,
    DeleteBill,
    Pin,
    Unpin,
    Transfers,
    Details,
}

/// What a key asks for, once it was none that moves the cursor.
pub open spec fn operator(code: KeyCode) -> PlanningVerb {
    if code == KeyCode::Char('e') {
        PlanningVerb::EditValue
    } else if code == KeyCode::Char('a') {
        PlanningVerb::AddBill
    } else if code == KeyCode::Char('E') {
        PlanningVerb::EditBill
    } else if code == KeyCode::Char('d') {
        PlanningVerb::DeleteBill
    } else if code == KeyCode::Char('p') {
        PlanningVerb::Pin
    } else if code == KeyCode::Char('P') {
        PlanningVerb::Unpin
    } else if code == KeyCode::Char('t') {
        PlanningVerb::Transfers
    } else if code is Enter {
        PlanningVerb::Details
    } else {
        PlanningVerb::Answered
    }
}

/// The rows, and what the plan behind them came to.
#[derive(Debug)]
pub struct Planning {
    list: Listing<PlanRow>,
    /// Why there is no plan, where there is none.
    message: Option<String>,
    pinned: bool,
    /// What is left over, as the plan last computed it.
    excess: Cents,
    /// Why the transfers do not resolve, where they do not.
    detail: Vec<String>,
    /// What the goals the plug spreads over ask together.
    asked: Cents,
}

/// What a [`Planning`] stands for.
pub struct PlanningView {
    pub list: ListingView<PlanRow>,
    pub message: Option<Seq<char>>,
    pub pinned: bool,
    pub excess: Cents,
    pub detail: Seq<String>,
    pub asked: Cents,
}

impl PlanningView {
    pub open spec fn with_list(self, list: ListingView<PlanRow>) -> PlanningView {
        PlanningView { list, ..self }
    }

    /// The screen before anything has been computed.
    pub open spec fn blank() -> PlanningView {
        PlanningView {
            list: ListingView::fresh(Seq::empty(), Unfiltered),
            message: None,
            pinned: false,
            excess: Cents(0),
            detail: Seq::empty(),
            asked: Cents(0),
        }
    }

    /// The bill under the cursor, where it is on one.
    pub open spec fn bill(self) -> Option<BillId> {
        match self.list.chosen() {
            Some(row) => match row.editable {
                Editable::Constant(Target::Bill(id)) => Some(id),
                _ => None,
            },
            None => None,
        }
    }

    /// What is left over, down to the dollar.
    pub open spec fn floor(self) -> int {
        100 * (self.excess.0 as int / 100)
    }

    /// What a key leaves of the screen, and what it asks for.
    pub open spec fn pressed(self, key: KeyEvent) -> (PlanningView, PlanningVerb) {
        (
            self.with_list(self.list.scrolled(key.code)),
            if is_scroll(key.code) {
                PlanningVerb::Answered
            } else {
                operator(key.code)
            },
        )
    }

    /// The words a pin is reported in: named apart where it replaced one.
    pub open spec fn pin_words(self) -> Seq<PieceView> {
        said::words(
            if self.pinned {
                "re-pinned "@
            } else {
                "pinned "@
            },
        ) + said::amount(Cents(self.floor() as i64))
    }
}

impl View for Planning {
    type V = PlanningView;

    closed spec fn view(&self) -> PlanningView {
        PlanningView {
            list: self.list@,
            message: match self.message {
                Some(text) => Some(text@),
                None => None,
            },
            pinned: self.pinned,
            excess: self.excess,
            detail: self.detail@,
            asked: self.asked,
        }
    }
}

/// What the plan came to, for the screen to show.
#[derive(Debug)]
pub struct Plan {
    pub rows: Vec<PlanRow>,
    pub pinned: bool,
    pub excess: Cents,
    pub detail: Vec<String>,
    /// What the goals the plug spreads over ask together.
    pub asked: Cents,
}

impl Planning {
    pub fn new() -> (planning: Planning)
        ensures
            planning@ == PlanningView::blank(),
            planning@.list.settled(),
    {
        let rows: Vec<PlanRow> = Vec::new();
        let detail: Vec<String> = Vec::new();
        proof {
            assert(rows@ =~= Seq::empty());
            assert(detail@ =~= Seq::empty());
        }
        Planning {
            list: Listing::new(rows, Unfiltered),
            message: None,
            pinned: false,
            excess: Cents(0),
            detail,
            asked: Cents::zero(),
        }
    }

    pub fn list(&self) -> (list: &Listing<PlanRow>)
        ensures
            list@ == self@.list,
    {
        &self.list
    }

    pub fn list_mut(&mut self) -> (list: &mut Listing<PlanRow>)
        ensures
            list@ == old(self)@.list,
            final(self)@ == old(self)@.with_list(final(list)@),
    {
        &mut self.list
    }

    pub fn is_pinned(&self) -> (pinned: bool)
        ensures
            pinned == self@.pinned,
    {
        self.pinned
    }

    pub fn excess(&self) -> (excess: Cents)
        ensures
            excess == self@.excess,
    {
        self.excess
    }

    pub fn has_message(&self) -> (has: bool)
        ensures
            has == self@.message is Some,
    {
        match &self.message {
            Some(_) => true,
            None => false,
        }
    }

    pub fn detail(&self) -> (detail: &Vec<String>)
        ensures
            detail@ == self@.detail,
    {
        &self.detail
    }

    /// Show a plan that was computed.
    pub fn set_view(&mut self, plan: Plan)
        ensures
            final(self)@ == (PlanningView {
                list: old(self)@.list.refilled(plan.rows@),
                message: None,
                pinned: plan.pinned,
                excess: plan.excess,
                detail: plan.detail@,
                asked: plan.asked,
            }),
    {
        self.list.set_rows(plan.rows);
        self.message = None;
        self.pinned = plan.pinned;
        self.excess = plan.excess;
        self.detail = plan.detail;
        self.asked = plan.asked;
    }

    /// What the goals the plug spreads over ask together.
    pub fn asked(&self) -> (asked: Cents)
        ensures
            asked == self@.asked,
    {
        self.asked
    }

    /// Say why there is no plan, leaving what the last one came to: every
    /// other screen still works.
    pub fn set_unavailable(&mut self, why: String)
        ensures
            final(self)@ == (PlanningView { message: Some(why@), ..old(self)@ }),
    {
        self.message = Some(why);
    }

    /// The row under the cursor.
    pub fn selected(&self) -> (row: Option<&PlanRow>)
        requires
            self@.list.settled(),
        ensures
            match row {
                Some(row) => self@.list.chosen() == Some(*row),
                None => self@.list.chosen() is None,
            },
    {
        self.list.selected()
    }

    /// The bill under the cursor, where it is on one.
    pub fn selected_bill(&self) -> (id: Option<BillId>)
        requires
            self@.list.settled(),
        ensures
            id == self@.bill(),
    {
        match self.list.selected() {
            Some(row) => match row.editable {
                Editable::Constant(Target::Bill(id)) => Some(id),
                _ => None,
            },
            None => None,
        }
    }

    /// Every key on the screen.
    pub fn planning_key(&mut self, key: KeyEvent) -> (verb: PlanningVerb)
        ensures
            (final(self)@, verb) == old(self)@.pressed(key),
    {
        if self.list.scroll(key.code) {
            return PlanningVerb::Answered;
        }
        match key.code {
            KeyCode::Char('e') => PlanningVerb::EditValue,
            KeyCode::Char('a') => PlanningVerb::AddBill,
            KeyCode::Char('E') => PlanningVerb::EditBill,
            KeyCode::Char('d') => PlanningVerb::DeleteBill,
            KeyCode::Char('p') => PlanningVerb::Pin,
            KeyCode::Char('P') => PlanningVerb::Unpin,
            KeyCode::Char('t') => PlanningVerb::Transfers,
            KeyCode::Enter => PlanningVerb::Details,
            _ => PlanningVerb::Answered,
        }
    }

    /// What `p` freezes, and what it says: the excess at its whole-dollar
    /// floor. Nothing, where there is no live plan -- the figure held then
    /// belongs to a plan the screen has just said it cannot compute -- and
    /// nothing where the floor would not fit.
    ///
    /// It always pins, over a pin already there: the press that follows a
    /// forgotten pin is the next payday's.
    pub fn pin(&self) -> (pinned: Option<(Cents, Said)>)
        ensures
            match pinned {
                Some((cents, status)) => self@.message is None && cents.0 == self@.floor()
                    && status@ == self@.pin_words(),
                None => self@.message is Some || !fits(self@.floor()),
            },
    {
        if self.has_message() {
            return None;
        }
        let wide: i128 = self.excess.0 as i128;
        let part: i128 = wide % 100;
        let down: i128 = if part < 0 {
            wide - part - 100
        } else {
            wide - part
        };
        if down < i64::MIN as i128 {
            return None;
        }
        let floor: Cents = self.excess.floor_to_dollar();
        let verb: &str = if self.pinned {
            "re-pinned "
        } else {
            "pinned "
        };
        Some((floor, Said::of(verb).amount(floor)))
    }
}

/// What the goals the plug spreads over ask of a paycheck together, where
/// that fits.
///
/// Asks that could not be read come to nothing, which draws no row: the gap
/// is an annotation, and the rest of the screen is still right without it.
pub fn spread_ask_total(asks: &Result<Vec<(GoalId, Cents)>, String>) -> (all: Option<Cents>)
    ensures
        match (asks, all) {
            (Err(_), _) => all == Some(Cents(0)),
            (Ok(asks), Some(all)) => sums_fit(amounts(asks@)) && all.0 == sum(amounts(asks@)),
            (Ok(asks), None) => !sums_fit(amounts(asks@)),
        },
{
    match asks {
        Ok(asks) => shares_total(asks),
        Err(_) => Some(Cents::zero()),
    }
}

/// The form a constant is typed into.
pub open spec fn value_form_of(row: PlanRow, target: Target) -> ValueFormView {
    ValueFormView {
        label: seq![words(trimmed(row.label@))],
        slot: SlotView::Text(FieldView::own(row.edit@)),
        money: target.money(),
    }
}

/// The form `row`'s constant is typed into: a percentage and a count of pay
/// periods open the same form an amount does, and only the last is money.
pub fn value_form(row: &PlanRow, target: Target) -> (form: ValueForm)
    ensures
        form@ == value_form_of(*row, target),
{
    let label = Label::plain(trim(row.label.as_str()));
    if target.is_money() {
        ValueForm::money(label, row.edit.as_str())
    } else {
        ValueForm::new(label, row.edit.as_str())
    }
}

/// The words a saved constant is reported in.
pub open spec fn saved_words(label: Seq<char>) -> Seq<PieceView> {
    said::words(trimmed(label)) + said::words(" saved"@)
}

/// What the status line says of a constant that was written.
pub fn saved_status(label: &str) -> (status: Said)
    ensures
        status@ == saved_words(label@),
{
    Said::of(trim(label)).words(" saved")
}

/// A label and an amount, with `between` between them.
pub open spec fn priced_words(label: Seq<char>, between: Seq<char>, cents: Cents) -> Seq<
    PieceView,
> {
    said::name(label) + said::words(between) + said::amount(cents)
}

/// What the status line says of a bill that was written.
pub fn bill_status(label: &str, cents: Cents) -> (status: Said)
    ensures
        status@ == priced_words(label@, " "@, cents),
{
    Said::of_name(label).words(" ").amount(cents)
}

/// A bill as the question about deleting it names it.
pub fn bill_label(label: &str, cents: Cents) -> (named: Said)
    ensures
        named@ == priced_words(label@, "  "@, cents),
{
    Said::of_name(label).words("  ").amount(cents)
}

/// What choosing a row of the destination list comes to: the goal the line is
/// pointed at, or none, and the words that say so. Nothing where no row is
/// chosen or the line lands on no goal.
pub open spec fn pointed_words(line: Line, choice: Choice) -> (Option<GoalId>, Seq<PieceView>) {
    match choice {
        Choice::Unset => (
            None,
            said::words(line.word()) + said::words(" now leaves the tracked system"@),
        ),
        Choice::Goal { id, name, .. } => (
            Some(id),
            said::words(line.word()) + said::words(" → "@) + said::name(name@),
        ),
    }
}

/// What choosing a row of the destination list comes to.
///
/// The id, never the name: goal names are not unique, and what was picked is
/// a specific row.
pub fn point(line: Line, choice: &Choice) -> (pointed: (Option<GoalId>, Said))
    ensures
        (pointed.0, pointed.1@) == pointed_words(line, *choice),
{
    let status = Said::of(line.label());
    match choice {
        Choice::Unset => (None, status.words(" now leaves the tracked system")),
        Choice::Goal { id, name, .. } => (Some(*id), status.words(" → ").name(name)),
    }
}

/// The words that refuse to point a line with no goal to point.
pub open spec fn unpointable(line: Line) -> Seq<char> {
    line.word() + " holds no goal to point"@
}

/// What the status line says of a line with no goal to point.
pub fn unpointable_status(line: Line) -> (status: String)
    ensures
        status@ == unpointable(line),
{
    let mut status: String = line.label().to_owned();
    status.append(" holds no goal to point");
    status
}

/// A pin never goes above what is left over, and is within a dollar of it.
pub proof fn a_pin_is_the_whole_dollars_left_over(planning: PlanningView)
    ensures
        planning.floor() <= planning.excess.0 < planning.floor() + 100,
        planning.floor() % 100 == 0,
{
}

/// Whatever key is pressed, the cursor is on a row while there are any.
pub proof fn the_planning_stays_settled(planning: PlanningView, key: KeyEvent)
    requires
        planning.list.settled(),
    ensures
        planning.pressed(key).0.list.settled(),
{
}

/// Pointing a line names the goal chosen, by its id, and the withdrawal names
/// none.
pub proof fn a_line_is_pointed_at_what_was_chosen(line: Line, choice: Choice)
    ensures
        choice is Unset ==> pointed_words(line, choice).0 is None,
        choice matches Choice::Goal { id, .. } ==> pointed_words(line, choice).0 == Some(id),
{
}

/// A constant is typed over the text its row carries, as money wherever it is
/// an amount.
pub proof fn a_constant_is_typed_over_what_it_was(row: PlanRow, target: Target)
    ensures
        crate::value_form::slot_text(value_form_of(row, target).slot) == row.edit@,
        value_form_of(row, target).money <==> !(target is Plain),
{
}

/// A bill is under the cursor exactly where the row there is a bill's amount.
pub proof fn only_a_bills_row_is_a_bill(planning: PlanningView, id: BillId)
    requires
        planning.list.settled(),
    ensures
        planning.bill() == Some(id) <==> planning.list.visible.len() > 0
            && planning.list.rows[planning.list.visible[planning.list.cursor.index]].editable
            == Editable::Constant(Target::Bill(id)),
{
}

/// A pin says whether it was the first or another, and the amount pinned.
pub proof fn a_pin_says_what_was_pinned(planning: PlanningView)
    ensures
        planning.pinned ==> planning.pin_words() == said::words("re-pinned "@) + said::amount(
            Cents(planning.floor() as i64),
        ),
        !planning.pinned ==> planning.pin_words() == said::words("pinned "@) + said::amount(
            Cents(planning.floor() as i64),
        ),
{
}

} // verus!
