//! The fields every form is built out of: a line of text, and a date.

use crate::date::{a_written_date_is_digits_and_dashes, is_date_char, iso_reading, Date, DateView};
use crate::fault::{Fault, FaultView};
use crate::key::KeyEvent;
use crate::step::{Step, StepView};
use crate::text::{
    edit_key, edit_of, nothing_to_trim, read_u32, reads_unsigned, same_text, trim, trimmed,
    trimming_twice_is_trimming_once, Edit, TextBuffer, TextView,
};
use vstd::prelude::*;
use vstd::string::*;

verus! {

/// One text input: its buffer, and whether the user has typed into it.
///
/// `touched` is the whole reason this is a type rather than a `String`. An
/// accepted suggestion fills the fields the user has not touched and leaves
/// the rest alone.
#[derive(Debug)]
pub struct Field {
    text: TextBuffer,
    touched: bool,
}

/// What a [`Field`] stands for.
pub struct FieldView {
    pub line: TextView,
    pub touched: bool,
}

impl FieldView {
    pub open spec fn untouched(text: Seq<char>) -> FieldView {
        FieldView { line: TextView::holding(text), touched: false }
    }

    pub open spec fn own(text: Seq<char>) -> FieldView {
        FieldView { line: TextView::holding(text), touched: true }
    }

    pub open spec fn edited(self, key: KeyEvent) -> FieldView {
        FieldView {
            line: self.line.edited(key),
            touched: self.touched || edit_of(self.line, key) == Edit::Changed,
        }
    }

    pub open spec fn caret_stepped(self, step: StepView) -> FieldView {
        FieldView { line: self.line.stepped(step.direction()), ..self }
    }
}

impl View for Field {
    type V = FieldView;

    closed spec fn view(&self) -> FieldView {
        FieldView { line: self.text@, touched: self.touched }
    }
}

impl Clone for Field {
    fn clone(&self) -> (copy: Field)
        ensures
            copy@ == self@,
    {
        Field { text: self.text.clone(), touched: self.touched }
    }
}

impl Default for Field {
    fn default() -> (field: Field)
        ensures
            field@ == FieldView::untouched(Seq::empty()),
    {
        Field { text: TextBuffer::new(), touched: false }
    }
}

impl Field {
    /// A prefilled, untouched field: a suggestion may still overwrite it.
    pub fn prefilled(value: &str) -> (field: Field)
        ensures
            field@ == FieldView::untouched(value@),
    {
        Field { text: TextBuffer::holding(value), touched: false }
    }

    /// A prefilled field that counts as the user's own, so a suggestion
    /// leaves it alone. Editing an existing row uses this: its amount is a
    /// real figure the user can see and did not ask to change.
    pub fn given(value: &str) -> (field: Field)
        ensures
            field@ == FieldView::own(value@),
    {
        Field { text: TextBuffer::holding(value), touched: true }
    }

    pub fn value(&self) -> (value: &str)
        ensures
            value@ == self@.line.text,
            self@.line.valid(),
    {
        self.text.value()
    }

    /// Answer an editing key, and report what it did.
    ///
    /// **A change counts as typing and a motion does not**: an amount cleared
    /// with `Ctrl`+`U` is the user's own empty field, while a caret moved
    /// across a prefill leaves it a prefill a suggestion may still overwrite.
    pub fn edit(&mut self, key: KeyEvent) -> (edit: Edit)
        ensures
            final(self)@ == old(self)@.edited(key),
            edit == edit_of(old(self)@.line, key),
    {
        let edit = edit_key(&mut self.text, key);
        if edit == Edit::Changed {
            self.touched = true;
        }
        edit
    }

    /// Move the caret one character: what the arrows mean in a text field,
    /// where a date field reads them as a day and a selector as a choice.
    pub fn step_caret(&mut self, step: Step)
        ensures
            final(self)@ == old(self)@.caret_stepped(step@),
    {
        self.text.step(step.direction());
    }

    pub fn push(&mut self, c: char)
        ensures
            final(self)@ == (FieldView { line: old(self)@.line.inserted(c), touched: true }),
    {
        self.text.insert(c);
        self.touched = true;
    }

    pub fn backspace(&mut self)
        ensures
            final(self)@ == (FieldView { line: old(self)@.line.rubbed_out(), touched: true }),
    {
        self.text.backspace();
        self.touched = true;
    }

    /// Replace the contents without marking the field touched: how a
    /// suggestion fills a field.
    pub fn fill(&mut self, value: &str)
        ensures
            final(self)@ == (FieldView { line: TextView::holding(value@), ..old(self)@ }),
    {
        self.text.set(value);
    }

    /// Replace the contents so that they count as the user's own, the same as
    /// having typed them. What an arrow-stepped date is written back with.
    pub fn retype(&mut self, value: &str)
        ensures
            final(self)@ == FieldView::own(value@),
    {
        self.text.set(value);
        self.touched = true;
    }

    /// Whether the user has typed into this field. An empty field is not the
    /// same thing: an amount typed and then deleted is still the user's.
    pub fn is_touched(&self) -> (touched: bool)
        ensures
            touched == self@.touched,
    {
        self.touched
    }
}

/// How a text reads as a date in the format dates are stored in.
pub open spec fn date_reading(raw: Seq<char>) -> Result<DateView, FaultView> {
    match iso_reading(trimmed(raw)) {
        Ok((year, month, day)) => Ok(DateView { year, month, day }),
        Err(why) => Err(FaultView::NotIso { text: trimmed(raw), why }),
    }
}

/// Whether what a reader returned is what the text reads as.
pub open spec fn dated(returned: Result<Date, Fault>, reading: Result<DateView, FaultView>) -> bool {
    match returned {
        Ok(date) => reading == Ok::<DateView, FaultView>(date@) && date@.valid(),
        Err(fault) => reading == Err::<DateView, FaultView>(fault@),
    }
}

/// Dates are typed in the format they are stored in.
pub fn parse_date(raw: &str) -> (read: Result<Date, Fault>)
    ensures
        dated(read, date_reading(raw@)),
        forall|date: DateView|
            #![trigger date.iso()]
            date.valid() && trimmed(raw@) == date.iso() ==> date_reading(raw@) == Ok::<
                DateView,
                FaultView,
            >(date),
        trimmed(raw@).len() == 0 ==> date_reading(raw@) is Err,
        trimmed(raw@).contains('/') ==> date_reading(raw@) is Err,
{
    let text = trim(raw);
    match Date::read_iso(text) {
        Ok(date) => Ok(date),
        Err(why) => Err(Fault::NotIso { text: text.to_owned(), why }),
    }
}

/// How many characters of `text` come before its first slash.
pub open spec fn slash_in(text: Seq<char>) -> int
    decreases text.len(),
{
    if text.len() == 0 || text[0] == '/' {
        0
    } else {
        1 + slash_in(text.drop_first())
    }
}

/// The year a month typed on its own falls in: this one while the month is
/// not behind, and the next once it is.
pub open spec fn year_of(month: int, today: DateView) -> int {
    if month >= today.month {
        today.year
    } else {
        today.year + 1
    }
}

/// How a text reads as a month and a day, taking the next year that month
/// occurs in.
pub open spec fn shorthand_reading(raw: Seq<char>, today: DateView) -> Result<DateView, FaultView> {
    let text = trimmed(raw);
    let slash = slash_in(text);
    let month = reads_unsigned(trimmed(text.take(slash)), u32::MAX as int);
    let day = reads_unsigned(trimmed(text.skip(slash + 1)), u32::MAX as int);
    match (month, day) {
        (Some(month), Some(day)) => {
            let date = DateView { year: year_of(month, today), month, day };
            if slash == text.len() {
                Err(FaultView::NotShorthand { text })
            } else if date.valid() {
                Ok(date)
            } else {
                Err(FaultView::NoSuchDate { text })
            }
        },
        _ => Err(FaultView::NotShorthand { text }),
    }
}

proof fn lemma_slash_in(text: Seq<char>, at: int)
    requires
        0 <= at <= text.len(),
        forall|i: int| 0 <= i < at ==> #[trigger] text[i] != '/',
        at < text.len() ==> text[at] == '/',
    ensures
        slash_in(text) == at,
    decreases at,
{
    if at > 0 {
        assert(text[0] != '/');
        assert forall|i: int| 0 <= i < at - 1 implies #[trigger] text.drop_first()[i] != '/' by {
            assert(text.drop_first()[i] == text[i + 1]);
        }
        lemma_slash_in(text.drop_first(), at - 1);
    }
}

/// Where the first slash of a text is, and its length where it has none.
fn find_slash(text: &str) -> (at: usize)
    ensures
        at == slash_in(text@),
        at <= text@.len(),
        at < text@.len() <==> text@.contains('/'),
{
    let len: usize = text.unicode_len();
    let mut at: usize = 0;
    while at < len && text.get_char(at) != '/'
        invariant
            at <= len,
            len == text@.len(),
            forall|i: int| 0 <= i < at ==> #[trigger] text@[i] != '/',
        ensures
            at < len ==> text@[at as int] == '/',
        decreases len - at,
    {
        at = at + 1;
    }
    proof {
        lemma_slash_in(text@, at as int);
        if at < len {
            assert(text@[at as int] == '/');
        }
    }
    at
}

/// A month and a day, taking the next year that month occurs in.
///
/// The year turns on the **month** alone, never on the whole date: `8/1`
/// typed in August is the first of this August, a fortnight back, rather than
/// next year's. Backdating a row a week or two is the commonest thing the
/// shorthand is typed for, while a month already behind has no reading but
/// the year ahead.
pub fn parse_shorthand(raw: &str, today: Date) -> (read: Result<Date, Fault>)
    ensures
        dated(read, shorthand_reading(raw@, today@)),
{
    let text = trim(raw);
    let len: usize = text.unicode_len();
    let slash: usize = find_slash(text);
    if slash == len {
        return Err(Fault::NotShorthand { text: text.to_owned() });
    }
    let before = text.substring_char(0, slash);
    let after = text.substring_char(slash + 1, len);
    proof {
        assert(before@ =~= text@.take(slash as int));
        assert(after@ =~= text@.skip(slash + 1));
    }
    match (read_u32(trim(before)), read_u32(trim(after))) {
        (Some(month), Some(day)) => {
            let year: i32 = if month >= today.month() {
                today.year()
            } else {
                today.year() + 1
            };
            match Date::from_ymd(year, month, day) {
                Some(date) => Ok(date),
                None => Err(Fault::NoSuchDate { text: text.to_owned() }),
            }
        },
        _ => Err(Fault::NotShorthand { text: text.to_owned() }),
    }
}

/// A date field: the text, and how that text is read back as a date.
///
/// A date is the one kind of field whose reading depends on *when* it is
/// being typed. Pairing the two here means the buffer and the reading cannot
/// come apart.
#[derive(Debug)]
pub struct DateField {
    field: Field,
    /// The day the `M/D` shorthand resolves against. `None` is a field that
    /// takes `YYYY-MM-DD` and nothing else: a birth date has no
    /// present-or-future reading, so a shorthand there could only ever land
    /// decades wrong in silence.
    shorthand_from: Option<Date>,
}

/// What a [`DateField`] stands for.
pub struct DateFieldView {
    pub field: FieldView,
    pub shorthand_from: Option<DateView>,
}

impl DateFieldView {
    /// A field opening on `date`, with `today` to read a shorthand against.
    pub open spec fn on(today: DateView, date: DateView) -> DateFieldView {
        DateFieldView { field: FieldView::untouched(date.iso()), shorthand_from: Some(today) }
    }

    pub open spec fn raw(self) -> Seq<char> {
        trimmed(self.field.line.text)
    }

    /// The date the field holds, or what is wrong with its text.
    pub open spec fn reading(self) -> Result<DateView, FaultView> {
        match self.shorthand_from {
            Some(today) => if self.raw().contains('/') {
                shorthand_reading(self.raw(), today)
            } else {
                date_reading(self.raw())
            },
            None => date_reading(self.raw()),
        }
    }

    /// What the field shows: the text as typed under the caret, and the date
    /// that text means once the caret leaves.
    pub open spec fn shown(self, focused: bool) -> Seq<char> {
        match self.reading() {
            Ok(date) => if focused {
                self.field.line.text
            } else {
                date.iso()
            },
            Err(_) => self.field.line.text,
        }
    }

    /// The date the field means, where the text does not already say it.
    pub open spec fn meant(self) -> Option<Seq<char>> {
        match self.reading() {
            Ok(date) => if date.iso() != self.raw() {
                Some(date.iso())
            } else {
                None
            },
            Err(_) => None,
        }
    }

    /// The field a step later: rewritten as the date it then means, and left
    /// alone where it holds no date or the calendar runs out.
    pub open spec fn stepped(self, step: StepView) -> DateFieldView {
        match self.reading() {
            Ok(date) => self.stepped_from(date, step),
            Err(_) => self,
        }
    }

    /// The field a step later, where it holds `date`.
    pub open spec fn stepped_from(self, date: DateView, step: StepView) -> DateFieldView {
        match step.from(date) {
            Some(to) => DateFieldView { field: FieldView::own(to.iso()), ..self },
            None => self,
        }
    }

    pub open spec fn edited(self, key: KeyEvent) -> DateFieldView {
        DateFieldView { field: self.field.edited(key), ..self }
    }
}

pub open spec fn view_of(date: Option<Date>) -> Option<DateView> {
    match date {
        Some(date) => Some(date@),
        None => None,
    }
}

impl View for DateField {
    type V = DateFieldView;

    closed spec fn view(&self) -> DateFieldView {
        DateFieldView { field: self.field@, shorthand_from: view_of(self.shorthand_from) }
    }
}

impl Clone for DateField {
    fn clone(&self) -> (copy: DateField)
        ensures
            copy@ == self@,
    {
        DateField { field: self.field.clone(), shorthand_from: self.shorthand_from }
    }
}

impl DateField {
    /// A field opened on `date`, untouched, so a suggestion may still move it.
    pub fn on(today: Date, date: Date) -> (field: DateField)
        ensures
            field@ == DateFieldView::on(today@, date@),
            date@.valid(),
    {
        DateField { field: Field::prefilled(date.iso().as_str()), shorthand_from: Some(today) }
    }

    /// A field opened on today, which is what almost every form's date does.
    pub fn today(today: Date) -> (field: DateField)
        ensures
            field@ == (DateFieldView {
                field: FieldView::untouched(today@.iso()),
                shorthand_from: Some(today@),
            }),
            today@.valid(),
    {
        DateField::on(today, today)
    }

    /// A blank field, for the dates where blank means something in its own
    /// right: an undated goal, and a recurring transaction that does not end.
    pub fn blank(today: Date) -> (field: DateField)
        ensures
            field@ == (DateFieldView {
                field: FieldView::untouched(Seq::empty()),
                shorthand_from: Some(today@),
            }),
    {
        DateField { field: Field::default(), shorthand_from: Some(today) }
    }

    /// An existing row's date, which counts as the user's own. `None` is the
    /// blank that row already carried.
    pub fn given(today: Date, date: Option<Date>) -> (field: DateField)
        ensures
            field@ == (DateFieldView {
                field: FieldView::own(
                    match date {
                        Some(date) => date@.iso(),
                        None => Seq::empty(),
                    },
                ),
                shorthand_from: Some(today@),
            }),
            date is Some ==> date->0@.valid(),
    {
        let text: String = match date {
            Some(date) => date.iso(),
            None => String::new(),
        };
        DateField { field: Field::given(text.as_str()), shorthand_from: Some(today) }
    }

    /// A field that takes `YYYY-MM-DD` and nothing else. It needs no `today`,
    /// which is the distinction made visible: the shorthand is the reading
    /// that depends on when you are.
    pub fn iso_only(prefill: &str) -> (field: DateField)
        ensures
            field@ == (DateFieldView { field: FieldView::own(prefill@), shorthand_from: None }),
    {
        DateField { field: Field::given(prefill), shorthand_from: None }
    }

    pub fn value(&self) -> (value: &str)
        ensures
            value@ == self@.field.line.text,
            self@.field.line.valid(),
    {
        self.field.value()
    }

    /// What the field shows: the text as typed while the caret is in it, and
    /// the date that text means once the caret leaves.
    ///
    /// Computed rather than written back, so a half-typed date is never
    /// rewritten under the cursor by the keystroke still finishing it.
    pub fn display(&self, focused: bool) -> (text: String)
        ensures
            text@ == self@.shown(focused),
    {
        match self.parse() {
            Ok(date) if !focused => date.iso(),
            _ => self.field.value().to_owned(),
        }
    }

    pub fn push(&mut self, c: char)
        ensures
            final(self)@ == (DateFieldView {
                field: FieldView { line: old(self)@.field.line.inserted(c), touched: true },
                ..old(self)@
            }),
    {
        self.field.push(c);
    }

    pub fn backspace(&mut self)
        ensures
            final(self)@ == (DateFieldView {
                field: FieldView { line: old(self)@.field.line.rubbed_out(), touched: true },
                ..old(self)@
            }),
    {
        self.field.backspace();
    }

    /// Answer an editing key over the text, exactly as a plain field does.
    /// What the arrows mean is where the two part company: a date steps.
    pub fn edit(&mut self, key: KeyEvent) -> (edit: Edit)
        ensures
            final(self)@ == old(self)@.edited(key),
            edit == edit_of(old(self)@.field.line, key),
    {
        self.field.edit(key)
    }

    /// The buffer under the date, for the draw that has to place its caret.
    pub fn text(&self) -> (field: &Field)
        ensures
            field@ == self@.field,
    {
        &self.field
    }

    /// Step the date by `step`, rewriting it as the date it now means.
    ///
    /// A field holding something that is not a date is left exactly as it
    /// was: the keys are a nudge on a date already there, not a way to
    /// conjure one. The step counts as the user's own, the same as a
    /// keystroke.
    pub fn step(&mut self, step: Step)
        ensures
            final(self)@ == old(self)@.stepped(step@),
            forall|date: DateView|
                #![trigger date.iso()]
                date.valid() && old(self)@.field.line.text == date.iso() ==> final(self)@
                    == old(self)@.stepped_from(date, step@),
            old(self)@.raw().len() == 0 ==> final(self)@ == old(self)@,
    {
        match self.parse() {
            Ok(date) => match step.apply(date) {
                Some(stepped) => self.field.retype(stepped.iso().as_str()),
                None => {},
            },
            Err(_) => {},
        }
    }

    /// The date this field means, when the text does not already say it: what
    /// a single-field modal shows beside the field.
    pub fn resolved(&self) -> (text: Option<String>)
        ensures
            match text {
                Some(text) => self@.meant() == Some(text@),
                None => self@.meant() is None,
            },
    {
        match self.parse() {
            Ok(date) => {
                let text = date.iso();
                if same_text(text.as_str(), trim(self.field.value())) {
                    None
                } else {
                    Some(text)
                }
            },
            Err(_) => None,
        }
    }

    /// The date this field holds, or the fault naming the text that would not
    /// parse.
    pub fn parse(&self) -> (read: Result<Date, Fault>)
        ensures
            dated(read, self@.reading()),
            forall|date: DateView|
                #![trigger date.iso()]
                date.valid() && self@.field.line.text == date.iso() ==> self@.reading() == Ok::<
                    DateView,
                    FaultView,
                >(date),
            self@.raw().len() == 0 ==> self@.reading() is Err,
            self@.shorthand_from is None && self@.raw().contains('/') ==> self@.reading() is Err,
    {
        let raw = trim(self.field.value());
        let slash: usize = find_slash(raw);
        proof {
            trimming_twice_is_trimming_once(self@.field.line.text);
            assert forall|date: DateView|
                #![trigger date.iso()]
                date.valid() && self@.field.line.text == date.iso() implies self@.raw()
                == date.iso() && !self@.raw().contains('/') by {
                a_stored_date_reads_the_same_in_every_field(self@, date);
                no_slash_in_a_date(date);
            }
        }
        match self.shorthand_from {
            Some(today) if slash < raw.unicode_len() => parse_shorthand(raw, today),
            _ => parse_date(raw),
        }
    }

    /// The same, where blank is a supported answer rather than a refusal: an
    /// undated goal, a rule that does not end.
    pub fn parse_opt(&self) -> (read: Result<Option<Date>, Fault>)
        ensures
            match read {
                Ok(None) => self@.raw().len() == 0,
                Ok(Some(date)) => self@.raw().len() > 0 && dated(Ok(date), self@.reading()),
                Err(fault) => self@.raw().len() > 0 && dated(Err(fault), self@.reading()),
            },
    {
        if trim(self.field.value()).unicode_len() == 0 {
            return Ok(None);
        }
        match self.parse() {
            Ok(date) => Ok(Some(date)),
            Err(fault) => Err(fault),
        }
    }
}

/// Where a focused field draws its caret.
///
/// [`Caret::In`] is the answer for a field with a buffer behind it and
/// [`Caret::End`] for a selector, which has none: its text is the choice
/// itself, and the caret goes past it.
#[derive(Debug)]
pub enum Caret {
    End,
    /// `at` characters into `text`, which is what the buffer held when the
    /// draw asked.
    In { at: usize, text: String },
}

/// What a [`Caret`] stands for.
pub enum CaretView {
    End,
    In(TextView),
}

impl View for Caret {
    type V = CaretView;

    open spec fn view(&self) -> CaretView {
        match self {
            Caret::End => CaretView::End,
            Caret::In { at, text } => CaretView::In(TextView { text: text@, caret: *at as int }),
        }
    }
}

impl CaretView {
    /// Where the caret goes in the line `drawn`: where it is in the text, when
    /// that text is what is drawn, and at the end otherwise.
    pub open spec fn in_line(self, drawn: Seq<char>) -> int {
        match self {
            CaretView::In(line) => if line.text == drawn {
                line.caret
            } else {
                drawn.len() as int
            },
            CaretView::End => drawn.len() as int,
        }
    }
}

impl Caret {
    pub fn in_field(field: &Field) -> (caret: Caret)
        ensures
            caret@ == CaretView::In(field@.line),
    {
        Caret::in_buffer(&field.text)
    }

    /// The same, for a box that is a buffer and nothing else.
    pub fn in_buffer(text: &TextBuffer) -> (caret: Caret)
        ensures
            caret@ == CaretView::In(text@),
    {
        Caret::In { at: text.caret(), text: text.value().to_owned() }
    }

    /// Where to draw the caret in the line `drawn`.
    ///
    /// The offset is honoured only when the text on screen **is** the buffer:
    /// a line that was masked on its way to the screen, or a selector's
    /// choice, has no place in it for a caret but the end.
    pub fn offset(&self, drawn: &str) -> (offset: usize)
        ensures
            offset == self@.in_line(drawn@),
    {
        match self {
            Caret::In { at, text } if same_text(text.as_str(), drawn) => *at,
            _ => drawn.unicode_len(),
        }
    }
}

/// A date in the format dates are stored in reads the same in every date
/// field, whether or not the field takes the shorthand, and whatever day it
/// takes it from.
pub proof fn a_stored_date_reads_the_same_in_every_field(field: DateFieldView, date: DateView)
    requires
        date.valid(),
        field.field.line.text == date.iso(),
    ensures
        field.raw() == date.iso(),
        field.reading() == date_reading(date.iso()),
{
    a_written_date_is_digits_and_dashes(date);
    let text = date.iso();
    assert(is_date_char(text[0]) && is_date_char(text[text.len() - 1]));
    nothing_to_trim(text);
    no_slash_in_a_date(date);
}

proof fn no_slash_in_a_date(date: DateView)
    requires
        date.valid(),
    ensures
        !date.iso().contains('/'),
{
    a_written_date_is_digits_and_dashes(date);
    let text = date.iso();
    if text.contains('/') {
        let at = choose|i: int| 0 <= i < text.len() && text[i] == '/';
        assert(is_date_char(text[at]));
    }
}

/// A step that reaches a date leaves that date written in the field, counted
/// as the user's own; any other step leaves the field exactly as it was.
pub proof fn a_step_writes_a_date_or_nothing(field: DateFieldView, step: StepView)
    ensures
        field.stepped(step) == field || exists|date: DateView|
            #![trigger date.iso()]
            field.stepped(step) == (DateFieldView { field: FieldView::own(date.iso()), ..field }),
        field.reading() is Err ==> field.stepped(step) == field,
        field.stepped(step).shorthand_from == field.shorthand_from,
{
}

/// The shorthand never reaches back past this month: its date is in this
/// month or after it, and less than a year of months ahead.
pub proof fn a_shorthand_is_this_month_or_ahead(raw: Seq<char>, today: DateView)
    requires
        today.valid(),
        shorthand_reading(raw, today) is Ok,
    ensures
        ({
            let date = shorthand_reading(raw, today)->Ok_0;
            let ahead = 12 * (date.year - today.year) + date.month - today.month;
            date.valid() && 0 <= ahead < 12
        }),
{
}

/// A month and a day typed with a slash between are that month and day, of
/// this year where the month has not gone by and of the next where it has.
pub proof fn a_month_and_a_day_are_a_date(month: int, day: int, today: DateView)
    requires
        0 <= month <= u32::MAX,
        0 <= day <= u32::MAX,
    ensures
        ({
            let text = crate::text::decimal(month) + seq!['/'] + crate::text::decimal(day);
            let year = if month < today.month {
                today.year + 1
            } else {
                today.year
            };
            let date = DateView { year, month, day };
            shorthand_reading(text, today) == (if date.valid() {
                Ok::<DateView, FaultView>(date)
            } else {
                Err::<DateView, FaultView>(FaultView::NoSuchDate { text })
            })
        }),
{
    let one = crate::text::decimal(month);
    let other = crate::text::decimal(day);
    let text = one + seq!['/'] + other;
    crate::text::a_written_number_reads_back(month);
    crate::text::a_written_number_reads_back(day);
    assert(crate::text::is_digit(one[0]) && crate::text::is_digit(one.last()));
    assert(crate::text::is_digit(other[0]) && crate::text::is_digit(other.last()));
    assert(text[0] == one[0] && text.last() == other.last());
    nothing_to_trim(text);
    nothing_to_trim(one);
    nothing_to_trim(other);
    assert forall|i: int| 0 <= i < one.len() implies #[trigger] text[i] != '/' by {
        assert(text[i] == one[i]);
        assert(crate::text::is_digit(one[i]));
    }
    lemma_slash_in(text, one.len() as int);
    assert(text.take(one.len() as int) =~= one);
    assert(text.skip(one.len() as int + 1) =~= other);
    crate::text::an_unsigned_number_reads_up_to_its_limit(one, u32::MAX as int);
    crate::text::an_unsigned_number_reads_up_to_its_limit(other, u32::MAX as int);
}

/// A field is touched once its text was changed by a key, and stays so. An
/// arrow moves the caret one place and changes nothing else.
pub proof fn a_field_is_touched_by_a_change(field: FieldView, key: KeyEvent, step: StepView)
    requires
        field.line.valid(),
    ensures
        field.edited(key).touched == (field.touched || field.edited(key).line.text
            != field.line.text),
        field.caret_stepped(step).line.text == field.line.text,
        field.caret_stepped(step).touched == field.touched,
        step.amount < 0 && field.line.caret > 0 ==> field.caret_stepped(step).line.caret
            == field.line.caret - 1,
        step.amount > 0 && field.line.caret < field.line.text.len() ==> field.caret_stepped(
            step,
        ).line.caret == field.line.caret + 1,
        step.amount < 0 && field.line.caret == 0 || step.amount > 0 && field.line.caret
            == field.line.text.len() || step.amount == 0 ==> field.caret_stepped(step) == field,
{
}

/// A date field reads the shorthand only where it takes it and a slash was
/// typed; any other text is read as dates are stored.
pub proof fn a_slash_is_the_shorthand(field: DateFieldView)
    ensures
        match field.shorthand_from {
            Some(today) => if trimmed(field.field.line.text).contains('/') {
                field.reading() == shorthand_reading(field.field.line.text, today)
            } else {
                field.reading() == date_reading(field.field.line.text)
            },
            None => field.reading() == date_reading(field.field.line.text),
        },
{
    trimming_twice_is_trimming_once(field.field.line.text);
}

/// A date field shows what was typed while the caret is in it, and the date
/// it stands for once it is not; the hint beside it names that date wherever
/// it is not what was typed.
pub proof fn a_date_field_shows_its_date(field: DateFieldView)
    ensures
        field.shown(true) == field.field.line.text,
        match field.reading() {
            Ok(date) => field.shown(false) == date.iso() && (match field.meant() {
                Some(hint) => hint == date.iso() && hint != trimmed(field.field.line.text),
                None => date.iso() == trimmed(field.field.line.text),
            }),
            Err(_) => field.shown(false) == field.field.line.text && field.meant() is None,
        },
{
}

/// Stepping a date field that reads writes the date the step lands on, with
/// the caret at its end, and counts as the user's own.
pub proof fn a_date_field_steps_from_its_date(field: DateFieldView, step: StepView)
    ensures
        match field.reading() {
            Ok(date) => match step.from(date) {
                Some(to) => {
                    let after = field.stepped(step);
                    &&& after.field.line.text == to.iso()
                    &&& after.field.line.caret == to.iso().len()
                    &&& after.field.touched
                    &&& after.shorthand_from == field.shorthand_from
                },
                None => field.stepped(step) == field,
            },
            Err(_) => field.stepped(step) == field,
        },
{
}

/// The caret is drawn where it stands in the text, where that text is what is
/// drawn, and at the end of the line everywhere else.
pub proof fn the_caret_is_drawn_in_its_own_text(line: TextView, drawn: Seq<char>)
    ensures
        drawn == line.text ==> CaretView::In(line).in_line(drawn) == line.caret,
        drawn != line.text ==> CaretView::In(line).in_line(drawn) == drawn.len(),
        CaretView::End.in_line(drawn) == drawn.len(),
{
}

} // verus!
