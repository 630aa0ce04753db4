//! Why something typed into a form was refused, and the words it is refused
//! in.

use crate::said::{self, PieceView, Said};
use crate::text::{quote, quoted, write_number, IntFault};
use vstd::prelude::*;
use vstd::string::*;

verus! {

/// Why a field would not read.
#[derive(Debug)]
pub enum Fault {
    /// Not a date in the format dates are stored in.
    NotIso { text: String, why: String },
    /// Not a month and a day.
    NotShorthand { text: String },
    /// A month and a day the calendar has no such date for.
    NoSuchDate { text: String },
    /// Not a reading of any amount.
    NotAmount { text: String },
    /// An amount, and not a whole number of dollars.
    NotWhole { text: String },
    /// A fraction whose divisor is not a whole number.
    NotDivisor { text: String, fault: IntFault },
    /// A fraction whose divisor is not positive.
    CannotDivide { by: i64 },
}

/// What a [`Fault`] stands for.
pub enum FaultView {
    NotIso { text: Seq<char>, why: Seq<char> },
    NotShorthand { text: Seq<char> },
    NoSuchDate { text: Seq<char> },
    NotAmount { text: Seq<char> },
    NotWhole { text: Seq<char> },
    NotDivisor { text: Seq<char>, fault: IntFault },
    CannotDivide { by: int },
}

impl View for Fault {
    type V = FaultView;

    open spec fn view(&self) -> FaultView {
        match self {
            Fault::NotIso { text, why } => FaultView::NotIso { text: text@, why: why@ },
            Fault::NotShorthand { text } => FaultView::NotShorthand { text: text@ },
            Fault::NoSuchDate { text } => FaultView::NoSuchDate { text: text@ },
            Fault::NotAmount { text } => FaultView::NotAmount { text: text@ },
            Fault::NotWhole { text } => FaultView::NotWhole { text: text@ },
            Fault::NotDivisor { text, fault } => FaultView::NotDivisor {
                text: text@,
                fault: *fault,
            },
            Fault::CannotDivide { by } => FaultView::CannotDivide { by: *by as int },
        }
    }
}

/// A whole number written with a minus sign where it is negative.
pub open spec fn signed(n: int) -> Seq<char> {
    if n < 0 {
        seq!['-'] + crate::text::decimal(-n)
    } else {
        crate::text::decimal(n)
    }
}

pub fn write_signed(n: i64) -> (text: String)
    ensures
        text@ == signed(n as int),
{
    let wide: i128 = n as i128;
    if wide < 0 {
        let mut text = String::new();
        text.push('-');
        text.append(write_number((-wide) as u64).as_str());
        proof {
            assert(text@ =~= signed(n as int));
        }
        text
    } else {
        write_number(wide as u64)
    }
}

/// The words the standard library has for what is wrong with a whole number.
pub open spec fn int_fault_text(fault: IntFault) -> Seq<char> {
    match fault {
        IntFault::Empty => "cannot parse integer from empty string"@,
        IntFault::InvalidDigit => "invalid digit found in string"@,
        IntFault::TooLarge => "number too large to fit in target type"@,
        IntFault::TooSmall => "number too small to fit in target type"@,
    }
}

fn write_int_fault(fault: IntFault) -> (text: String)
    ensures
        text@ == int_fault_text(fault),
{
    match fault {
        IntFault::Empty => "cannot parse integer from empty string".to_owned(),
        IntFault::InvalidDigit => "invalid digit found in string".to_owned(),
        IntFault::TooLarge => "number too large to fit in target type".to_owned(),
        IntFault::TooSmall => "number too small to fit in target type".to_owned(),
    }
}

impl FaultView {
    /// The text the fault quotes back, where it quotes one.
    pub open spec fn subject(self) -> Seq<char> {
        match self {
            FaultView::NotIso { text, .. } => text,
            FaultView::NotShorthand { text } => text,
            FaultView::NoSuchDate { text } => text,
            FaultView::NotAmount { text } => text,
            FaultView::NotWhole { text } => text,
            FaultView::NotDivisor { text, .. } => text,
            FaultView::CannotDivide { .. } => Seq::empty(),
        }
    }

    /// What the fault says, its subject in `quotes`.
    pub open spec fn worded(self, quotes: Seq<char>) -> Seq<char> {
        match self {
            FaultView::NotIso { .. } => "not a YYYY-MM-DD date: "@ + quotes,
            FaultView::NotShorthand { .. } => "not a M/D date: "@ + quotes,
            FaultView::NoSuchDate { .. } => "no such date: "@ + quotes,
            FaultView::NotAmount { .. } => "not an amount: "@ + quotes,
            FaultView::NotWhole { .. } => "amount must be a whole number of dollars: "@ + quotes,
            FaultView::NotDivisor { .. } => "not a whole divisor: "@ + quotes,
            FaultView::CannotDivide { by } => "cannot divide by "@ + signed(by),
        }
    }

    /// What lies behind the fault, where something does.
    pub open spec fn cause(self) -> Option<Seq<char>> {
        match self {
            FaultView::NotIso { why, .. } => Some(why),
            FaultView::NotDivisor { fault, .. } => Some(int_fault_text(fault)),
            _ => None,
        }
    }

    /// What a status line says of the fault: its message, and behind a colon
    /// its cause.
    pub open spec fn status(self, quotes: Seq<char>) -> Seq<char> {
        match self.cause() {
            Some(cause) => self.worded(quotes) + ": "@ + cause,
            None => self.worded(quotes),
        }
    }
}

impl FaultView {
    /// What is said of the fault, and which of it is the owner's.
    ///
    /// A refused whole amount is the one fault whose subject is always a
    /// figure: it comes only of text that reads as money.
    pub open spec fn said(self) -> Seq<PieceView> {
        match self {
            FaultView::NotWhole { text } => said::words(
                "amount must be a whole number of dollars: "@,
            ) + said::quotation(text),
            _ => said::words(self.status(quoted(self.subject()))),
        }
    }
}

fn after(words: &str, rest: &str) -> (text: String)
    ensures
        text@ == words@ + rest@,
{
    let mut text = words.to_owned();
    text.append(rest);
    text
}

impl Fault {
    /// What the fault says, with its subject already in quotes.
    pub fn worded(&self, quotes: &str) -> (text: String)
        ensures
            text@ == self@.worded(quotes@),
    {
        match self {
            Fault::NotIso { .. } => after("not a YYYY-MM-DD date: ", quotes),
            Fault::NotShorthand { .. } => after("not a M/D date: ", quotes),
            Fault::NoSuchDate { .. } => after("no such date: ", quotes),
            Fault::NotAmount { .. } => after("not an amount: ", quotes),
            Fault::NotWhole { .. } => after("amount must be a whole number of dollars: ", quotes),
            Fault::NotDivisor { .. } => after("not a whole divisor: ", quotes),
            Fault::CannotDivide { by } => after("cannot divide by ", write_signed(*by).as_str()),
        }
    }

    /// What a status line says of the fault, with its subject already in
    /// quotes.
    pub fn status_with(&self, quotes: &str) -> (text: String)
        ensures
            text@ == self@.status(quotes@),
    {
        let mut text = self.worded(quotes);
        match self {
            Fault::NotIso { why, .. } => {
                text.append(": ");
                text.append(why.as_str());
            },
            Fault::NotDivisor { fault, .. } => {
                text.append(": ");
                text.append(write_int_fault(*fault).as_str());
            },
            _ => {},
        }
        text
    }

    fn quotes(&self) -> (quotes: String)
        ensures
            quotes@ == quoted(self@.subject()),
    {
        match self {
            Fault::NotIso { text, .. } => quote(text.as_str()),
            Fault::NotShorthand { text } => quote(text.as_str()),
            Fault::NoSuchDate { text } => quote(text.as_str()),
            Fault::NotAmount { text } => quote(text.as_str()),
            Fault::NotWhole { text } => quote(text.as_str()),
            Fault::NotDivisor { text, .. } => quote(text.as_str()),
            Fault::CannotDivide { .. } => quote(String::new().as_str()),
        }
    }

    /// What the fault says.
    pub fn message(&self) -> (text: String)
        ensures
            text@ == self@.worded(quoted(self@.subject())),
    {
        self.worded(self.quotes().as_str())
    }

    /// What a status line says of the fault.
    pub fn status(&self) -> (text: String)
        ensures
            text@ == self@.status(quoted(self@.subject())),
    {
        self.status_with(self.quotes().as_str())
    }

    /// What is said of the fault, and which of it is the owner's.
    pub fn said(&self) -> (said: Said)
        ensures
            said@ == self@.said(),
    {
        match self {
            Fault::NotWhole { text } => Said::of(
                "amount must be a whole number of dollars: ",
            ).quotation(text),
            _ => Said::of(&self.status()),
        }
    }
}

/// A fault quotes the very text it was found in, and one that came of another
/// says that one after it.
pub proof fn a_fault_quotes_its_own_text(fault: FaultView, quotes: Seq<char>)
    ensures
        fault matches FaultView::NotIso { text, why } ==> fault.subject() == text && fault.status(
            quotes,
        ) == "not a YYYY-MM-DD date: "@ + quotes + ": "@ + why,
        fault matches FaultView::NotShorthand { text } ==> fault.subject() == text && fault.status(
            quotes,
        ) == "not a M/D date: "@ + quotes,
        fault matches FaultView::NoSuchDate { text } ==> fault.subject() == text && fault.status(
            quotes,
        ) == "no such date: "@ + quotes,
        fault matches FaultView::NotAmount { text } ==> fault.subject() == text && fault.status(
            quotes,
        ) == "not an amount: "@ + quotes,
        fault matches FaultView::NotWhole { text } ==> fault.subject() == text && fault.status(
            quotes,
        ) == "amount must be a whole number of dollars: "@ + quotes,
        fault matches FaultView::NotDivisor { text, fault: cause } ==> fault.subject() == text
            && fault.status(quotes) == "not a whole divisor: "@ + quotes + ": "@ + int_fault_text(
            cause,
        ),
        fault matches FaultView::CannotDivide { by } ==> (by >= 0 ==> fault.status(quotes)
            == "cannot divide by "@ + crate::text::decimal(by)),
        fault matches FaultView::CannotDivide { by } ==> (by < 0 ==> fault.status(quotes)
            == "cannot divide by "@ + (seq!['-'] + crate::text::decimal(-by))),
{
}

/// Only a refused amount keeps the figure it quotes apart; every other fault
/// is said in words alone.
pub proof fn only_a_refused_amount_is_kept_apart(fault: FaultView)
    ensures
        fault matches FaultView::NotWhole { text } ==> fault.said() == said::words(
            "amount must be a whole number of dollars: "@,
        ) + said::quotation(text),
        !(fault is NotWhole) ==> fault.said() == said::words(fault.status(quoted(fault.subject()))),
{
}

} // verus!
