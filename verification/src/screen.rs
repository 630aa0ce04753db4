//! The screens, the digits that reach them, and the keys that are live on
//! each.

use vstd::prelude::*;
use vstd::string::*;

verus! {

/// The screens, in the order the tab bar draws them.
#[derive(Copy, Clone, Debug, PartialEq, Eq, Structural)]
pub enum Screen {
    Overview,
    Cash,
    Credit,
    Savings,
    Planning,
    Funds,
    RecurringGoals,
    RecurringTxns,
    Accounts,
}

impl Screen {
    /// Where the screen's tab stands in the bar, from zero.
    pub open spec fn place(self) -> int {
        match self {
            Screen::Overview => 0,
            Screen::Cash => 1,
            Screen::Credit => 2,
            Screen::Savings => 3,
            Screen::Planning => 4,
            Screen::Funds => 5,
            Screen::RecurringGoals => 6,
            Screen::RecurringTxns => 7,
            Screen::Accounts => 8,
        }
    }

    /// The digit that reaches the screen, which is its tab's count from one.
    pub open spec fn digit(self) -> char {
        ('1' as int + self.place()) as char
    }

    /// The screen a character switches to.
    pub open spec fn reached_by(c: char) -> Option<Screen> {
        if c == '1' {
            Some(Screen::Overview)
        } else if c == '2' {
            Some(Screen::Cash)
        } else if c == '3' {
            Some(Screen::Credit)
        } else if c == '4' {
            Some(Screen::Savings)
        } else if c == '5' {
            Some(Screen::Planning)
        } else if c == '6' {
            Some(Screen::Funds)
        } else if c == '7' {
            Some(Screen::RecurringGoals)
        } else if c == '8' {
            Some(Screen::RecurringTxns)
        } else if c == '9' {
            Some(Screen::Accounts)
        } else {
            None
        }
    }

    /// What the tab bar calls the screen, digit and all.
    pub open spec fn tab(self) -> Seq<char> {
        match self {
            Screen::Overview => "1 Overview"@,
            Screen::Cash => "2 Cash"@,
            Screen::Credit => "3 Credit"@,
            Screen::Savings => "4 Savings"@,
            Screen::Planning => "5 Planning"@,
            Screen::Funds => "6 Funds"@,
            Screen::RecurringGoals => "7 Goals"@,
            Screen::RecurringTxns => "8 Txns"@,
            Screen::Accounts => "9 Accounts"@,
        }
    }

    /// Every screen, in the order the tab bar draws them: the bar selects the
    /// current tab by [`Screen::index`], so a list in any other order would
    /// highlight the wrong label.
    pub fn all() -> (screens: [Screen; 9])
        ensures
            forall|i: int| 0 <= i < 9 ==> (#[trigger] screens@[i]).place() == i,
    {
        [
            Screen::Overview,
            Screen::Cash,
            Screen::Credit,
            Screen::Savings,
            Screen::Planning,
            Screen::Funds,
            Screen::RecurringGoals,
            Screen::RecurringTxns,
            Screen::Accounts,
        ]
    }

    /// Which tab the bar highlights.
    pub fn index(self) -> (index: usize)
        ensures
            index == self.place(),
    {
        match self {
            Screen::Overview => 0,
            Screen::Cash => 1,
            Screen::Credit => 2,
            Screen::Savings => 3,
            Screen::Planning => 4,
            Screen::Funds => 5,
            Screen::RecurringGoals => 6,
            Screen::RecurringTxns => 7,
            Screen::Accounts => 8,
        }
    }

    /// What the tab bar calls this screen, digit included.
    ///
    /// Abbreviated on purpose. The bar is a row of shortcuts, not a set of
    /// headings: the screen's own title spells the words out the moment it is
    /// opened.
    pub fn tab_label(self) -> (label: &'static str)
        ensures
            label@ == self.tab(),
    {
        match self {
            Screen::Overview => "1 Overview",
            Screen::Cash => "2 Cash",
            Screen::Credit => "3 Credit",
            Screen::Savings => "4 Savings",
            Screen::Planning => "5 Planning",
            Screen::Funds => "6 Funds",
            Screen::RecurringGoals => "7 Goals",
            Screen::RecurringTxns => "8 Txns",
            Screen::Accounts => "9 Accounts",
        }
    }

    /// The screen a top-row digit switches to, or `None` for any other key.
    ///
    /// Written out rather than derived from the digit's value, so a screen
    /// inserted in the middle is one edit here and not an arithmetic puzzle.
    pub fn from_key(c: char) -> (screen: Option<Screen>)
        ensures
            screen == Screen::reached_by(c),
    {
        match c {
            '1' => Some(Screen::Overview),
            '2' => Some(Screen::Cash),
            '3' => Some(Screen::Credit),
            '4' => Some(Screen::Savings),
            '5' => Some(Screen::Planning),
            '6' => Some(Screen::Funds),
            '7' => Some(Screen::RecurringGoals),
            '8' => Some(Screen::RecurringTxns),
            '9' => Some(Screen::Accounts),
            _ => None,
        }
    }
}

/// The digit that reaches a screen is the one its tab is labelled with, and
/// no other character reaches it.
pub proof fn a_digit_reaches_the_tab_labelled_with_it(screen: Screen, c: char)
    ensures
        Screen::reached_by(c) == Some(screen) <==> c == screen.digit(),
        screen.tab().len() > 0,
        screen.tab()[0] == screen.digit(),
{
    reveal_strlit("1 Overview");
    reveal_strlit("2 Cash");
    reveal_strlit("3 Credit");
    reveal_strlit("4 Savings");
    reveal_strlit("5 Planning");
    reveal_strlit("6 Funds");
    reveal_strlit("7 Goals");
    reveal_strlit("8 Txns");
    reveal_strlit("9 Accounts");
}

/// No two screens share a tab.
pub proof fn each_screen_has_a_tab_of_its_own(one: Screen, other: Screen)
    ensures
        one.place() == other.place() ==> one == other,
        0 <= one.place() < 9,
{
}

/// Which way a goal is moved in its container's manual order.
///
/// A direction rather than a signed delta because the two ends are not
/// symmetric arithmetic: the top of the block and the bottom are each a place
/// there is nothing beyond, and [`Move::applied`] returning `None` there is
/// what lets the caller stop before it writes.
#[derive(Copy, Clone, Debug, PartialEq, Eq, Structural)]
pub enum Move {
    Up,
    Down,
}

impl Move {
    /// Where a move from `from` lands among `len` goals.
    pub open spec fn lands(self, from: int, len: int) -> Option<int> {
        match self {
            Move::Up => if from > 0 {
                Some(from - 1)
            } else {
                None
            },
            Move::Down => if from + 1 < len {
                Some(from + 1)
            } else {
                None
            },
        }
    }

    pub open spec fn opposite(self) -> Move {
        match self {
            Move::Up => Move::Down,
            Move::Down => Move::Up,
        }
    }

    /// The position `from` moves to among `len` goals, or `None` when the
    /// move would leave the block.
    pub fn applied(self, from: usize, len: usize) -> (to: Option<usize>)
        ensures
            match to {
                Some(to) => self.lands(from as int, len as int) == Some(to as int),
                None => self.lands(from as int, len as int) is None,
            },
    {
        match self {
            Move::Up => if from > 0 {
                Some(from - 1)
            } else {
                None
            },
            Move::Down => if from < len && from + 1 < len {
                Some(from + 1)
            } else {
                None
            },
        }
    }
}

/// A move stays in the block, and the opposite one takes it back.
pub proof fn a_move_is_undone_by_its_opposite(way: Move, from: int, len: int)
    requires
        0 <= from < len,
        way.lands(from, len) is Some,
    ensures
        0 <= way.lands(from, len)->0 < len,
        way.opposite().lands(way.lands(from, len)->0, len) == Some(from),
{
}

/// What the live keys are about: a screen, a box open over one, or whatever
/// is open above it.
#[derive(Copy, Clone, Debug, PartialEq, Eq, Structural)]
pub enum Topic {
    Overview,
    Ledger,
    LedgerSearch,
    Savings,
    SavingsSearch,
    Planning,
    Funds,
    FundsSearch,
    RecurringGoals,
    RecurringGoalsSearch,
    RecurringTxns,
    Accounts,
    Form,
    /// A form one of whose fields is offered suggestions.
    SuggestForm,
    Confirm,
    Worksheet,
    WorksheetSearch,
    Picker,
    Destination,
    DestinationSearch,
    Details,
    PlanTransfers,
    History,
}

impl Topic {
    /// A box a needle is typed into.
    pub open spec fn is_search(self) -> bool {
        self is LedgerSearch || self is SavingsSearch || self is FundsSearch
            || self is RecurringGoalsSearch || self is WorksheetSearch || self is DestinationSearch
    }

    /// Where a question mark is a character rather than a question.
    pub open spec fn typed_into(self) -> bool {
        self is Form || self is SuggestForm || self.is_search()
    }

    /// Where there is a caret for `Ctrl` to edit at. The worksheet's date and
    /// the transfers' are text, though a question mark is no part of either.
    pub open spec fn edited(self) -> bool {
        self.typed_into() || self is Worksheet || self is PlanTransfers
    }

    /// A screen with nothing open above it.
    pub open spec fn is_screen(self) -> bool {
        self is Overview || self is Ledger || self is Savings || self is Planning || self is Funds
            || self is RecurringGoals || self is RecurringTxns || self is Accounts
    }

    pub fn takes_typed_chars(self) -> (typed: bool)
        ensures
            typed == self.typed_into(),
    {
        match self {
            Topic::Form
            | Topic::SuggestForm
            | Topic::LedgerSearch
            | Topic::SavingsSearch
            | Topic::FundsSearch
            | Topic::RecurringGoalsSearch
            | Topic::WorksheetSearch
            | Topic::DestinationSearch => true,
            _ => false,
        }
    }

    pub fn takes_editing_keys(self) -> (edited: bool)
        ensures
            edited == self.edited(),
    {
        match self {
            Topic::Worksheet | Topic::PlanTransfers => true,
            _ => self.takes_typed_chars(),
        }
    }

    /// Whether the app-wide keys -- the digits, `q` and `?` -- mean what they
    /// say here.
    pub fn answers_app_wide_keys(self) -> (answers: bool)
        ensures
            answers == self.is_screen(),
    {
        match self {
            Topic::Overview
            | Topic::Ledger
            | Topic::Savings
            | Topic::Planning
            | Topic::Funds
            | Topic::RecurringGoals
            | Topic::RecurringTxns
            | Topic::Accounts => true,
            _ => false,
        }
    }
}

/// A move up goes one place nearer the top and a move down one place further
/// from it, and only the place at that end of the block has nowhere to go.
pub proof fn a_move_goes_one_place(from: int, len: int)
    requires
        0 <= from < len,
    ensures
        from > 0 ==> Move::Up.lands(from, len) == Some(from - 1),
        from == 0 ==> Move::Up.lands(from, len) is None,
        from < len - 1 ==> Move::Down.lands(from, len) == Some(from + 1),
        from == len - 1 ==> Move::Down.lands(from, len) is None,
{
}

/// Text is typed into a form and into a box that searches, and nowhere else;
/// the worksheet's date and the transfers' are edited too. The app-wide keys
/// mean what they say on a screen, and nowhere that text is edited.
pub proof fn text_is_typed_where_it_is_asked_for(topic: Topic)
    ensures
        topic is Form || topic is SuggestForm ==> topic.typed_into() && topic.edited(),
        topic is LedgerSearch || topic is SavingsSearch || topic is FundsSearch
            || topic is RecurringGoalsSearch || topic is WorksheetSearch
            || topic is DestinationSearch ==> topic.typed_into() && topic.edited()
            && !topic.is_screen(),
        topic is Worksheet || topic is PlanTransfers ==> topic.edited() && !topic.typed_into()
            && !topic.is_screen(),
        topic is Overview || topic is Ledger || topic is Savings || topic is Planning
            || topic is Funds || topic is RecurringGoals || topic is RecurringTxns
            || topic is Accounts ==> topic.is_screen() && !topic.edited() && !topic.typed_into(),
        topic is Confirm || topic is Picker || topic is Destination || topic is Details
            || topic is History ==> !topic.is_screen() && !topic.edited() && !topic.typed_into(),
{
}

} // verus!
