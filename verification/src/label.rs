//! A label: words, some of which name an account.

use crate::ids::AccountId;
use vstd::prelude::*;
use vstd::string::*;

verus! {

/// An account as a label names it.
#[derive(Debug)]
pub struct Account {
    pub id: AccountId,
    pub name: String,
}

impl Clone for Account {
    fn clone(&self) -> (copy: Account)
        ensures
            copy == *self,
    {
        Account { id: self.id, name: self.name.clone() }
    }
}

/// What `accounts` call `id`: the name of the first holding it, or a question
/// mark where none does.
pub open spec fn name_among(accounts: Seq<Account>, id: AccountId) -> Seq<char>
    decreases accounts.len(),
{
    if accounts.len() == 0 {
        "?"@
    } else if accounts[0].id == id {
        accounts[0].name@
    } else {
        name_among(accounts.drop_first(), id)
    }
}

proof fn lemma_name_among(accounts: Seq<Account>, id: AccountId, at: int)
    requires
        0 <= at <= accounts.len(),
        forall|i: int| 0 <= i < at ==> (#[trigger] accounts[i]).id != id,
    ensures
        at == accounts.len() ==> name_among(accounts, id) == "?"@,
        at < accounts.len() && accounts[at].id == id ==> name_among(accounts, id)
            == accounts[at].name@,
    decreases at,
{
    if at > 0 {
        assert(accounts[0].id != id);
        assert forall|i: int| 0 <= i < at - 1 implies (#[trigger] accounts.drop_first()[i]).id
            != id by {
            assert(accounts.drop_first()[i] == accounts[i + 1]);
        }
        lemma_name_among(accounts.drop_first(), id, at - 1);
    }
}

impl Account {
    /// The account `accounts` hold under `id`, named by a question mark where
    /// they hold none.
    pub fn named(accounts: &[Account], id: AccountId) -> (account: Account)
        ensures
            account.id == id,
            account.name@ == name_among(accounts@, id),
    {
        let mut at: usize = 0;
        while at < accounts.len()
            invariant
                at <= accounts@.len(),
                forall|i: int| 0 <= i < at ==> (#[trigger] accounts@[i]).id != id,
            decreases accounts@.len() - at,
        {
            if accounts[at].id == id {
                proof {
                    lemma_name_among(accounts@, id, at as int);
                }
                return Account { id, name: accounts[at].name.clone() };
            }
            at = at + 1;
        }
        proof {
            lemma_name_among(accounts@, id, at as int);
        }
        Account { id, name: "?".to_owned() }
    }
}

/// One run of a label's words.
#[derive(Debug)]
pub enum Segment {
    Words(String),
    /// A run that names an account, and is drawn in that account's color.
    Account(Account),
}

/// What a [`Segment`] stands for: its words, and the account they name.
pub struct SegmentView {
    pub words: Seq<char>,
    pub account: Option<AccountId>,
}

impl View for Segment {
    type V = SegmentView;

    open spec fn view(&self) -> SegmentView {
        match self {
            Segment::Words(words) => SegmentView { words: words@, account: None },
            Segment::Account(account) => SegmentView {
                words: account.name@,
                account: Some(account.id),
            },
        }
    }
}

impl Clone for Segment {
    fn clone(&self) -> (copy: Segment)
        ensures
            copy@ == self@,
    {
        match self {
            Segment::Words(words) => Segment::Words(words.clone()),
            Segment::Account(account) => Segment::Account(
                Account { id: account.id, name: account.name.clone() },
            ),
        }
    }
}

/// Words with account names among them. Adding to a label keeps every
/// account it already names a segment of its own.
#[derive(Debug)]
pub struct Label {
    segments: Vec<Segment>,
}

impl View for Label {
    type V = Seq<SegmentView>;

    closed spec fn view(&self) -> Seq<SegmentView> {
        Seq::new(self.segments@.len(), |i: int| self.segments@[i]@)
    }
}

pub open spec fn words(text: Seq<char>) -> SegmentView {
    SegmentView { words: text, account: None }
}

/// What a label reads as.
pub open spec fn plain(label: Seq<SegmentView>) -> Seq<char>
    decreases label.len(),
{
    if label.len() == 0 {
        Seq::empty()
    } else {
        plain(label.drop_last()) + label.last().words
    }
}

/// The accounts a label names, in order.
pub open spec fn accounts_in(label: Seq<SegmentView>) -> Seq<AccountId>
    decreases label.len(),
{
    if label.len() == 0 {
        Seq::empty()
    } else {
        match label.last().account {
            Some(id) => accounts_in(label.drop_last()).push(id),
            None => accounts_in(label.drop_last()),
        }
    }
}

impl Clone for Label {
    fn clone(&self) -> (copy: Label)
        ensures
            copy@ == self@,
    {
        let mut segments: Vec<Segment> = Vec::new();
        let mut at: usize = 0;
        while at < self.segments.len()
            invariant
                at <= self.segments@.len(),
                segments@.len() == at,
                forall|i: int| 0 <= i < at ==> #[trigger] segments@[i]@ == self.segments@[i]@,
            decreases self.segments@.len() - at,
        {
            segments.push(self.segments[at].clone());
            at = at + 1;
        }
        let copy = Label { segments };
        proof {
            assert(copy@ =~= self@);
        }
        copy
    }
}

impl Label {
    pub fn plain(text: &str) -> (label: Label)
        ensures
            label@ == seq![words(text@)],
    {
        let mut segments: Vec<Segment> = Vec::new();
        segments.push(Segment::Words(text.to_owned()));
        let label = Label { segments };
        proof {
            assert(label@ =~= seq![words(text@)]);
        }
        label
    }

    /// The label with an account's name after it.
    pub fn account(self, account: Account) -> (label: Label)
        ensures
            label@ == self@.push(
                SegmentView { words: account.name@, account: Some(account.id) },
            ),
    {
        let mut segments = self.segments;
        segments.push(Segment::Account(account));
        let label = Label { segments };
        proof {
            assert(label@ =~= self@.push(
                SegmentView { words: account.name@, account: Some(account.id) },
            ));
        }
        label
    }

    /// The label with words after it.
    pub fn text(self, text: &str) -> (label: Label)
        ensures
            label@ == self@.push(words(text@)),
    {
        let mut segments = self.segments;
        segments.push(Segment::Words(text.to_owned()));
        let label = Label { segments };
        proof {
            assert(label@ =~= self@.push(words(text@)));
        }
        label
    }

    /// The label with words ahead of it.
    pub fn prepend(self, text: &str) -> (label: Label)
        ensures
            label@ == seq![words(text@)] + self@,
    {
        let mut segments = self.segments;
        segments.insert(0, Segment::Words(text.to_owned()));
        let label = Label { segments };
        proof {
            assert(label@ =~= seq![words(text@)] + self@);
        }
        label
    }

    /// Its runs, in the order they are drawn.
    pub fn segments(&self) -> (segments: &Vec<Segment>)
        ensures
            self@ == Seq::new(segments@.len(), |i: int| segments@[i]@),
    {
        &self.segments
    }

    /// What the label reads as.
    pub fn plain_text(&self) -> (text: String)
        ensures
            text@ == plain(self@),
    {
        let mut text = String::new();
        let mut at: usize = 0;
        proof {
            assert(self@.take(0) =~= Seq::<SegmentView>::empty());
        }
        while at < self.segments.len()
            invariant
                at <= self.segments@.len(),
                text@ == plain(self@.take(at as int)),
            decreases self.segments@.len() - at,
        {
            proof {
                assert(self@.take(at + 1).drop_last() =~= self@.take(at as int));
            }
            match &self.segments[at] {
                Segment::Words(words) => text.append(words.as_str()),
                Segment::Account(account) => text.append(account.name.as_str()),
            }
            at = at + 1;
        }
        proof {
            assert(self@.take(at as int) =~= self@);
        }
        text
    }

    /// The accounts the label names.
    pub fn accounts(&self) -> (ids: Vec<AccountId>)
        ensures
            ids@ == accounts_in(self@),
    {
        let mut ids: Vec<AccountId> = Vec::new();
        let mut at: usize = 0;
        proof {
            assert(self@.take(0) =~= Seq::<SegmentView>::empty());
        }
        while at < self.segments.len()
            invariant
                at <= self.segments@.len(),
                ids@ == accounts_in(self@.take(at as int)),
            decreases self.segments@.len() - at,
        {
            proof {
                assert(self@.take(at + 1).drop_last() =~= self@.take(at as int));
            }
            match &self.segments[at] {
                Segment::Words(_) => {},
                Segment::Account(account) => ids.push(account.id),
            }
            at = at + 1;
        }
        proof {
            assert(self@.take(at as int) =~= self@);
        }
        ids
    }
}

/// Words put ahead of a label, or after it, leave the accounts it names as
/// they were.
pub proof fn words_name_no_account(label: Seq<SegmentView>, text: Seq<char>)
    ensures
        accounts_in(seq![words(text)] + label) == accounts_in(label),
        accounts_in(label.push(words(text))) == accounts_in(label),
        plain(seq![words(text)] + label) == text + plain(label),
        plain(label.push(words(text))) == plain(label) + text,
    decreases label.len(),
{
    assert(label.push(words(text)).drop_last() =~= label);
    let ahead = seq![words(text)] + label;
    if label.len() == 0 {
        reveal_with_fuel(plain, 2);
        reveal_with_fuel(accounts_in, 2);
        assert(ahead.drop_last() =~= Seq::<SegmentView>::empty());
        assert(plain(ahead) =~= text + plain(label));
    } else {
        assert(ahead.drop_last() =~= seq![words(text)] + label.drop_last());
        words_name_no_account(label.drop_last(), text);
        assert(plain(ahead) =~= text + plain(label));
    }
}

/// An account is called by the name first listed beside it, wherever in
/// the list it stands, and one not listed by a question mark.
pub proof fn an_account_is_called_by_its_own_name(accounts: Seq<Account>, id: AccountId)
    ensures
        forall|at: int|
            0 <= at < accounts.len() && (#[trigger] accounts[at]).id == id && (forall|other: int|
                0 <= other < at ==> (#[trigger] accounts[other]).id
                    != id) ==> name_among(accounts, id) == accounts[at].name@,
        (forall|at: int| 0 <= at < accounts.len() ==> (#[trigger] accounts[at]).id != id)
            ==> name_among(accounts, id) == "?"@,
    decreases accounts.len(),
{
    if accounts.len() > 0 {
        let rest = accounts.drop_first();
        an_account_is_called_by_its_own_name(rest, id);
        assert forall|at: int|
            0 <= at < accounts.len() && (#[trigger] accounts[at]).id == id && (forall|other: int|
                0 <= other < at ==> (#[trigger] accounts[other]).id
                    != id) implies name_among(accounts, id) == accounts[at].name@ by {
            if at > 0 {
                assert(accounts[0].id != id);
                assert(rest[at - 1] == accounts[at]);
                assert forall|other: int|
                    0 <= other < at - 1 implies (#[trigger] rest[other]).id
                    != id by {
                    assert(rest[other] == accounts[other + 1]);
                }
            }
        }
        if forall|at: int| 0 <= at < accounts.len() ==> (#[trigger] accounts[at]).id != id {
            assert(accounts[0].id != id);
            assert forall|at: int| 0 <= at < rest.len() implies (#[trigger] rest[at]).id != id by {
                assert(rest[at] == accounts[at + 1]);
            }
        }
    }
}

/// A label reads as its runs one after another, and names the accounts its
/// runs name, in their order.
pub proof fn a_label_is_its_runs_in_order(label: Seq<SegmentView>, next: SegmentView)
    ensures
        plain(Seq::<SegmentView>::empty()) == Seq::<char>::empty(),
        plain(label.push(next)) == plain(label) + next.words,
        accounts_in(Seq::<SegmentView>::empty()) == Seq::<AccountId>::empty(),
        accounts_in(label.push(next)) == (match next.account {
            Some(id) => accounts_in(label).push(id),
            None => accounts_in(label),
        }),
{
    assert(label.push(next).drop_last() =~= label);
}

} // verus!
