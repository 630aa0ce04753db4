//! What the application says: words, and among them the names and figures
//! that are the owner's own.
//!
//! They are kept apart because not every screen may show them: a drawing that
//! hides what is the owner's replaces each name and each figure, and leaves
//! the words, the dates and the counts as they are.

use crate::money::{figure, whole_figure, write_figure, write_whole_figure, Cents};
use crate::text::{quote, quoted};
use vstd::prelude::*;
use vstd::string::*;

verus! {

/// What a run of text is.
#[derive(Copy, Clone, Debug, PartialEq, Eq, Structural)]
pub enum PieceKind {
    /// The application's own words, a date or a count.
    Words,
    /// A name or a description the owner gave.
    Name,
    /// An amount of the owner's.
    Figure,
    /// An amount as the owner typed it, said in quotes.
    Quote,
}

/// One run of what is said.
#[derive(Debug)]
pub struct Piece {
    pub kind: PieceKind,
    pub text: String,
}

/// What a [`Piece`] stands for.
pub struct PieceView {
    pub kind: PieceKind,
    pub text: Seq<char>,
}

impl PieceView {
    /// The run as it is said where nothing is hidden.
    pub open spec fn plain(self) -> Seq<char> {
        if self.kind is Quote {
            quoted(self.text)
        } else {
            self.text
        }
    }
}

impl View for Piece {
    type V = PieceView;

    open spec fn view(&self) -> PieceView {
        PieceView { kind: self.kind, text: self.text@ }
    }
}

impl Clone for Piece {
    fn clone(&self) -> (copy: Piece)
        ensures
            copy@ == self@,
    {
        Piece { kind: self.kind, text: self.text.clone() }
    }
}

/// One run, and none where there is nothing in it.
pub open spec fn run(kind: PieceKind, text: Seq<char>) -> Seq<PieceView> {
    if text.len() == 0 {
        Seq::empty()
    } else {
        seq![PieceView { kind, text }]
    }
}

pub open spec fn words(text: Seq<char>) -> Seq<PieceView> {
    run(PieceKind::Words, text)
}

pub open spec fn name(text: Seq<char>) -> Seq<PieceView> {
    run(PieceKind::Name, text)
}

pub open spec fn amount(cents: Cents) -> Seq<PieceView> {
    run(PieceKind::Figure, figure(cents))
}

pub open spec fn whole_amount(cents: Cents) -> Seq<PieceView> {
    run(PieceKind::Figure, whole_figure(cents))
}

pub open spec fn typed(text: Seq<char>) -> Seq<PieceView> {
    run(PieceKind::Figure, text)
}

pub open spec fn quotation(text: Seq<char>) -> Seq<PieceView> {
    run(PieceKind::Quote, text)
}

/// All of it in one text, where nothing is hidden.
pub open spec fn spoken(pieces: Seq<PieceView>) -> Seq<char>
    decreases pieces.len(),
{
    if pieces.len() == 0 {
        Seq::empty()
    } else {
        spoken(pieces.drop_last()) + pieces.last().plain()
    }
}

/// Something said.
#[derive(Debug)]
pub struct Said {
    pieces: Vec<Piece>,
}

impl View for Said {
    type V = Seq<PieceView>;

    closed spec fn view(&self) -> Seq<PieceView> {
        Seq::new(self.pieces@.len(), |i: int| self.pieces@[i]@)
    }
}

impl Clone for Said {
    fn clone(&self) -> (copy: Said)
        ensures
            copy@ == self@,
    {
        let mut pieces: Vec<Piece> = Vec::new();
        let mut at: usize = 0;
        while at < self.pieces.len()
            invariant
                at <= self.pieces@.len(),
                pieces@.len() == at,
                forall|i: int| 0 <= i < at ==> #[trigger] pieces@[i]@ == self.pieces@[i]@,
            decreases self.pieces@.len() - at,
        {
            pieces.push(self.pieces[at].clone());
            at = at + 1;
        }
        let copy = Said { pieces };
        proof {
            assert(copy@ =~= self@);
        }
        copy
    }
}

impl Said {
    pub fn nothing() -> (said: Said)
        ensures
            said@ == Seq::<PieceView>::empty(),
    {
        let said = Said { pieces: Vec::new() };
        proof {
            assert(said@ =~= Seq::<PieceView>::empty());
        }
        said
    }

    fn with(self, kind: PieceKind, text: &str) -> (said: Said)
        ensures
            said@ == self@ + run(kind, text@),
    {
        let ghost before = self@;
        let mut pieces = self.pieces;
        if text.unicode_len() > 0 {
            pieces.push(Piece { kind, text: text.to_owned() });
        }
        let said = Said { pieces };
        proof {
            assert(said@ =~= before + run(kind, text@));
        }
        said
    }

    /// The application's own words, and nothing else.
    pub fn of(text: &str) -> (said: Said)
        ensures
            said@ == words(text@),
    {
        let said = Said::nothing().words(text);
        proof {
            assert(said@ =~= words(text@));
        }
        said
    }

    /// A name, and whatever is said of it after.
    pub fn of_name(text: &str) -> (said: Said)
        ensures
            said@ == name(text@),
    {
        let said = Said::nothing().name(text);
        proof {
            assert(said@ =~= name(text@));
        }
        said
    }

    /// An amount as it was typed.
    pub fn of_typed(text: &str) -> (said: Said)
        ensures
            said@ == typed(text@),
    {
        let said = Said::nothing().with(PieceKind::Figure, text);
        proof {
            assert(said@ =~= typed(text@));
        }
        said
    }

    pub fn words(self, text: &str) -> (said: Said)
        ensures
            said@ == self@ + words(text@),
    {
        self.with(PieceKind::Words, text)
    }

    pub fn name(self, text: &str) -> (said: Said)
        ensures
            said@ == self@ + name(text@),
    {
        self.with(PieceKind::Name, text)
    }

    pub fn amount(self, cents: Cents) -> (said: Said)
        ensures
            said@ == self@ + amount(cents),
    {
        self.with(PieceKind::Figure, &write_figure(cents))
    }

    pub fn whole_amount(self, cents: Cents) -> (said: Said)
        ensures
            said@ == self@ + whole_amount(cents),
    {
        self.with(PieceKind::Figure, &write_whole_figure(cents))
    }

    pub fn quotation(self, text: &str) -> (said: Said)
        ensures
            said@ == self@ + quotation(text@),
    {
        self.with(PieceKind::Quote, text)
    }

    /// One thing said after another.
    pub fn join(self, other: &Said) -> (said: Said)
        ensures
            said@ == self@ + other@,
    {
        let ghost before = self@;
        let mut pieces = self.pieces;
        let mut at: usize = 0;
        proof {
            assert((Said { pieces })@ =~= before + other@.take(0));
        }
        while at < other.pieces.len()
            invariant
                at <= other.pieces@.len(),
                (Said { pieces })@ == before + other@.take(at as int),
            decreases other.pieces@.len() - at,
        {
            let ghost head = (Said { pieces })@;
            pieces.push(other.pieces[at].clone());
            at = at + 1;
            proof {
                assert((Said { pieces })@ =~= head.push(other@[at - 1]));
                assert(other@.take(at as int) =~= other@.take(at - 1).push(other@[at - 1]));
                assert((Said { pieces })@ =~= before + other@.take(at as int));
            }
        }
        let said = Said { pieces };
        proof {
            assert(other@.take(at as int) =~= other@);
        }
        said
    }

    /// Whether there is nothing in it.
    pub fn is_empty(&self) -> (empty: bool)
        ensures
            empty == (self@.len() == 0),
    {
        self.pieces.len() == 0
    }

    /// Its runs, in order, for a drawing that hides some of them.
    pub fn pieces(&self) -> (pieces: &Vec<Piece>)
        ensures
            self@ == Seq::new(pieces@.len(), |i: int| pieces@[i]@),
    {
        &self.pieces
    }

    /// All of it in one text, nothing hidden.
    pub fn text(&self) -> (text: String)
        ensures
            text@ == spoken(self@),
    {
        let mut text: String = String::new();
        let mut at: usize = 0;
        proof {
            assert(self@.take(0) =~= Seq::empty());
        }
        while at < self.pieces.len()
            invariant
                at <= self.pieces@.len(),
                text@ == spoken(self@.take(at as int)),
            decreases self.pieces@.len() - at,
        {
            let piece: &Piece = &self.pieces[at];
            proof {
                assert(self@.take(at + 1).drop_last() =~= self@.take(at as int));
                assert(self@.take(at + 1).last() == piece@);
            }
            match piece.kind {
                PieceKind::Quote => text.append(&quote(&piece.text)),
                _ => text.append(&piece.text),
            }
            at = at + 1;
        }
        proof {
            assert(self@.take(at as int) =~= self@);
        }
        text
    }
}

/// Things said, with `between` between each two.
pub open spec fn joined(parts: Seq<Seq<PieceView>>, between: Seq<char>) -> Seq<PieceView>
    decreases parts.len(),
{
    if parts.len() == 0 {
        Seq::empty()
    } else if parts.len() == 1 {
        parts[0]
    } else {
        joined(parts.drop_last(), between) + words(between) + parts.last()
    }
}

/// What each of them says.
pub open spec fn parts_of(parts: Seq<Said>) -> Seq<Seq<PieceView>> {
    Seq::new(parts.len(), |i: int| parts[i]@)
}

/// `parts` with `between` between each two.
pub fn join(parts: &Vec<Said>, between: &str) -> (said: Said)
    ensures
        said@ == joined(parts_of(parts@), between@),
{
    let mut said = Said::nothing();
    let mut at: usize = 0;
    while at < parts.len()
        invariant
            at <= parts@.len(),
            said@ == joined(parts_of(parts@).take(at as int), between@),
        decreases parts@.len() - at,
    {
        let ghost listed = parts_of(parts@);
        proof {
            assert(listed.take(at + 1).drop_last() =~= listed.take(at as int));
        }
        if at > 0 {
            said = said.words(between);
        }
        said = said.join(&parts[at]);
        at = at + 1;
        proof {
            if at == 1 {
                assert(said@ =~= listed[0]);
            }
        }
    }
    proof {
        assert(parts_of(parts@).take(at as int) =~= parts_of(parts@));
    }
    said
}

/// What is said one after another is heard one after another.
pub proof fn spoken_in_order(one: Seq<PieceView>, other: Seq<PieceView>)
    ensures
        spoken(one + other) == spoken(one) + spoken(other),
    decreases other.len(),
{
    if other.len() == 0 {
        assert(one + other =~= one);
        assert(spoken(one) + spoken(other) =~= spoken(one));
    } else {
        spoken_in_order(one, other.drop_last());
        assert((one + other).drop_last() =~= one + other.drop_last());
        assert(spoken(one + other) =~= spoken(one) + spoken(other));
    }
}

/// A single run is heard as it is written, unless it is a quotation.
pub proof fn a_run_is_heard_as_written(kind: PieceKind, text: Seq<char>)
    requires
        !(kind is Quote),
    ensures
        spoken(run(kind, text)) == text,
{
    if text.len() > 0 {
        assert(run(kind, text).drop_last() =~= Seq::empty());
        assert(spoken(run(kind, text).drop_last()) =~= Seq::empty());
        assert(spoken(run(kind, text)) =~= text);
    } else {
        assert(text =~= Seq::empty());
    }
}

/// Only a quotation is said in quotes; every other run is heard as it is
/// written.
pub proof fn only_a_quotation_is_quoted(piece: PieceView)
    ensures
        piece.kind is Quote ==> piece.plain() == quoted(piece.text),
        !(piece.kind is Quote) ==> piece.plain() == piece.text,
{
}

/// An amount and a typed figure are the owner's figures, a name the owner's
/// name, and words neither; nothing said is no run at all.
pub proof fn each_run_is_of_its_kind(text: Seq<char>, cents: Cents)
    requires
        text.len() > 0,
    ensures
        words(text) == seq![PieceView { kind: PieceKind::Words, text }],
        name(text) == seq![PieceView { kind: PieceKind::Name, text }],
        typed(text) == seq![PieceView { kind: PieceKind::Figure, text }],
        quotation(text) == seq![PieceView { kind: PieceKind::Quote, text }],
        amount(cents) == seq![PieceView { kind: PieceKind::Figure, text: figure(cents) }],
        whole_amount(cents) == seq![
            PieceView { kind: PieceKind::Figure, text: whole_figure(cents) },
        ],
        words(Seq::empty()).len() == 0,
{
    crate::money::a_figure_ends_in_its_cents(cents);
    assert(crate::money::reads_amount(Seq::<char>::empty()) is None) by {
        let none = Seq::<char>::empty();
        crate::money::a_figure_reads_by_its_parts(none, none);
    }
    if whole_figure(cents).len() == 0 {
        assert(whole_figure(cents) =~= Seq::<char>::empty());
    }
}

/// Parts are said in order with the same words between each two, and none
/// before the first or after the last.
pub proof fn parts_are_said_in_order(
    parts: Seq<Seq<PieceView>>,
    next: Seq<PieceView>,
    between: Seq<char>,
)
    ensures
        joined(Seq::<Seq<PieceView>>::empty(), between) == Seq::<PieceView>::empty(),
        joined(seq![next], between) == next,
        parts.len() > 0 ==> joined(parts.push(next), between) == joined(parts, between) + words(
            between,
        ) + next,
{
    assert(parts.push(next).drop_last() =~= parts);
}

} // verus!
