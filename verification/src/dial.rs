//! A filter that cycles: All, and then each choice in turn.

use vstd::prelude::*;

verus! {

/// A place among the choices a screen narrows by, or All.
#[derive(Debug)]
pub struct Dial {
    choices: Vec<i64>,
    at: Option<usize>,
}

/// What a [`Dial`] stands for.
pub struct DialView {
    pub choices: Seq<i64>,
    pub at: Option<int>,
}

impl DialView {
    pub open spec fn valid(self) -> bool {
        self.at matches Some(at) ==> 0 <= at < self.choices.len()
    }

    /// The choice the dial is on; `None` on All.
    pub open spec fn chosen(self) -> Option<i64> {
        match self.at {
            Some(at) => Some(self.choices[at]),
            None => None,
        }
    }

    pub open spec fn cleared(self) -> DialView {
        DialView { at: None, ..self }
    }

    /// One choice on. All comes after the last.
    pub open spec fn forward(self) -> DialView {
        let next: int = match self.at {
            Some(at) => at + 1,
            None => 0,
        };
        DialView {
            at: if next < self.choices.len() {
                Some(next)
            } else {
                None
            },
            ..self
        }
    }

    /// One choice back. All comes before the first.
    pub open spec fn back(self) -> DialView {
        let previous: int = match self.at {
            Some(at) => at - 1,
            None => self.choices.len() - 1,
        };
        DialView {
            at: if previous >= 0 {
                Some(previous)
            } else {
                None
            },
            ..self
        }
    }

    /// The dial over other choices, on the choice it was on wherever that is
    /// still among them and on All otherwise.
    pub open spec fn over(self, choices: Seq<i64>) -> DialView {
        DialView {
            choices,
            at: match self.chosen() {
                Some(choice) => choices.index_of_first(choice),
                None => None,
            },
        }
    }
}

impl View for Dial {
    type V = DialView;

    closed spec fn view(&self) -> DialView {
        DialView {
            choices: self.choices@,
            at: match self.at {
                Some(at) => Some(at as int),
                None => None,
            },
        }
    }
}

impl Dial {
    #[verifier::type_invariant]
    spec fn on_a_choice(self) -> bool {
        self@.valid()
    }

    /// A dial over `choices`, on All.
    pub fn new(choices: Vec<i64>) -> (dial: Dial)
        ensures
            dial@ == (DialView { choices: choices@, at: None }),
    {
        Dial { choices, at: None }
    }

    /// The choice the dial is on; `None` on All.
    pub fn chosen(&self) -> (choice: Option<i64>)
        ensures
            choice == self@.chosen(),
    {
        proof {
            use_type_invariant(self);
        }
        match self.at {
            Some(at) => Some(self.choices[at]),
            None => None,
        }
    }

    pub fn clear(&mut self)
        ensures
            final(self)@ == old(self)@.cleared(),
    {
        self.at = None;
    }

    pub fn next(&mut self)
        ensures
            final(self)@ == old(self)@.forward(),
    {
        proof {
            use_type_invariant(&*self);
        }
        let len: usize = self.choices.len();
        self.at = match self.at {
            Some(at) => if at < len - 1 {
                Some(at + 1)
            } else {
                None
            },
            None => if 0 < len {
                Some(0)
            } else {
                None
            },
        };
    }

    pub fn previous(&mut self)
        ensures
            final(self)@ == old(self)@.back(),
    {
        proof {
            use_type_invariant(&*self);
        }
        let len: usize = self.choices.len();
        self.at = match self.at {
            Some(at) => if at > 0 {
                Some(at - 1)
            } else {
                None
            },
            None => if 0 < len {
                Some(len - 1)
            } else {
                None
            },
        };
    }

    /// Cycle over other choices, staying on the one the dial is on wherever it
    /// is still among them.
    pub fn set_choices(&mut self, choices: Vec<i64>)
        ensures
            final(self)@ == old(self)@.over(choices@),
    {
        let at: Option<usize> = match self.chosen() {
            Some(choice) => place_in(&choices, choice),
            None => None,
        };
        *self = Dial { choices, at };
    }
}

/// Where `choice` first stands among `choices`.
fn place_in(choices: &Vec<i64>, choice: i64) -> (place: Option<usize>)
    ensures
        match place {
            Some(at) => choices@.index_of_first(choice) == Some(at as int) && at < choices@.len(),
            None => choices@.index_of_first(choice) is None,
        },
{
    proof {
        choices@.index_of_first_ensures(choice);
    }
    let mut at: usize = 0;
    while at < choices.len()
        invariant
            at <= choices@.len(),
            forall|i: int| 0 <= i < at ==> choices@[i] != choice,
        decreases choices@.len() - at,
    {
        if choices[at] == choice {
            proof {
                choices@.index_of_first_ensures(choice);
                let first = choices@.index_of_first(choice)->0;
                assert(choices@[first] == choice);
            }
            return Some(at);
        }
        at = at + 1;
    }
    None
}

/// Cycling one way and back again returns to where it started, All included.
pub proof fn cycling_is_undone(dial: DialView)
    requires
        dial.valid(),
    ensures
        dial.forward().valid(),
        dial.back().valid(),
        dial.forward().back() == dial,
        dial.back().forward() == dial,
{
}

/// Other choices leave the dial on the same choice, or on All where it is
/// gone.
pub proof fn new_choices_keep_the_choice(dial: DialView, choices: Seq<i64>)
    requires
        dial.valid(),
    ensures
        dial.over(choices).valid(),
        dial.over(choices).chosen() == (match dial.chosen() {
            Some(choice) => if choices.contains(choice) {
                Some(choice)
            } else {
                None
            },
            None => None,
        }),
{
    if let Some(choice) = dial.chosen() {
        choices.index_of_first_ensures(choice);
    }
}

/// Forward goes from All to the first choice and on through the last to All
/// again; back goes the other way.
pub proof fn a_dial_turns_through_its_choices(dial: DialView)
    requires
        dial.valid(),
    ensures
        dial.at is None && dial.choices.len() > 0 ==> dial.forward().chosen() == Some(
            dial.choices[0],
        ) && dial.back().chosen() == Some(dial.choices.last()),
        dial.choices.len() == 0 ==> dial.forward().chosen() is None
            && dial.back().chosen() is None,
        dial.at matches Some(at) ==> (at + 1 < dial.choices.len() ==> dial.forward().chosen()
            == Some(dial.choices[at + 1])),
        dial.at == Some(dial.choices.len() - 1) ==> dial.forward().chosen() is None,
        dial.at matches Some(at) ==> (at > 0 ==> dial.back().chosen() == Some(
            dial.choices[at - 1],
        )),
        dial.at == Some(0int) ==> dial.back().chosen() is None,
        dial.cleared().chosen() is None,
        dial.forward().choices == dial.choices,
        dial.back().choices == dial.choices,
        dial.cleared().choices == dial.choices,
{
}

} // verus!
