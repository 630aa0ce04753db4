//! What a worksheet opens with and what it posts: the goals interest may land
//! on, the pot that is divided, and what the shares come to.

use crate::ids::GoalId;
use crate::money::{sum, sums_fit, total, Cents};
use vstd::prelude::*;

verus! {

/// A goal as a posting of interest reads it.
#[derive(Copy, Clone, Debug, PartialEq, Eq, Structural)]
pub struct Holder {
    pub goal: GoalId,
    pub interest_eligible: bool,
    pub current: Cents,
}

/// The goals interest may land on and what each holds, in their order.
pub open spec fn eligible_of(goals: Seq<Holder>) -> Seq<(GoalId, Cents)>
    decreases goals.len(),
{
    if goals.len() == 0 {
        Seq::empty()
    } else {
        let before = eligible_of(goals.drop_last());
        if goals.last().interest_eligible {
            before.push((goals.last().goal, goals.last().current))
        } else {
            before
        }
    }
}

/// The goals interest may land on and what each holds, in their order.
pub fn eligible(goals: &Vec<Holder>) -> (eligible: Vec<(GoalId, Cents)>)
    ensures
        eligible@ == eligible_of(goals@),
{
    let mut eligible: Vec<(GoalId, Cents)> = Vec::new();
    let mut at: usize = 0;
    while at < goals.len()
        invariant
            at <= goals@.len(),
            eligible@ == eligible_of(goals@.take(at as int)),
        decreases goals@.len() - at,
    {
        proof {
            assert(goals@.take(at + 1).drop_last() =~= goals@.take(at as int));
        }
        if goals[at].interest_eligible {
            eligible.push((goals[at].goal, goals[at].current));
        }
        at = at + 1;
    }
    proof {
        assert(goals@.take(at as int) =~= goals@);
    }
    eligible
}

/// A goal has a share of the interest exactly where it is marked eligible.
pub proof fn only_eligible_goals_take_interest(goals: Seq<Holder>, share: (GoalId, Cents))
    ensures
        eligible_of(goals).contains(share) <==> exists|i: int|
            0 <= i < goals.len() && (#[trigger] goals[i]).interest_eligible && goals[i].goal
                == share.0 && goals[i].current == share.1,
    decreases goals.len(),
{
    if goals.len() > 0 {
        let front = goals.drop_last();
        let before = eligible_of(front);
        let whole = eligible_of(goals);
        only_eligible_goals_take_interest(front, share);
        let found = |held: Seq<Holder>, i: int|
            held[i].interest_eligible && held[i].goal == share.0 && held[i].current == share.1;
        if whole.contains(share) {
            let at = whole.index_of(share);
            if at < before.len() {
                assert(before[at] == share);
                let i = choose|i: int|
                    0 <= i < front.len() && (#[trigger] front[i]).interest_eligible && front[i].goal
                        == share.0 && front[i].current == share.1;
                assert(goals[i] == front[i]);
            } else {
                assert(goals[goals.len() - 1].interest_eligible);
            }
        }
        if exists|i: int|
            0 <= i < goals.len() && (#[trigger] goals[i]).interest_eligible && goals[i].goal
                == share.0 && goals[i].current == share.1 {
            let i = choose|i: int|
                0 <= i < goals.len() && (#[trigger] goals[i]).interest_eligible && goals[i].goal
                    == share.0 && goals[i].current == share.1;
            if i < front.len() {
                assert(front[i] == goals[i]);
                let at = before.index_of(share);
                assert(whole[at] == share);
            } else {
                assert(whole.last() == share);
            }
        }
    }
}

/// The pot a posting of interest divides: what the container holds beyond its
/// goals, and nothing where they are owed more than it holds.
///
/// An over-allocated container is a state to fix by hand, not to split.
pub fn pot(excess: Cents) -> (pot: Cents)
    ensures
        pot.0 == (if excess.0 < 0 {
            0
        } else {
            excess.0
        }),
{
    if excess.0 < 0 {
        Cents::zero()
    } else {
        excess
    }
}

/// What each share comes to.
pub open spec fn amounts(shares: Seq<(GoalId, Cents)>) -> Seq<Cents> {
    Seq::new(shares.len(), |i: int| shares[i].1)
}

/// What a posting's shares come to together, where that fits.
pub fn shares_total(shares: &Vec<(GoalId, Cents)>) -> (all: Option<Cents>)
    ensures
        match all {
            Some(all) => sums_fit(amounts(shares@)) && all.0 == sum(amounts(shares@)),
            None => !sums_fit(amounts(shares@)),
        },
{
    let mut each: Vec<Cents> = Vec::new();
    let mut at: usize = 0;
    while at < shares.len()
        invariant
            at <= shares@.len(),
            each@ == amounts(shares@.take(at as int)),
        decreases shares@.len() - at,
    {
        each.push(shares[at].1);
        at = at + 1;
        proof {
            assert(each@ =~= amounts(shares@.take(at as int)));
        }
    }
    proof {
        assert(shares@.take(at as int) =~= shares@);
    }
    total(&each)
}

/// Every share counts towards what a posting comes to, and each once.
pub proof fn every_share_counts(shares: Seq<(GoalId, Cents)>, next: (GoalId, Cents))
    ensures
        sum(amounts(Seq::empty())) == 0,
        sum(amounts(shares.push(next))) == sum(amounts(shares)) + next.1.0,
{
    assert(amounts(Seq::empty()) =~= Seq::<Cents>::empty());
    assert(amounts(shares.push(next)) =~= amounts(shares).push(next.1));
    crate::money::every_amount_counts_once(amounts(shares), next.1);
}

/// The goals that take interest are taken in their order, each with what it
/// holds.
pub proof fn interest_is_offered_in_order(goals: Seq<Holder>, next: Holder)
    ensures
        eligible_of(Seq::empty()) == Seq::<(GoalId, Cents)>::empty(),
        next.interest_eligible ==> eligible_of(goals.push(next)) == eligible_of(goals).push(
            (next.goal, next.current),
        ),
        !next.interest_eligible ==> eligible_of(goals.push(next)) == eligible_of(goals),
{
    assert(goals.push(next).drop_last() =~= goals);
}

} // verus!
