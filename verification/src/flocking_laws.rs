//! What holds of the flocking whatever the entities near a boid are.

use crate::flocking::{
    applies, gathered, share_x, share_y, tally, total_x, total_y, BoidStuff, Neighbor, Rule,
};
use crate::vector::Position;
use vstd::prelude::*;

verus! {

/// What one entity adds to the count under a rule.
spec fn counted(rule: Rule, stuff: BoidStuff, me: u64, at: Position, other: Neighbor) -> nat {
    if applies(rule, stuff, me, at, other) {
        1
    } else {
        0
    }
}

/// What one entity adds to the total under a rule, along x.
spec fn added_x(rule: Rule, stuff: BoidStuff, me: u64, at: Position, other: Neighbor) -> int {
    if applies(rule, stuff, me, at, other) {
        share_x(rule, at, other)
    } else {
        0
    }
}

/// What one entity adds to the total under a rule, along y.
spec fn added_y(rule: Rule, stuff: BoidStuff, me: u64, at: Position, other: Neighbor) -> int {
    if applies(rule, stuff, me, at, other) {
        share_y(rule, at, other)
    } else {
        0
    }
}

/// Taking one entity out of the others takes its share out of what they
/// add up to.
proof fn lemma_without_one(
    rule: Rule,
    stuff: BoidStuff,
    me: u64,
    at: Position,
    others: Seq<Neighbor>,
    i: int,
)
    requires
        0 <= i < others.len(),
    ensures
        tally(rule, stuff, me, at, others) == tally(rule, stuff, me, at, others.remove(i))
            + counted(rule, stuff, me, at, others[i]),
        total_x(rule, stuff, me, at, others) == total_x(rule, stuff, me, at, others.remove(i))
            + added_x(rule, stuff, me, at, others[i]),
        total_y(rule, stuff, me, at, others) == total_y(rule, stuff, me, at, others.remove(i))
            + added_y(rule, stuff, me, at, others[i]),
    decreases others.len(),
{
    if i != others.len() - 1 {
        let rest = others.drop_last();
        lemma_without_one(rule, stuff, me, at, rest, i);
        assert(others.remove(i).drop_last() =~= rest.remove(i));
    }
}

/// What a boid gathers does not depend on the order in which the entities
/// near it are named: two sequences that hold the same entities, each as
/// often as the other, give the same counts and the same totals under
/// every rule.
pub proof fn gathering_ignores_order(
    rule: Rule,
    stuff: BoidStuff,
    me: u64,
    at: Position,
    others: Seq<Neighbor>,
    shuffled: Seq<Neighbor>,
)
    requires
        others.to_multiset() == shuffled.to_multiset(),
    ensures
        tally(rule, stuff, me, at, others) == tally(rule, stuff, me, at, shuffled),
        total_x(rule, stuff, me, at, others) == total_x(rule, stuff, me, at, shuffled),
        total_y(rule, stuff, me, at, others) == total_y(rule, stuff, me, at, shuffled),
    decreases others.len(),
{
    others.to_multiset_ensures();
    shuffled.to_multiset_ensures();
    if others.len() > 0 {
        let rest = others.drop_last();
        let one = others.last();
        assert(others =~= rest.push(one));
        rest.to_multiset_ensures();
        assert(shuffled.to_multiset().count(one) > 0);
        let i = choose|i: int| 0 <= i < shuffled.len() && shuffled[i] == one;
        assert(rest.to_multiset() =~= shuffled.remove(i).to_multiset());
        gathering_ignores_order(rule, stuff, me, at, rest, shuffled.remove(i));
        lemma_without_one(rule, stuff, me, at, shuffled, i);
    }
}

/// What a boid gathers does not depend on the order in which the entities
/// near it are named.
pub proof fn gathered_ignores_order(
    stuff: BoidStuff,
    me: u64,
    at: Position,
    others: Seq<Neighbor>,
    shuffled: Seq<Neighbor>,
)
    requires
        others.to_multiset() == shuffled.to_multiset(),
    ensures
        gathered(stuff, me, at, others) == gathered(stuff, me, at, shuffled),
{
    gathering_ignores_order(Rule::Cohesion, stuff, me, at, others, shuffled);
    gathering_ignores_order(Rule::Separation, stuff, me, at, others, shuffled);
    gathering_ignores_order(Rule::Alignment, stuff, me, at, others, shuffled);
}

/// A boid on its own gathers nothing: where none of the entities near it
/// counts under a rule, the count and the totals under that rule are zero.
pub proof fn a_boid_on_its_own_gathers_nothing(
    rule: Rule,
    stuff: BoidStuff,
    me: u64,
    at: Position,
    others: Seq<Neighbor>,
)
    requires
        forall|i: int| 0 <= i < others.len() ==> !applies(rule, stuff, me, at, #[trigger] others[i]),
    ensures
        tally(rule, stuff, me, at, others) == 0,
        total_x(rule, stuff, me, at, others) == 0,
        total_y(rule, stuff, me, at, others) == 0,
    decreases others.len(),
{
    if others.len() > 0 {
        let rest = others.drop_last();
        assert forall|i: int| 0 <= i < rest.len() implies !applies(
            rule,
            stuff,
            me,
            at,
            #[trigger] rest[i],
        ) by {}
        a_boid_on_its_own_gathers_nothing(rule, stuff, me, at, rest);
    }
}

} // verus!
