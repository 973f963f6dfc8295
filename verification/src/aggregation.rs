//! Which aggregator an instrument gets: its name says so.

use crate::text::ends_with;
use vstd::prelude::*;

verus! {

/// The aggregations that an instrument's name can ask for.
#[derive(Copy, Clone, Debug, PartialEq, Eq, Structural)]
pub enum Aggregation {
    Sum,
    LastValue,
    Histogram,
}

/// An aggregator to be made.
#[derive(Debug)]
pub enum AggregatorPlan {
    /// One that adds up.
    Sum,
    /// One that keeps the last value.
    LastValue,
    /// One that counts by buckets. The boundaries between the buckets are in tenths.
    Histogram { boundaries: Vec<u32> },
}

/// Picks aggregators by the names of instruments.
#[derive(Debug, Default)]
pub struct AggregatorSelector;

/// The ending that asks for an aggregation.
pub open spec fn ending(aggregation: Aggregation) -> Seq<char> {
    match aggregation {
        Aggregation::Sum => ".sum"@,
        Aggregation::LastValue => ".last"@,
        Aggregation::Histogram => ".histogram"@,
    }
}

/// The aggregation that a name asks for, if it asks for one.
pub open spec fn aggregation_named(name: Seq<char>) -> Option<Aggregation> {
    if ending(Aggregation::Sum).is_suffix_of(name) {
        Some(Aggregation::Sum)
    } else if ending(Aggregation::LastValue).is_suffix_of(name) {
        Some(Aggregation::LastValue)
    } else if ending(Aggregation::Histogram).is_suffix_of(name) {
        Some(Aggregation::Histogram)
    } else {
        None
    }
}

/// The boundaries of every histogram, in tenths: from 0 up to 9.9 in steps of 0.1.
pub open spec fn boundaries_in_tenths() -> Seq<u32> {
    Seq::new(100, |i: int| i as u32)
}

/// `plan` makes an aggregator of the kind of `aggregation`.
pub open spec fn plans(plan: AggregatorPlan, aggregation: Aggregation) -> bool {
    match plan {
        AggregatorPlan::Sum => aggregation == Aggregation::Sum,
        AggregatorPlan::LastValue => aggregation == Aggregation::LastValue,
        AggregatorPlan::Histogram { boundaries } => {
            &&& aggregation == Aggregation::Histogram
            &&& boundaries@ == boundaries_in_tenths()
        },
    }
}

impl Aggregation {
    /// The aggregation that an instrument's name asks for; `None` where it asks for
    /// none.
    pub fn of_name(name: &str) -> (aggregation: Option<Aggregation>)
        ensures
            aggregation == aggregation_named(name@),
            aggregation == Some(Aggregation::Sum) <==> ".sum"@.is_suffix_of(name@),
            aggregation == Some(Aggregation::LastValue) <==> ".last"@.is_suffix_of(name@),
            aggregation == Some(Aggregation::Histogram) <==> ".histogram"@.is_suffix_of(name@),
    {
        proof {
            three_endings_decide(name@);
        }
        if ends_with(name, ".sum") {
            Some(Aggregation::Sum)
        } else if ends_with(name, ".last") {
            Some(Aggregation::LastValue)
        } else if ends_with(name, ".histogram") {
            Some(Aggregation::Histogram)
        } else {
            None
        }
    }
}

/// The boundaries of every histogram, in tenths.
fn histogram_boundaries() -> (boundaries: Vec<u32>)
    ensures
        boundaries@ == boundaries_in_tenths(),
        boundaries.len() == 100,
        forall|i: int| 0 <= i < 100 ==> #[trigger] boundaries@[i] == i,
{
    let mut boundaries: Vec<u32> = Vec::new();
    for i in 0..100u32
        invariant
            boundaries@ == boundaries_in_tenths().take(i as int),
    {
        boundaries.push(i);
        assert(boundaries@ =~= boundaries_in_tenths().take(i + 1));
    }
    assert(boundaries@ =~= boundaries_in_tenths());
    boundaries
}

impl AggregatorSelector {
    /// The aggregator for the instrument called `name`. The name has to ask for one; see
    /// [`Aggregation::of_name`].
    pub fn aggregator_for(&self, name: &str) -> (plan: Option<AggregatorPlan>)
        requires
            aggregation_named(name@) is Some,
        ensures
            plan is Some,
            plans(plan->0, aggregation_named(name@)->0),
            plan->0 is Sum <==> ".sum"@.is_suffix_of(name@),
            plan->0 is LastValue <==> ".last"@.is_suffix_of(name@),
            plan->0 is Histogram <==> ".histogram"@.is_suffix_of(name@),
            plan->0 is Histogram ==> plan->0->boundaries.len() == 100,
            plan->0 is Histogram ==> forall|i: int|
                0 <= i < 100 ==> #[trigger] plan->0->boundaries@[i] == i,
    {
        proof {
            three_endings_decide(name@);
        }
        match Aggregation::of_name(name) {
            Some(Aggregation::Sum) => Some(AggregatorPlan::Sum),
            Some(Aggregation::LastValue) => Some(AggregatorPlan::LastValue),
            Some(Aggregation::Histogram) => Some(
                AggregatorPlan::Histogram { boundaries: histogram_boundaries() },
            ),
            None => None,
        }
    }
}

/// A name asks for an aggregation exactly when it has the ending that stands for it: no
/// name has two of the endings.
pub proof fn ending_decides(name: Seq<char>, aggregation: Aggregation)
    ensures
        aggregation_named(name) == Some(aggregation) <==> ending(aggregation).is_suffix_of(name),
{
    reveal_strlit(".sum");
    reveal_strlit(".last");
    reveal_strlit(".histogram");
    let n = name.len() as int;
    if ending(Aggregation::Sum).is_suffix_of(name) {
        assert(".sum"@[3] == name.subrange(n - 4, n)[3] && ".sum"@[2] == name.subrange(n - 4, n)[2]);
    }
    if ending(Aggregation::LastValue).is_suffix_of(name) {
        assert(".last"@[4] == name.subrange(n - 5, n)[4]);
    }
    if ending(Aggregation::Histogram).is_suffix_of(name) {
        assert(".histogram"@[9] == name.subrange(n - 10, n)[9]);
        assert(".histogram"@[8] == name.subrange(n - 10, n)[8]);
    }
}

/// A name asks for a sum, the last value or a histogram exactly when it ends in the text for
/// it, whatever stands before that. It asks for nothing when it ends in none of them.
pub proof fn three_endings_decide(name: Seq<char>)
    ensures
        aggregation_named(name) == Some(Aggregation::Sum) <==> ".sum"@.is_suffix_of(name),
        aggregation_named(name) == Some(Aggregation::LastValue) <==> ".last"@.is_suffix_of(name),
        aggregation_named(name) == Some(Aggregation::Histogram) <==> ".histogram"@.is_suffix_of(name),
{
    ending_decides(name, Aggregation::Sum);
    ending_decides(name, Aggregation::LastValue);
    ending_decides(name, Aggregation::Histogram);
}

/// What a name asks for does not change when more is written before it.
pub proof fn front_has_no_effect(front: Seq<char>, name: Seq<char>)
    requires
        aggregation_named(name) is Some,
    ensures
        aggregation_named(front + name) == aggregation_named(name),
{
    let aggregation = aggregation_named(name)->0;
    let end = ending(aggregation);
    let whole = front + name;
    ending_decides(name, aggregation);
    assert(end =~= whole.subrange(whole.len() - end.len(), whole.len() as int));
    ending_decides(whole, aggregation);
}

/// There are 100 boundaries, the first is 0, and each lies one tenth above the one before.
pub proof fn boundaries_are_a_tenth_apart(i: int)
    requires
        0 <= i < 99,
    ensures
        boundaries_in_tenths().len() == 100,
        boundaries_in_tenths()[0] == 0,
        boundaries_in_tenths()[i + 1] == boundaries_in_tenths()[i] + 1,
{
}

/// A plan is for one aggregation at most, and every histogram gets the same boundaries.
pub proof fn plan_fits_one_aggregation(plan: AggregatorPlan, aggregation: Aggregation)
    requires
        plans(plan, aggregation),
    ensures
        plan is Sum <==> aggregation == Aggregation::Sum,
        plan is LastValue <==> aggregation == Aggregation::LastValue,
        plan is Histogram <==> aggregation == Aggregation::Histogram,
        plan is Histogram ==> plan->boundaries@ == Seq::new(100, |i: int| i as u32),
{
}

/// The boundaries rise.
pub proof fn boundaries_rise(i: int, j: int)
    requires
        0 <= i < j < boundaries_in_tenths().len(),
    ensures
        boundaries_in_tenths()[i] < boundaries_in_tenths()[j],
{
}

} // verus!
