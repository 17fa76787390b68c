//! What holds of a worker's average rating over all reviews.

use vstd::prelude::*;
use vstd::seq_lib::to_multiset_remove;

use super::laws::{all_in_range, every_history_keeps_the_bounds, run, Op, Step};
use super::reputation::lemma_average;

verus! {

/// The ratings of the worker `id` in the reviews of `steps` that were let in, in their order.
pub open spec fn ratings(steps: Seq<Step>, id: Seq<char>) -> Seq<u32>
    decreases steps.len(),
{
    if steps.len() == 0 {
        seq![]
    } else {
        let before = ratings(steps.drop_last(), id);
        let s = run(steps.drop_last());
        let last = steps.last();
        match last.op {
            Op::SubmitReview { id: reviewed, rating, .. } => if reviewed@ == id && s.verdict(
                last.op,
                last.now,
                last.sequence,
            ) is Ok {
                before.push(rating)
            } else {
                before
            },
            _ => before,
        }
    }
}

/// Whether the last of `steps` is a review of the worker `id` that was let in.
pub open spec fn ends_with_review(steps: Seq<Step>, id: Seq<char>) -> bool {
    &&& steps.len() > 0
    &&& ratings(steps, id).len() > ratings(steps.drop_last(), id).len()
}

/// The sum of `s`.
pub open spec fn sum(s: Seq<u32>) -> int
    decreases s.len(),
{
    if s.len() == 0 {
        0
    } else {
        sum(s.drop_last()) + s.last()
    }
}

proof fn lemma_sum_remove(s: Seq<u32>, i: int)
    requires
        0 <= i < s.len(),
    ensures
        sum(s) == sum(s.remove(i)) + s[i],
    decreases s.len(),
{
    let before = s.drop_last();
    if i == s.len() - 1 {
        assert(s.remove(i) =~= before);
    } else {
        lemma_sum_remove(before, i);
        assert(s.remove(i).drop_last() =~= before.remove(i));
        assert(s.remove(i).last() == s.last());
    }
}

proof fn lemma_sum_any_order(s: Seq<u32>, t: Seq<u32>)
    requires
        s.to_multiset() == t.to_multiset(),
    ensures
        s.len() == t.len(),
        sum(s) == sum(t),
    decreases s.len(),
{
    s.to_multiset_ensures();
    t.to_multiset_ensures();
    if s.len() > 0 {
        let x = s.last();
        assert(s.contains(x)) by {
            assert(s[s.len() - 1] == x);
        }
        assert(s.to_multiset().count(x) > 0);
        let i = choose|i: int| 0 <= i < t.len() && t[i] == x;
        to_multiset_remove(s, s.len() - 1);
        to_multiset_remove(t, i);
        assert(s.remove(s.len() - 1) =~= s.drop_last());
        lemma_sum_any_order(s.drop_last(), t.remove(i));
        lemma_sum_remove(t, i);
    }
}

/// Whatever has been called since the contract was deployed, what is counted of a worker's
/// reviews is the sum and the number of all ratings.
pub proof fn all_ratings_are_counted(steps: Seq<Step>, id: Seq<char>)
    requires
        all_in_range(steps),
    ensures
        run(steps).inputs_of(id).rating_sum == sum(ratings(steps, id)),
        run(steps).inputs_of(id).rating_count == ratings(steps, id).len(),
    decreases steps.len(),
{
    if steps.len() > 0 {
        let before = steps.drop_last();
        let s = run(before);
        let last = steps.last();
        all_ratings_are_counted(before, id);
        every_history_keeps_the_bounds(before);
        match last.op {
            Op::SubmitReview { id: reviewed, rating, .. } => {
                if reviewed@ == id && s.verdict(last.op, last.now, last.sequence) is Ok {
                    assert(ratings(steps, id).drop_last() =~= ratings(before, id));
                }
            },
            _ => {},
        }
    }
}

/// A review makes a worker's average rating the sum of all ratings so far divided by their
/// number.
pub proof fn the_average_is_that_of_all_ratings(steps: Seq<Step>, id: Seq<char>)
    requires
        all_in_range(steps),
        ends_with_review(steps, id),
    ensures
        ratings(steps, id).len() > 0,
        run(steps).workers[id].avg_rating == sum(ratings(steps, id)) / (ratings(
            steps,
            id,
        ).len() as int),
{
    all_ratings_are_counted(steps, id);
    every_history_keeps_the_bounds(steps);
    let inputs = run(steps).inputs_of(id);
    lemma_average(inputs.rating_sum as int, inputs.rating_count as int);
}

/// The order of the reviews does not matter: the same ratings give the same average.
pub proof fn the_average_ignores_the_order(a: Seq<Step>, b: Seq<Step>, id: Seq<char>)
    requires
        all_in_range(a),
        all_in_range(b),
        ends_with_review(a, id),
        ends_with_review(b, id),
        ratings(a, id).to_multiset() == ratings(b, id).to_multiset(),
    ensures
        run(a).workers[id].avg_rating == run(b).workers[id].avg_rating,
{
    the_average_is_that_of_all_ratings(a, id);
    the_average_is_that_of_all_ratings(b, id);
    lemma_sum_any_order(ratings(a, id), ratings(b, id));
}

} // verus!
