//! Running a step function on a sequence of events. The lemmas hold of any step function.

use vstd::prelude::*;

verus! {

/// A run goes on after a sequence of events as if it had begun there.
pub(crate) proof fn lemma_fold_add<S, E>(
    start: S,
    step: spec_fn(S, E) -> S,
    first: Seq<E>,
    second: Seq<E>,
)
    ensures
        (first + second).fold_left(start, step) == second.fold_left(
            first.fold_left(start, step),
            step,
        ),
    decreases second.len(),
{
    if second.len() == 0 {
        assert(first + second =~= first);
    } else {
        lemma_fold_add(start, step, first, second.drop_last());
        assert((first + second).drop_last() =~= first + second.drop_last());
    }
}

/// The first event of a sequence comes before the others.
pub(crate) proof fn lemma_fold_first<S, E>(start: S, step: spec_fn(S, E) -> S, events: Seq<E>)
    requires
        events.len() > 0,
    ensures
        events.fold_left(start, step) == events.skip(1).fold_left(step(start, events[0]), step),
{
    let first = events.take(1);
    lemma_fold_add(start, step, first, events.skip(1));
    assert(first + events.skip(1) =~= events);
    assert(first.drop_last() =~= Seq::empty());
    assert(first.drop_last().fold_left(start, step) == start);
}

/// Three events, one after the other.
pub(crate) proof fn lemma_fold_three<S, E>(start: S, step: spec_fn(S, E) -> S, events: Seq<E>)
    requires
        events.len() >= 3,
    ensures
        events.fold_left(start, step) == events.skip(3).fold_left(
            step(step(step(start, events[0]), events[1]), events[2]),
            step,
        ),
{
    let s1 = step(start, events[0]);
    let s2 = step(s1, events[1]);
    lemma_fold_first(start, step, events);
    lemma_fold_first(s1, step, events.skip(1));
    lemma_fold_first(s2, step, events.skip(1).skip(1));
    assert(events.skip(1).skip(1).skip(1) =~= events.skip(3));
}

/// Five events, one after the other.
pub(crate) proof fn lemma_fold_five<S, E>(start: S, step: spec_fn(S, E) -> S, events: Seq<E>)
    requires
        events.len() >= 5,
    ensures
        events.fold_left(start, step) == events.skip(5).fold_left(
            step(
                step(step(step(step(start, events[0]), events[1]), events[2]), events[3]),
                events[4],
            ),
            step,
        ),
{
    let s3 = step(step(step(start, events[0]), events[1]), events[2]);
    let s4 = step(s3, events[3]);
    lemma_fold_three(start, step, events);
    lemma_fold_first(s3, step, events.skip(3));
    lemma_fold_first(s4, step, events.skip(3).skip(1));
    assert(events.skip(3).skip(1).skip(1) =~= events.skip(5));
}

} // verus!
