//! Sequences of outcomes: the first failure, the last value.

use vstd::prelude::*;

verus! {

/// The view of a result: the view of its value, or its error as it is.
pub open spec fn viewed<T: DeepView, E>(result: Result<T, E>) -> Result<T::V, E> {
    match result {
        Ok(value) => Ok(value.deep_view()),
        Err(error) => Err(error),
    }
}

/// The position of the first failure among `outcomes`, if one of them is a
/// failure.
pub open spec fn first_failure<A, E>(outcomes: Seq<Result<A, E>>) -> Option<int>
    decreases outcomes.len(),
{
    if outcomes.len() == 0 {
        None
    } else {
        match first_failure(outcomes.drop_last()) {
            Some(at) => Some(at),
            None => if outcomes.last() is Err {
                Some(outcomes.len() - 1)
            } else {
                None
            },
        }
    }
}

/// `first_failure` gives the position of a failure before which every outcome
/// is a success, and gives `None` only where every outcome is a success.
pub proof fn first_failure_is_first<A, E>(outcomes: Seq<Result<A, E>>)
    ensures
        match first_failure(outcomes) {
            Some(at) => {
                &&& 0 <= at < outcomes.len()
                &&& outcomes[at] is Err
                &&& forall|k: int| 0 <= k < at ==> (#[trigger] outcomes[k]) is Ok
            },
            None => forall|k: int| 0 <= k < outcomes.len() ==> (#[trigger] outcomes[k]) is Ok,
        },
    decreases outcomes.len(),
{
    if outcomes.len() > 0 {
        let earlier = outcomes.drop_last();
        first_failure_is_first(earlier);
        assert(forall|k: int| 0 <= k < earlier.len() ==> earlier[k] == outcomes[k]);
    }
}

/// Where `outcomes[at]` is a failure and every outcome before it a success,
/// `at` is the first failure.
pub proof fn first_failure_at<A, E>(outcomes: Seq<Result<A, E>>, at: int)
    requires
        0 <= at < outcomes.len(),
        outcomes[at] is Err,
        forall|k: int| 0 <= k < at ==> (#[trigger] outcomes[k]) is Ok,
    ensures
        first_failure(outcomes) == Some(at),
{
    first_failure_is_first(outcomes);
}

/// The last of `items` that holds a value, if one of them does.
pub open spec fn last_some<A>(items: Seq<Option<A>>) -> Option<A>
    decreases items.len(),
{
    if items.len() == 0 {
        None
    } else if items.last() is Some {
        items.last()
    } else {
        last_some(items.drop_last())
    }
}

/// `last_some` gives the value of an item behind which no item holds a value,
/// and gives `None` only where no item holds one.
pub proof fn last_some_is_last<A>(items: Seq<Option<A>>)
    ensures
        match last_some(items) {
            Some(value) => exists|at: int|
                {
                    &&& 0 <= at < items.len()
                    &&& #[trigger] items[at] == Some(value)
                    &&& forall|k: int| at < k < items.len() ==> (#[trigger] items[k]) is None
                },
            None => forall|k: int| 0 <= k < items.len() ==> (#[trigger] items[k]) is None,
        },
    decreases items.len(),
{
    if items.len() > 0 {
        let earlier = items.drop_last();
        assert(forall|k: int| 0 <= k < earlier.len() ==> earlier[k] == items[k]);
        if items.last() is None {
            last_some_is_last(earlier);
            match last_some(earlier) {
                Some(value) => {
                    let at = choose|at: int|
                        {
                            &&& 0 <= at < earlier.len()
                            &&& #[trigger] earlier[at] == Some(value)
                            &&& forall|k: int|
                                at < k < earlier.len() ==> (#[trigger] earlier[k]) is None
                        };
                    assert forall|k: int| at < k < items.len() implies (#[trigger] items[k])
                        is None by {
                        if k < earlier.len() {
                            assert(earlier[k] is None);
                        }
                    }
                },
                None => {},
            }
        }
    }
}

/// One more item: it is the last value if it holds one; otherwise the last
/// value is what it was.
pub proof fn last_some_step<A>(items: Seq<Option<A>>, upto: int)
    requires
        0 <= upto < items.len(),
    ensures
        last_some(items.take(upto + 1)) == if items[upto] is Some {
            items[upto]
        } else {
            last_some(items.take(upto))
        },
{
    assert(items.take(upto + 1).drop_last() == items.take(upto));
}

} // verus!
