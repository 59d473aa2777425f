//! Joining the outcomes of resolutions that were started together.

use vstd::prelude::*;

verus! {

/// The error of the first outcome that failed, if any did.
pub open spec fn first_error<T, E>(results: Seq<Result<T, E>>) -> Option<E>
    decreases results.len(),
{
    if results.len() == 0 {
        None
    } else {
        match first_error(results.drop_last()) {
            Some(error) => Some(error),
            None => match results.last() {
                Ok(_) => None,
                Err(error) => Some(error),
            },
        }
    }
}

/// The values of outcomes that all succeeded, in their order.
pub open spec fn values_of<T, E>(results: Seq<Result<T, E>>) -> Seq<T> {
    Seq::new(results.len(), |i: int| results[i]->Ok_0)
}

/// An outcome with the view of its value in place of the value.
pub open spec fn result_view<T: View, E>(result: Result<T, E>) -> Result<T::V, E> {
    match result {
        Ok(value) => Ok(value@),
        Err(error) => Err(error),
    }
}

/// Outcomes with the views of their values in place of the values.
pub open spec fn results_view<T: View, E>(results: Seq<Result<T, E>>) -> Seq<Result<T::V, E>> {
    Seq::new(results.len(), |i: int| result_view(results[i]))
}

/// Taking views neither moves nor changes the first error, and where all
/// outcomes succeeded, the values of the views are the views of the values.
pub proof fn lemma_first_error_of_views<T: View, E>(results: Seq<Result<T, E>>)
    ensures
        first_error(results_view(results)) == first_error(results),
        first_error(results) is None ==> values_of(results_view(results)) == Seq::new(
            results.len(),
            |i: int| values_of(results)[i]@,
        ),
    decreases results.len(),
{
    if results.len() > 0 {
        lemma_first_error_of_views(results.drop_last());
        assert(results_view(results).drop_last() =~= results_view(results.drop_last()));
        assert(results_view(results).last() == result_view(results.last()));
    }
    if first_error(results) is None {
        lemma_first_error_is_first(results);
        assert(values_of(results_view(results)) =~= Seq::new(
            results.len(),
            |i: int| values_of(results)[i]@,
        ));
    }
}

/// No error is found exactly where every outcome is a success; an error that
/// is found belongs to a failed outcome before which all succeeded.
pub proof fn lemma_first_error_is_first<T, E>(results: Seq<Result<T, E>>)
    ensures
        first_error(results) is None <==> forall|i: int|
            0 <= i < results.len() ==> (#[trigger] results[i]) is Ok,
        first_error(results) matches Some(error) ==> exists|i: int|
            0 <= i < results.len() && #[trigger] results[i] == Err::<T, E>(error) && forall|j: int|
                0 <= j < i ==> (#[trigger] results[j]) is Ok,
    decreases results.len(),
{
    if results.len() > 0 {
        let front = results.drop_last();
        lemma_first_error_is_first(front);
        assert(forall|i: int| 0 <= i < front.len() ==> front[i] == results[i]);
        match first_error(front) {
            Some(error) => {
                let i = choose|i: int|
                    0 <= i < front.len() && #[trigger] front[i] == Err::<T, E>(error) && forall|
                        j: int,
                    |
                        0 <= j < i ==> (#[trigger] front[j]) is Ok;
                assert(results[i] == Err::<T, E>(error));
                assert(forall|j: int| 0 <= j < i ==> (#[trigger] results[j]) == front[j]);
            },
            None => {
                let last = results.len() - 1;
                match results.last() {
                    Ok(_) => {
                        assert forall|i: int| 0 <= i < results.len() implies (
                        #[trigger] results[i]) is Ok by {
                            if i < last {
                                assert(front[i] is Ok);
                            }
                        }
                    },
                    Err(error) => {
                        assert(results[last] == Err::<T, E>(error));
                        assert forall|j: int| 0 <= j < last implies (#[trigger] results[j]) is Ok by {
                            assert(front[j] is Ok);
                        }
                    },
                }
            },
        }
    }
}

/// An error found among the first `k` outcomes is the first error of all.
pub proof fn lemma_first_error_of_prefix<T, E>(results: Seq<Result<T, E>>, k: int)
    requires
        0 <= k <= results.len(),
        first_error(results.take(k)) is Some,
    ensures
        first_error(results) == first_error(results.take(k)),
    decreases results.len(),
{
    if k == results.len() {
        assert(results.take(k) =~= results);
    } else {
        assert(results.drop_last().take(k) =~= results.take(k));
        lemma_first_error_of_prefix(results.drop_last(), k);
    }
}

/// Joins the outcomes of resolutions that ran side by side: all the values in
/// their order where every one succeeded, else the error of the first that
/// failed, and none of the values.
pub fn try_join<T, E>(results: Vec<Result<T, E>>) -> (joined: Result<Vec<T>, E>)
    ensures
        match first_error(results@) {
            Some(error) => joined == Err::<Vec<T>, E>(error),
            None => joined matches Ok(values) && values@ == values_of(results@),
        },
{
    let ghost all = results@;
    let mut values: Vec<T> = Vec::new();
    for result in it: results
        invariant
            it.seq() == all,
            first_error(all.take(it.index() as int)) is None,
            values@ == values_of(all.take(it.index() as int)),
    {
        let ghost done = it.index() as int;
        proof {
            assert(all.take(done + 1).drop_last() =~= all.take(done));
        }
        match result {
            Ok(value) => {
                values.push(value);
                assert(values@ =~= values_of(all.take(done + 1)));
            },
            Err(error) => {
                proof {
                    lemma_first_error_of_prefix(all, done + 1);
                }
                return Err(error);
            },
        }
    }
    proof {
        assert(all.take(all.len() as int) =~= all);
    }
    Ok(values)
}

} // verus!
