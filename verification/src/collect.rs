//! Collecting a list of checked items: all of them, or the first error.

use vstd::prelude::*;

verus! {

/// The values of `results` in order if none is an error, else the error
/// of the first one that is.
pub open spec fn collected<T, E>(results: Seq<Result<T, E>>) -> Result<Seq<T>, E>
    decreases results.len(),
{
    if results.len() == 0 {
        Ok(Seq::empty())
    } else {
        match collected(results.drop_last()) {
            Err(error) => Err(error),
            Ok(values) => match results.last() {
                Err(error) => Err(error),
                Ok(value) => Ok(values.push(value)),
            },
        }
    }
}

/// Collecting one more item: an earlier error stays, else the new item
/// decides.
pub proof fn collected_step<T, E>(results: Seq<Result<T, E>>, done: int)
    requires
        0 <= done < results.len(),
    ensures
        collected(results.take(done + 1)) == match collected(results.take(done)) {
            Err(error) => Err(error),
            Ok(values) => match results[done] {
                Err(error) => Err(error),
                Ok(value) => Ok(values.push(value)),
            },
        },
{
    let longer = results.take(done + 1);
    assert(longer.drop_last() == results.take(done));
    assert(longer.last() == results[done]);
}

/// An error among the first `done` items is the error of the whole list.
pub proof fn collected_error_stays<T, E>(results: Seq<Result<T, E>>, done: int)
    requires
        0 <= done <= results.len(),
        collected(results.take(done)) is Err,
    ensures
        collected(results) == collected(results.take(done)),
    decreases results.len() - done,
{
    if done == results.len() {
        assert(results.take(done) == results);
    } else {
        collected_step(results, done);
        collected_error_stays(results, done + 1);
    }
}

/// Where nothing failed, every item is a value and stands at its own place.
pub proof fn collected_values<T, E>(results: Seq<Result<T, E>>)
    requires
        collected(results) is Ok,
    ensures
        collected(results)->Ok_0.len() == results.len(),
        forall|i: int|
            0 <= i < results.len() ==> results[i] == Ok::<T, E>(
                #[trigger] collected(results)->Ok_0[i],
            ),
    decreases results.len(),
{
    if results.len() > 0 {
        collected_values(results.drop_last());
    }
}

/// Where something failed, the error is that of the first failing item.
pub proof fn collected_first_error<T, E>(results: Seq<Result<T, E>>) -> (at: int)
    requires
        collected(results) is Err,
    ensures
        0 <= at < results.len(),
        results[at] == Err::<T, E>(collected(results)->Err_0),
        forall|i: int| 0 <= i < at ==> (#[trigger] results[i]) is Ok,
    decreases results.len(),
{
    let earlier = results.drop_last();
    if collected(earlier) is Err {
        let at = collected_first_error(earlier);
        assert forall|i: int| 0 <= i < at implies (#[trigger] results[i]) is Ok by {
            assert(results[i] == earlier[i]);
        }
        at
    } else {
        collected_values(earlier);
        assert forall|i: int| 0 <= i < earlier.len() implies (#[trigger] results[i]) is Ok by {
            assert(earlier[i] == Ok::<T, E>(collected(earlier)->Ok_0[i]));
        }
        results.len() - 1
    }
}

} // verus!
