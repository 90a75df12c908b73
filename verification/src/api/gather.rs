//! Putting together the answers to several requests.

use vstd::prelude::*;

verus! {

/// Whether `place` is where the first failure stands in `answers`.
pub open spec fn is_first_failure<T, E>(answers: Seq<Result<T, E>>, place: int) -> bool {
    &&& 0 <= place < answers.len()
    &&& answers[place] is Err
    &&& forall|earlier: int| 0 <= earlier < place ==> (#[trigger] answers[earlier]) is Ok
}

/// Puts the answers to several requests together: every value, in the order of the
/// requests, where every request succeeded; else the first failure.
pub fn gather<T, E>(answers: Vec<Result<T, E>>) -> (all: Result<Vec<T>, E>)
    ensures
        match all {
            Ok(values) => {
                &&& values@.len() == answers@.len()
                &&& forall|place: int|
                    0 <= place < answers@.len() ==> #[trigger] answers@[place] == Ok::<T, E>(
                        values@[place],
                    )
            },
            Err(failure) => exists|place: int|
                is_first_failure(answers@, place) && #[trigger] answers@[place] == Err::<T, E>(
                    failure,
                ),
        },
{
    let ghost given = answers@;
    let mut values: Vec<T> = Vec::new();
    for answer in answers_left: answers
        invariant
            answers_left.seq() == given,
            values@.len() == answers_left.index(),
            forall|place: int|
                0 <= place < values@.len() ==> #[trigger] given[place] == Ok::<T, E>(values@[place]),
    {
        match answer {
            Ok(value) => {
                values.push(value);
            },
            Err(failure) => {
                return Err(failure);
            },
        }
    }
    Ok(values)
}

} // verus!
