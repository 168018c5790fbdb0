//! A list is decoded element by element: all elements in wire order, or the
//! error of the first element that fails.

use crate::error::DecodeError;
use vstd::prelude::*;

verus! {

/// The element at `i` fails and every element before it succeeds.
pub open spec fn is_first_failure<T>(results: Seq<Result<T, DecodeError>>, i: int) -> bool {
    &&& 0 <= i < results.len()
    &&& results[i] is Err
    &&& forall|j: int| 0 <= j < i ==> results[j] is Ok
}

/// All values in order where every element succeeds, else the error of the
/// first element that fails.
pub open spec fn all_or_first_error<T>(results: Seq<Result<T, DecodeError>>) -> Result<
    Seq<T>,
    DecodeError,
> {
    if exists|i: int| is_first_failure(results, i) {
        Err(results[choose|i: int| is_first_failure(results, i)]->Err_0)
    } else {
        Ok(Seq::new(results.len(), |i: int| results[i]->Ok_0))
    }
}

/// Where every element succeeds, the list succeeds with their values.
pub proof fn lemma_all_ok<T>(results: Seq<Result<T, DecodeError>>, values: Seq<T>)
    requires
        results.len() == values.len(),
        forall|i: int| 0 <= i < results.len() ==> results[i] == Ok::<T, DecodeError>(values[i]),
    ensures
        all_or_first_error(results) == Ok::<Seq<T>, DecodeError>(values),
{
    assert forall|i: int| !is_first_failure(results, i) by {}
    assert(Seq::new(results.len(), |i: int| results[i]->Ok_0) =~= values);
}

/// Where the element at `i` is the first to fail, the list fails with its error.
pub proof fn lemma_first_failure<T>(results: Seq<Result<T, DecodeError>>, i: int)
    requires
        is_first_failure(results, i),
    ensures
        all_or_first_error(results) == Err::<Seq<T>, DecodeError>(results[i]->Err_0),
{
    let c = choose|c: int| is_first_failure(results, c);
    assert(c == i);
}

/// A list that succeeds has one value for each element, and each element
/// succeeds with its value.
pub proof fn lemma_ok_elements<T>(results: Seq<Result<T, DecodeError>>)
    requires
        all_or_first_error(results) is Ok,
    ensures
        all_or_first_error(results)->Ok_0.len() == results.len(),
        forall|i: int|
            0 <= i < results.len() ==> #[trigger] results[i] == Ok::<T, DecodeError>(
                all_or_first_error(results)->Ok_0[i],
            ),
{
    assert forall|i: int| 0 <= i < results.len() implies results[i] is Ok by {
        lemma_no_failure(results, i);
    }
}

/// In a list that succeeds, no element fails.
proof fn lemma_no_failure<T>(results: Seq<Result<T, DecodeError>>, i: int)
    requires
        all_or_first_error(results) is Ok,
        0 <= i < results.len(),
    ensures
        results[i] is Ok,
    decreases i,
{
    if results[i] is Err {
        if forall|j: int| 0 <= j < i ==> results[j] is Ok {
            assert(is_first_failure(results, i));
        } else {
            let j = choose|j: int| 0 <= j < i && !(results[j] is Ok);
            lemma_no_failure(results, j);
        }
    }
}

} // verus!
