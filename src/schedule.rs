use vstd::prelude::*;

verus! {

/// The index of the first failed task among the joined results, if any
/// failed. A run surfaces that failure as its own result.
pub fn first_failure<T, E>(results: &Vec<Result<T, E>>) -> (r: Option<usize>)
    ensures
        r is None <==> forall|i: int| 0 <= i < results@.len() ==> (#[trigger] results@[i]) is Ok,
        r matches Some(i) ==> i < results@.len() && results@[i as int] is Err && forall|j: int|
            0 <= j < i ==> (#[trigger] results@[j]) is Ok,
{
    let mut i: usize = 0;
    while i < results.len()
        invariant
            i <= results@.len(),
            forall|j: int| 0 <= j < i ==> (#[trigger] results@[j]) is Ok,
        decreases results@.len() - i,
    {
        if results[i].is_err() {
            return Some(i);
        }
        i = i + 1;
    }
    None
}

} // verus!
