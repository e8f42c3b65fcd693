//! Reading a trajectory: the states sampled by an integration, in order.

use vstd::prelude::*;

verus! {

/// The values that one component takes along a sequence of states.
pub open spec fn component_of<T, const N: usize>(states: Seq<[T; N]>, index: int) -> Seq<T> {
    Seq::new(states.len(), |i: int| states[i]@[index])
}

/// Extracts one component from every state, keeping the order of the samples.
pub fn component<T: Copy, const N: usize>(states: &Vec<[T; N]>, index: usize) -> (values: Vec<T>)
    requires
        index < N,
    ensures
        values@ == component_of(states@, index as int),
{
    let mut values: Vec<T> = Vec::with_capacity(states.len());
    let mut i: usize = 0;
    while i < states.len()
        invariant
            index < N,
            i <= states.len(),
            values@ == component_of(states@.take(i as int), index as int),
        decreases states.len() - i,
    {
        values.push(states[i][index]);
        i += 1;
        assert(values@ =~= component_of(states@.take(i as int), index as int));
    }
    assert(states@.take(i as int) =~= states@);
    values
}

} // verus!
