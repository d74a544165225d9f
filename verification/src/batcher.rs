//! Batching labeled items into one labeled batch.
use crate::lattice::{Label, Labeled, declassify};
use vstd::prelude::*;

verus! {

/// Batches items of type `I` into an item of type `O` on a device of type `Dev`;
/// implemented by users.
pub trait Batcher<I, O, L: Label, Dev>: Send + Sync {
    /// Batches the given items on the specified device.
    fn batch(&self, items: Vec<Labeled<I, L>>, device: &Dev) -> Labeled<O, L>;
}

/// Batcher used in tests: the batch is the vector of the items, under their common label.
#[derive(Clone, Copy)]
pub struct TestBatcher;

impl TestBatcher {
    /// Creates the test batcher.
    pub fn new() -> (r: Self) {
        TestBatcher
    }
}

impl<I, L: Label, Dev> Batcher<I, Vec<I>, L, Dev> for TestBatcher {
    fn batch(&self, items: Vec<Labeled<I, L>>, device: &Dev) -> (r: Labeled<Vec<I>, L>)
        ensures
            r@@.len() == items@.len(),
            forall|i: int| 0 <= i < items@.len() ==> #[trigger] r@@[i] == items@[i]@,
    {
        let mut batch: Vec<I> = Vec::new();
        for item in it: items
            invariant
                batch@.len() == it.index(),
                it.seq() == items@,
                forall|i: int| 0 <= i < batch@.len() ==> #[trigger] batch@[i] == items@[i]@,
        {
            batch.push(declassify(item));
        }
        Labeled::new(batch)
    }
}

} // verus!
