//! Iterating over a dataset by index.
use crate::dataset::base::Dataset;
use crate::lattice::{Label, Labeled};
use std::marker::PhantomData;
use vstd::prelude::*;

verus! {

/// Dataset iterator: looks the items of the dataset `D` up one index after the other.
pub struct DatasetIterator<'a, I, L: Label, D> {
    current: usize,
    dataset: &'a D,
    _item: PhantomData<(I, L)>,
}

impl<'a, I, L: Label, D> DatasetIterator<'a, I, L, D> {
    /// The index that the next lookup reads.
    pub closed spec fn position(&self) -> nat {
        self.current as nat
    }

    /// The dataset iterated over.
    pub closed spec fn dataset(&self) -> D {
        *self.dataset
    }

    /// Creates a new dataset iterator, starting at the first index.
    pub fn new(dataset: &'a D) -> (it: Self)
        ensures
            it.position() == 0,
            it.dataset() == *dataset,
    {
        DatasetIterator { current: 0, dataset, _item: PhantomData }
    }
}

impl<'a, I, L: Label, D: Dataset<I, L>> DatasetIterator<'a, I, L, D> {
    /// Looks up the item at the current position and moves to the next one.
    pub fn next(&mut self) -> (r: Option<Labeled<I, L>>)
        requires
            old(self).position() < usize::MAX,
        ensures
            old(self).dataset().spec_get(old(self).position() as int, r),
            final(self).position() == old(self).position() + 1,
            final(self).dataset() == old(self).dataset(),
    {
        let item = self.dataset.get(self.current);
        self.current = self.current + 1;
        item
    }
}

} // verus!
