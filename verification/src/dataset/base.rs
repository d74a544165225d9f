//! The dataset trait.
use crate::dataset::iterator::DatasetIterator;
use crate::lattice::{Label, Labeled};
use std::sync::Arc;
use vstd::prelude::*;

verus! {

/// A collection of labeled items with a predefined size.
///
/// Each implementation says, through `spec_get`, which results a lookup may give;
/// the trait itself promises no more than that the methods keep to it.
pub trait Dataset<I, L: Label>: Send + Sync {
    /// The number of items.
    spec fn spec_len(&self) -> nat;

    /// `r` is a result that looking up `index` may give.
    spec fn spec_get(&self, index: int, r: Option<Labeled<I, L>>) -> bool;

    /// Gets the item at the given index.
    fn get(&self, index: usize) -> (r: Option<Labeled<I, L>>)
        ensures
            self.spec_get(index as int, r),
    ;

    /// Gets the number of items in the dataset.
    fn len(&self) -> (n: usize)
        ensures
            n == self.spec_len(),
    ;

    /// Checks if the dataset is empty.
    fn is_empty(&self) -> (b: bool)
        ensures
            b == (self.spec_len() == 0),
    {
        self.len() == 0
    }

    /// Returns an iterator over the dataset, starting at the first index.
    fn iter(&self) -> (it: DatasetIterator<'_, I, L, Self>) where Self: Sized
        ensures
            it.position() == 0,
            it.dataset() == *self,
    {
        DatasetIterator::new(self)
    }
}

impl<D, I, L: Label> Dataset<I, L> for Arc<D> where D: Dataset<I, L> {
    open spec fn spec_len(&self) -> nat {
        (**self).spec_len()
    }

    open spec fn spec_get(&self, index: int, r: Option<Labeled<I, L>>) -> bool {
        (**self).spec_get(index, r)
    }

    fn get(&self, index: usize) -> (r: Option<Labeled<I, L>>) {
        (**self).get(index)
    }

    fn len(&self) -> (n: usize) {
        (**self).len()
    }
}

impl<D, I, L: Label> Dataset<I, L> for Box<D> where D: Dataset<I, L> {
    open spec fn spec_len(&self) -> nat {
        (**self).spec_len()
    }

    open spec fn spec_get(&self, index: int, r: Option<Labeled<I, L>>) -> bool {
        (**self).spec_get(index, r)
    }

    fn get(&self, index: usize) -> (r: Option<Labeled<I, L>>) {
        (**self).get(index)
    }

    fn len(&self) -> (n: usize) {
        (**self).len()
    }
}

impl<I, L: Label> Dataset<I, L> for Arc<dyn Dataset<I, L>> {
    open spec fn spec_len(&self) -> nat {
        (**self).spec_len()
    }

    open spec fn spec_get(&self, index: int, r: Option<Labeled<I, L>>) -> bool {
        (**self).spec_get(index, r)
    }

    fn get(&self, index: usize) -> (r: Option<Labeled<I, L>>) {
        (**self).get(index)
    }

    fn len(&self) -> (n: usize) {
        (**self).len()
    }
}

impl<I, L: Label> Dataset<I, L> for Box<dyn Dataset<I, L>> {
    open spec fn spec_len(&self) -> nat {
        (**self).spec_len()
    }

    open spec fn spec_get(&self, index: int, r: Option<Labeled<I, L>>) -> bool {
        (**self).spec_get(index, r)
    }

    fn get(&self, index: usize) -> (r: Option<Labeled<I, L>>) {
        (**self).get(index)
    }

    fn len(&self) -> (n: usize) {
        (**self).len()
    }
}

/// A boxed dataset has the length of the dataset it holds and looks up the same
/// index in it: every result of a lookup of `index` in the box is a result of a
/// lookup of `index` in the inner dataset, and the other way round.
pub proof fn lemma_boxed_dataset_looks_up_the_same_index<D: Dataset<I, L>, I, L: Label>(
    boxed: Box<D>,
    index: int,
    r: Option<Labeled<I, L>>,
)
    ensures
        <Box<D> as Dataset<I, L>>::spec_len(&boxed) == (*boxed).spec_len(),
        <Box<D> as Dataset<I, L>>::spec_get(&boxed, index, r) <==> (*boxed).spec_get(index, r),
{
}

/// A shared dataset has the length of the dataset it holds and looks up the same
/// index in it.
pub proof fn lemma_shared_dataset_looks_up_the_same_index<D: Dataset<I, L>, I, L: Label>(
    shared: Arc<D>,
    index: int,
    r: Option<Labeled<I, L>>,
)
    ensures
        <Arc<D> as Dataset<I, L>>::spec_len(&shared) == (*shared).spec_len(),
        <Arc<D> as Dataset<I, L>>::spec_get(&shared, index, r) <==> (*shared).spec_get(index, r),
{
}

} // verus!
