//! Dataset mapping each item of an inner dataset to another item type, lazily.
use crate::dataset::base::Dataset;
use crate::lattice::{Label, Labeled};
use std::marker::PhantomData;
use vstd::prelude::*;

verus! {

broadcast use crate::lattice::group_labeled;

/// Maps an item of type `I` to an item of type `O`; implemented by users.
pub trait Mapper<I, O>: Send + Sync {
    /// Maps an item of type I to an item of type O.
    fn map(&self, item: &I) -> O;
}

/// Dataset mapping each item of an inner dataset to another item type, lazily:
/// the mapping runs at lookup, and the label of the inner item stays on the result.
pub struct MapperDataset<D, M, I, L: Label> {
    dataset: D,
    mapper: M,
    input: PhantomData<Labeled<I, L>>,
}

impl<D, M, I, L: Label> MapperDataset<D, M, I, L> {
    /// The inner dataset.
    pub closed spec fn inner(self) -> D {
        self.dataset
    }

    /// The mapper applied to the inner items.
    pub closed spec fn mapper(self) -> M {
        self.mapper
    }

    /// Creates a mapped view of `dataset`.
    pub fn new(dataset: D, mapper: M) -> (r: Self)
        ensures
            r.inner() == dataset,
            r.mapper() == mapper,
    {
        MapperDataset { dataset, mapper, input: PhantomData }
    }
}

impl<D, M, I, O, L: Label> Dataset<O, L> for MapperDataset<D, M, I, L> where
    D: Dataset<I, L>,
    M: Mapper<I, O> + Send + Sync,
    I: Send + Sync,
    O: Send + Sync,
 {
    open spec fn spec_len(&self) -> nat {
        self.inner().spec_len()
    }

    /// A lookup gives the mapper's result on a result of the inner lookup, under
    /// the same label, or nothing when the inner lookup gives nothing.
    open spec fn spec_get(&self, index: int, r: Option<Labeled<O, L>>) -> bool {
        exists|x: Option<Labeled<I, L>>|
            #[trigger] self.inner().spec_get(index, x) && match x {
                None => r is None,
                Some(item) => r matches Some(o) && call_ensures(
                    M::map,
                    (&self.mapper(), &item@),
                    o@,
                ),
            }
    }

    fn get(&self, index: usize) -> (r: Option<Labeled<O, L>>) {
        let item = self.dataset.get(index);
        let ghost found = item;
        match item {
            Some(item) => {
                let mapped = self.mapper.map(item.declassify_ref());
                assert(self.inner().spec_get(index as int, found));
                Some(Labeled::new(mapped))
            },
            None => {
                assert(self.inner().spec_get(index as int, found));
                None
            },
        }
    }

    fn len(&self) -> (n: usize) {
        self.dataset.len()
    }
}

} // verus!
