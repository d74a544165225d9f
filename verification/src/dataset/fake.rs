//! Dataset filled with fake items generated by the `fake` crate.
use crate::dataset::base::Dataset;
use crate::dataset::in_memory::InMemDataset;
use crate::dataset::iterator::DatasetIterator;
use crate::lattice::{Label, Labeled};
use fake::{Dummy, Fake, Faker};
use vstd::prelude::*;

verus! {

/// One fake value of type `I`, from `Fake::fake` of the `fake` crate with the default
/// `Faker` configuration. The value is random: nothing is claimed of it.
#[verifier::external_body]
fn fake_item<I: Dummy<Faker>>() -> I {
    Faker.fake::<I>()
}

/// Dataset filled with fake items, all labeled with `L`.
pub struct FakeDataset<I, L: Label> {
    dataset: InMemDataset<I, L>,
}

impl<I, L: Label> View for FakeDataset<I, L> {
    type V = Seq<Labeled<I, L>>;

    /// The generated items, in order.
    closed spec fn view(&self) -> Seq<Labeled<I, L>> {
        self.dataset@
    }
}

impl<I: Dummy<Faker>, L: Label> FakeDataset<I, L> {
    /// Creates a new fake dataset with `size` generated items.
    pub fn new(size: usize) -> (r: Self)
        ensures
            r@.len() == size,
    {
        let mut items: Vec<Labeled<I, L>> = Vec::with_capacity(size);
        let mut k: usize = 0;
        while k < size
            invariant
                k <= size,
                items@.len() == k,
            decreases size - k,
        {
            items.push(Labeled::<I, L>::new(fake_item()));
            k = k + 1;
        }
        let dataset = InMemDataset::new(items);
        Self { dataset }
    }
}

impl<I: Send + Sync + Clone, L: Label> Dataset<I, L> for FakeDataset<I, L> {
    open spec fn spec_len(&self) -> nat {
        self@.len()
    }

    /// Lookups behave as those of an in-memory dataset of the generated items.
    open spec fn spec_get(&self, index: int, r: Option<Labeled<I, L>>) -> bool {
        if 0 <= index < self@.len() {
            r matches Some(x) && cloned::<I>(self@[index]@, x@)
        } else {
            r is None
        }
    }

    fn iter(&self) -> (it: DatasetIterator<'_, I, L, Self>) {
        DatasetIterator::new(self)
    }

    fn get(&self, index: usize) -> (r: Option<Labeled<I, L>>) {
        self.dataset.get(index)
    }

    fn len(&self) -> (n: usize) {
        self.dataset.len()
    }

    fn is_empty(&self) -> (b: bool) {
        self.dataset.is_empty()
    }
}

} // verus!
