//! Dataset where all items are stored in memory.
use crate::dataset::base::Dataset;
use crate::lattice::{Label, Labeled};
use vstd::prelude::*;

verus! {

broadcast use crate::lattice::group_labeled;

/// The items that a run of lookups gave, with the missing ones left out, in order.
pub open spec fn present_items<X>(results: Seq<Option<X>>) -> Seq<X>
    decreases results.len(),
{
    if results.len() == 0 {
        Seq::empty()
    } else {
        let rest = present_items(results.drop_last());
        match results.last() {
            Some(x) => rest.push(x),
            None => rest,
        }
    }
}

/// Dataset where all items are stored in memory.
pub struct InMemDataset<I, L: Label> {
    items: Vec<Labeled<I, L>>,
}

impl<I, L: Label> View for InMemDataset<I, L> {
    type V = Seq<Labeled<I, L>>;

    /// The stored items, in order.
    closed spec fn view(&self) -> Seq<Labeled<I, L>> {
        self.items@
    }
}

impl<I, L: Label> InMemDataset<I, L> {
    /// Creates a new in-memory dataset from the given labeled items.
    pub fn new(items: Vec<Labeled<I, L>>) -> (r: Self)
        ensures
            r@ == items@,
    {
        InMemDataset { items }
    }
}

impl<I, L> Dataset<I, L> for InMemDataset<I, L> where I: Clone + Send + Sync, L: Label {
    open spec fn spec_len(&self) -> nat {
        self@.len()
    }

    /// An index inside the dataset gives a clone of the stored item; any other gives nothing.
    open spec fn spec_get(&self, index: int, r: Option<Labeled<I, L>>) -> bool {
        if 0 <= index < self@.len() {
            r matches Some(x) && cloned::<I>(self@[index]@, x@)
        } else {
            r is None
        }
    }

    fn get(&self, index: usize) -> (r: Option<Labeled<I, L>>) {
        if index < self.items.len() {
            Some(self.items[index].clone())
        } else {
            None
        }
    }

    fn len(&self) -> (n: usize) {
        self.items.len()
    }
}

impl<I, L> InMemDataset<I, L> where I: Clone + Send + Sync, L: Label {
    /// Creates a dataset from another one: every index below its length is looked
    /// up once, in order, and the items found are kept in memory.
    pub fn from_dataset<D: Dataset<I, L>>(dataset: &D) -> (r: Self)
        ensures
            exists|results: Seq<Option<Labeled<I, L>>>|
                {
                    &&& results.len() == dataset.spec_len()
                    &&& forall|i: int|
                        0 <= i < results.len() ==> dataset.spec_get(i, #[trigger] results[i])
                    &&& r@ == present_items(results)
                },
    {
        let len = dataset.len();
        let mut items: Vec<Labeled<I, L>> = Vec::with_capacity(len);
        let ghost mut results: Seq<Option<Labeled<I, L>>> = Seq::empty();
        let mut index: usize = 0;
        while index < len
            invariant
                len == dataset.spec_len(),
                index <= len,
                results.len() == index,
                forall|i: int| 0 <= i < results.len() ==> dataset.spec_get(i, #[trigger] results[i]),
                items@ == present_items(results),
            decreases len - index,
        {
            let found = dataset.get(index);
            proof {
                let next = results.push(found);
                assert(next.drop_last() =~= results);
                results = next;
            }
            if let Some(item) = found {
                items.push(item);
            }
            index = index + 1;
        }
        Self::new(items)
    }
}

/// Copying an in-memory dataset loses nothing: when every index below its length
/// is looked up once, the items found are clones of all its items, in order.
pub proof fn lemma_in_memory_copy_complete<I: Clone + Send + Sync, L: Label>(
    dataset: InMemDataset<I, L>,
    results: Seq<Option<Labeled<I, L>>>,
)
    requires
        results.len() == dataset.spec_len(),
        forall|i: int| 0 <= i < results.len() ==> dataset.spec_get(i, #[trigger] results[i]),
    ensures
        present_items(results).len() == dataset@.len(),
        forall|i: int|
            0 <= i < dataset@.len() ==> cloned::<I>(dataset@[i]@, #[trigger] present_items(results)[i]@),
    decreases results.len(),
{
    lemma_present_prefix(dataset, results, results.len() as int);
    assert(results.take(results.len() as int) =~= results);
}

proof fn lemma_present_prefix<I: Clone + Send + Sync, L: Label>(
    dataset: InMemDataset<I, L>,
    results: Seq<Option<Labeled<I, L>>>,
    n: int,
)
    requires
        0 <= n <= results.len(),
        results.len() == dataset.spec_len(),
        forall|i: int| 0 <= i < results.len() ==> dataset.spec_get(i, #[trigger] results[i]),
    ensures
        present_items(results.take(n)).len() == n,
        forall|i: int|
            0 <= i < n ==> cloned::<I>(dataset@[i]@, #[trigger] present_items(results.take(n))[i]@),
    decreases n,
{
    if n > 0 {
        lemma_present_prefix(dataset, results, n - 1);
        assert(results.take(n).drop_last() =~= results.take(n - 1));
        assert(dataset.spec_get(n - 1, results[n - 1]));
    }
}

/// Looking up `index` in a boxed in-memory dataset gives a clone of the item stored at
/// `index` when it is inside the dataset, and nothing otherwise: the box neither
/// shifts nor bounds the index differently from the items it holds.
pub proof fn lemma_boxed_in_memory_lookup<I: Clone + Send + Sync, L: Label>(
    boxed: Box<InMemDataset<I, L>>,
    index: int,
    r: Option<Labeled<I, L>>,
)
    ensures
        <Box<InMemDataset<I, L>> as Dataset<I, L>>::spec_len(&boxed) == (*boxed)@.len(),
        <Box<InMemDataset<I, L>> as Dataset<I, L>>::spec_get(&boxed, index, r) <==> (if 0 <= index
            < (*boxed)@.len() {
            r matches Some(x) && cloned::<I>((*boxed)@[index]@, x@)
        } else {
            r is None
        }),
{
}

} // verus!
