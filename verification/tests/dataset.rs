use filament_ifc::batcher::{Batcher, TestBatcher};
use filament_ifc::dataset::base::Dataset;
use filament_ifc::dataset::fake::FakeDataset;
use filament_ifc::dataset::in_memory::InMemDataset;
use filament_ifc::dataset::mapper::{Mapper, MapperDataset};
use filament_ifc::lattice::{declassify, Labeled, A, B};
use std::sync::Arc;

fn string_items() -> Vec<String> {
    vec![
        "1 Item".to_string(),
        "2 Items".to_string(),
        "3 Items".to_string(),
        "4 Items".to_string(),
    ]
}

fn labeled_items() -> Vec<Labeled<String, A>> {
    string_items().into_iter().map(Labeled::<String, A>::new).collect()
}

#[test]
fn given_in_memory_dataset_when_iterate_should_iterate_though_all_items() {
    let source_items = string_items();
    let labeled_items = source_items
        .iter()
        .cloned()
        .map(Labeled::<String, A>::new)
        .collect::<Vec<_>>();

    let dataset = InMemDataset::<String, A>::new(labeled_items);

    let mut items: Vec<String> = Vec::new();
    let mut iterator = dataset.iter();
    while let Some(item) = iterator.next() {
        items.push(declassify(item));
    }

    assert_eq!(source_items, items);
}

struct StringToFirstChar;

impl Mapper<String, String> for StringToFirstChar {
    fn map(&self, item: &String) -> String {
        let mut out = item.clone();
        out.truncate(1);
        out
    }
}

#[test]
fn given_mapper_dataset_when_iterate_should_iterate_though_all_map_items() {
    let dataset = InMemDataset::new(labeled_items());
    let dataset = MapperDataset::new(dataset, StringToFirstChar);

    let mut items: Vec<String> = Vec::new();
    let mut iterator = dataset.iter();
    while let Some(item) = iterator.next() {
        items.push(declassify(item));
    }

    assert_eq!(vec!["1", "2", "3", "4"], items);
}

#[test]
fn in_memory_dataset_get_outside_is_none() {
    let dataset = InMemDataset::new(labeled_items());
    assert_eq!(dataset.len(), 4);
    assert!(!dataset.is_empty());
    assert!(dataset.get(4).is_none());
    assert!(dataset.get(10).is_none());
    assert_eq!(declassify(dataset.get(1).unwrap()), "2 Items");
}

#[test]
fn empty_in_memory_dataset() {
    let dataset = InMemDataset::<u32, B>::new(Vec::new());
    assert!(dataset.is_empty());
    assert_eq!(dataset.len(), 0);
    assert!(dataset.get(0).is_none());
    let mut iterator = dataset.iter();
    assert!(iterator.next().is_none());
}

#[test]
fn from_dataset_copies_all_items() {
    let source = InMemDataset::new(labeled_items());
    let dataset = InMemDataset::from_dataset(&source);

    let non_existing_record_index: usize = 10;
    let record_index: usize = 0;

    assert!(dataset.get(non_existing_record_index).is_none());
    assert_eq!(declassify(dataset.get(record_index).unwrap()), "1 Item");
    assert_eq!(dataset.len(), 4);
    for i in 0..4 {
        assert_eq!(declassify(dataset.get(i).unwrap()), string_items()[i]);
    }
}

#[test]
fn from_dataset_of_mapped_dataset() {
    let source = MapperDataset::new(InMemDataset::new(labeled_items()), StringToFirstChar);
    let dataset: InMemDataset<String, A> = InMemDataset::from_dataset(&source);
    assert_eq!(dataset.len(), 4);
    assert_eq!(declassify(dataset.get(3).unwrap()), "4");
}

#[test]
fn arc_and_box_datasets_delegate() {
    let arc = Arc::new(InMemDataset::new(labeled_items()));
    assert_eq!(Dataset::len(&arc), 4);
    assert_eq!(declassify(Dataset::get(&arc, 2).unwrap()), "3 Items");
    assert!(Dataset::get(&arc, 4).is_none());

    let boxed = Box::new(InMemDataset::new(labeled_items()));
    assert_eq!(Dataset::len(&boxed), 4);
    assert_eq!(declassify(Dataset::get(&boxed, 0).unwrap()), "1 Item");
    assert!(!Dataset::is_empty(&boxed));
}

#[test]
fn fake_dataset_has_requested_size() {
    let dataset = FakeDataset::<u64, A>::new(5);
    assert_eq!(dataset.len(), 5);
    assert!(!dataset.is_empty());
    assert!(dataset.get(4).is_some());
    assert!(dataset.get(5).is_none());

    let mut count = 0;
    let mut iterator = dataset.iter();
    while let Some(_) = iterator.next() {
        count += 1;
    }
    assert_eq!(count, 5);

    let empty = FakeDataset::<String, B>::new(0);
    assert!(empty.is_empty());
}

#[test]
fn test_batcher_collects_items_in_order() {
    let batcher = TestBatcher::new();
    let items = vec![Labeled::<u32, A>::new(1), Labeled::new(2), Labeled::new(3)];
    let batch = Batcher::<u32, Vec<u32>, A, ()>::batch(&batcher, items, &());
    assert_eq!(declassify(batch), vec![1, 2, 3]);
}

#[test]
fn dyn_datasets_delegate() {
    let arc: Arc<dyn Dataset<String, A>> = Arc::new(InMemDataset::new(labeled_items()));
    assert_eq!(Dataset::len(&arc), 4);
    assert_eq!(declassify(Dataset::get(&arc, 3).unwrap()), "4 Items");
    let boxed: Box<dyn Dataset<String, A>> = Box::new(InMemDataset::new(labeled_items()));
    assert_eq!(Dataset::len(&boxed), 4);
    assert!(Dataset::get(&boxed, 4).is_none());
    let copy = InMemDataset::from_dataset(&boxed);
    assert_eq!(copy.len(), 4);
}
