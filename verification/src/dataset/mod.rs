//! Datasets of labeled items.
pub mod base;
pub mod fake;
pub mod in_memory;
pub mod iterator;
pub mod mapper;
