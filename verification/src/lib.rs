//! Information-flow control for data pipelines: security labels and the lattice
//! they form, values that carry their label through every operation, the rules
//! that keep secret conditions from leaking through assignments, datasets of
//! labeled items, and the decisions of the training loops that consume them.
pub mod lattice;
pub mod ops;
pub mod compare;
pub mod implicit;
pub mod function_rewrite;
pub mod pc_policy;
pub mod batcher;
pub mod dataset;
pub mod train;
pub mod rewrite;
