//! The decisions of the training and evaluation loops, and the handle that stops them.
pub mod accumulation;
pub mod checkpoint;
pub mod epoch;
pub mod evaluator;
pub mod interrupter;
pub mod step;
