//! A handle that allows aborting the training or evaluation process early.
use std::sync::atomic::{AtomicBool, Ordering};
use std::sync::{Arc, Mutex};
use vstd::prelude::*;

verus! {

#[verifier::external_type_specification]
#[verifier::external_body]
#[verifier::reject_recursive_types(V)]
pub struct ExMutex<V: ?Sized>(Mutex<V>);

/// `Mutex::new` of std: a new lock around `value`.
#[verifier::external_body]
fn mutex_new(value: Option<String>) -> Mutex<Option<String>> {
    Mutex::new(value)
}

/// `Mutex::lock` of std, then the locked value is replaced by `value`. A poisoned
/// lock is entered all the same. Nothing is claimed of the value afterwards: other
/// handles may change it at any time.
#[verifier::external_body]
fn mutex_replace(cell: &Mutex<Option<String>>, value: Option<String>) {
    *cell.lock().unwrap_or_else(|poisoned| poisoned.into_inner()) = value;
}

/// `Mutex::lock` of std, then a clone of the locked value. A poisoned lock is entered
/// all the same. Nothing is claimed of the result: other handles may change the value.
#[verifier::external_body]
fn mutex_read(cell: &Mutex<Option<String>>) -> Option<String> {
    cell.lock().unwrap_or_else(|poisoned| poisoned.into_inner()).clone()
}

/// `Clone::clone` of std's `Arc`: a new handle to the same shared value.
#[verifier::external_body]
fn arc_share<T>(handle: &Arc<T>) -> (r: Arc<T>)
    ensures
        r == *handle,
{
    Arc::clone(handle)
}

/// A handle that allows aborting the training or evaluation process early.
/// Clones share the same state, so a stop requested through one is seen by all.
/// Its state is shared between threads: nothing is claimed of what a read returns.
pub struct Interrupter {
    state: Arc<AtomicBool>,
    message: Arc<Mutex<Option<String>>>,
}

impl Clone for Interrupter {
    fn clone(&self) -> (r: Self) {
        Interrupter { state: arc_share(&self.state), message: arc_share(&self.message) }
    }
}

impl Default for Interrupter {
    fn default() -> (r: Self) {
        Interrupter {
            state: Arc::new(AtomicBool::new(false)),
            message: Arc::new(mutex_new(None)),
        }
    }
}

impl Interrupter {
    /// Create a new instance, not stopped and without a message.
    pub fn new() -> (r: Self) {
        Self::default()
    }

    /// Notify the learner that it should stop; `reason`, when given, becomes the message.
    pub fn stop(&self, reason: Option<&str>) {
        self.state.store(true, Ordering::Relaxed);
        match reason {
            Some(r) => mutex_replace(&self.message, Some(r.to_string())),
            None => {},
        }
    }

    /// Reset the interrupter.
    pub fn reset(&self) {
        self.state.store(false, Ordering::Relaxed);
    }

    /// True if `stop` has been called (and not reset since).
    pub fn should_stop(&self) -> bool {
        self.state.load(Ordering::Relaxed)
    }

    /// Get the message associated with the interrupt.
    pub fn get_message(&self) -> Option<String> {
        mutex_read(&self.message)
    }
}

} // verus!
