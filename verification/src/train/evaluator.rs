//! The decisions of an evaluation over several named datasets: the events it
//! reports, in order, the iteration number of each item within its dataset, and
//! where an interruption aborts the evaluation.
use vstd::prelude::*;

verus! {

/// What the evaluation reports, in the order in which its methods give them: one
/// `Start`; for each dataset in turn a `StartTest`, one `ProcessedItem` per item
/// evaluated (numbered from 1) and an `EndTest`; then one `End`. Once a stop has
/// been requested, no item is evaluated any more, in this dataset or a later one.
#[derive(PartialEq, Eq, Structural, Clone, Copy, Debug)]
pub enum EvaluatorEvent {
    /// The evaluation starts, over `total_tests` datasets.
    Start { total_tests: usize },
    /// The dataset of index `split` starts; its loader holds `total_items` items.
    StartTest { split: usize, total_items: usize },
    /// An item of the dataset `split` was evaluated; it is the `iteration`-th.
    ProcessedItem { split: usize, iteration: usize },
    /// The current dataset ends.
    EndTest,
    /// The evaluation ends.
    End,
}

/// The state of an evaluation over `total_tests` datasets, taken in turn.
pub struct Evaluator {
    total_tests: usize,
    begun: bool,
    ended: bool,
    started: usize,
    in_test: bool,
    iteration: usize,
    stopped: bool,
}

impl Evaluator {
    #[verifier::type_invariant]
    spec fn well_formed(self) -> bool {
        &&& self.started <= self.total_tests
        &&& self.in_test ==> self.started >= 1
    }

    /// The number of datasets.
    pub closed spec fn spec_total_tests(self) -> nat {
        self.total_tests as nat
    }

    /// Whether `Start` has been reported.
    pub closed spec fn spec_begun(self) -> bool {
        self.begun
    }

    /// Whether `End` has been reported.
    pub closed spec fn spec_ended(self) -> bool {
        self.ended
    }

    /// The number of datasets started so far.
    pub closed spec fn spec_started(self) -> nat {
        self.started as nat
    }

    /// Whether a dataset is under way (started and not ended).
    pub closed spec fn spec_in_test(self) -> bool {
        self.in_test
    }

    /// The number of items evaluated in the current dataset.
    pub closed spec fn spec_iteration(self) -> nat {
        self.iteration as nat
    }

    /// Whether a stop has been requested: no item is evaluated from then on.
    pub closed spec fn spec_stopped(self) -> bool {
        self.stopped
    }

    /// An evaluation over several datasets, before it starts.
    pub fn eval_all(total_tests: usize) -> (r: Self)
        ensures
            r.spec_total_tests() == total_tests,
            !r.spec_begun(),
            !r.spec_ended(),
            r.spec_started() == 0,
            !r.spec_in_test(),
            !r.spec_stopped(),
    {
        Evaluator {
            total_tests,
            begun: false,
            ended: false,
            started: 0,
            in_test: false,
            iteration: 0,
            stopped: false,
        }
    }

    /// An evaluation over one dataset, before it starts.
    pub fn eval() -> (r: Self)
        ensures
            r.spec_total_tests() == 1,
            !r.spec_begun(),
            !r.spec_ended(),
            r.spec_started() == 0,
            !r.spec_in_test(),
            !r.spec_stopped(),
    {
        Self::eval_all(1)
    }

    /// The number of datasets.
    pub fn total_tests(&self) -> (r: usize)
        ensures
            r == self.spec_total_tests(),
    {
        self.total_tests
    }

    /// The number of datasets started so far.
    pub fn started(&self) -> (r: usize)
        ensures
            r == self.spec_started(),
    {
        self.started
    }

    /// The number of items evaluated in the current dataset.
    pub fn iteration(&self) -> (r: usize)
        ensures
            r == self.spec_iteration(),
    {
        self.iteration
    }

    /// Whether a stop has been requested: no item is evaluated from then on.
    pub fn is_stopped(&self) -> (r: bool)
        ensures
            r == self.spec_stopped(),
    {
        self.stopped
    }

    /// Starts the evaluation: reports the number of datasets.
    pub fn begin(&mut self) -> (e: EvaluatorEvent)
        requires
            !old(self).spec_begun(),
        ensures
            e == (EvaluatorEvent::Start { total_tests: old(self).spec_total_tests() as usize }),
            final(self).spec_begun(),
            final(self).spec_ended() == old(self).spec_ended(),
            final(self).spec_total_tests() == old(self).spec_total_tests(),
            final(self).spec_started() == old(self).spec_started(),
            final(self).spec_in_test() == old(self).spec_in_test(),
            final(self).spec_stopped() == old(self).spec_stopped(),
    {
        proof {
            use_type_invariant(&*self);
        }
        self.begun = true;
        EvaluatorEvent::Start { total_tests: self.total_tests }
    }

    /// Starts the next dataset, whose loader holds `total_items` items: reports its
    /// index; its items are counted from 1. A requested stop still holds: then no
    /// item of this dataset is evaluated.
    pub fn start_test(&mut self, total_items: usize) -> (e: EvaluatorEvent)
        requires
            old(self).spec_begun(),
            !old(self).spec_ended(),
            !old(self).spec_in_test(),
            old(self).spec_started() < old(self).spec_total_tests(),
        ensures
            e == (EvaluatorEvent::StartTest {
                split: old(self).spec_started() as usize,
                total_items,
            }),
            final(self).spec_started() == old(self).spec_started() + 1,
            final(self).spec_in_test(),
            final(self).spec_iteration() == 0,
            final(self).spec_stopped() == old(self).spec_stopped(),
            final(self).spec_begun(),
            !final(self).spec_ended(),
            final(self).spec_total_tests() == old(self).spec_total_tests(),
    {
        proof {
            use_type_invariant(&*self);
        }
        let split = self.started;
        self.started = self.started + 1;
        self.in_test = true;
        self.iteration = 0;
        EvaluatorEvent::StartTest { split, total_items }
    }

    /// Counts one more item of the current dataset, which the evaluation evaluates:
    /// reports it with its iteration number. No item is taken once a stop has been
    /// requested.
    pub fn on_item(&mut self) -> (e: EvaluatorEvent)
        requires
            old(self).spec_in_test(),
            !old(self).spec_stopped(),
            old(self).spec_iteration() < usize::MAX,
        ensures
            e == (EvaluatorEvent::ProcessedItem {
                split: (old(self).spec_started() - 1) as usize,
                iteration: (old(self).spec_iteration() + 1) as usize,
            }),
            final(self).spec_iteration() == old(self).spec_iteration() + 1,
            final(self).spec_in_test(),
            !final(self).spec_stopped(),
            final(self).spec_started() == old(self).spec_started(),
            final(self).spec_begun() == old(self).spec_begun(),
            final(self).spec_ended() == old(self).spec_ended(),
            final(self).spec_total_tests() == old(self).spec_total_tests(),
    {
        proof {
            use_type_invariant(&*self);
        }
        self.iteration = self.iteration + 1;
        EvaluatorEvent::ProcessedItem { split: self.started - 1, iteration: self.iteration }
    }

    /// After an item has been evaluated: the dataset goes on to its next item unless
    /// a stop was requested, in which case the evaluation takes no more items, in
    /// this dataset or a later one; the datasets still end and the evaluation ends.
    pub fn after_item(&mut self, stop_requested: bool) -> (go_on: bool)
        requires
            old(self).spec_in_test(),
            !old(self).spec_stopped(),
        ensures
            go_on == !stop_requested,
            final(self).spec_stopped() == stop_requested,
            final(self).spec_in_test(),
            final(self).spec_iteration() == old(self).spec_iteration(),
            final(self).spec_started() == old(self).spec_started(),
            final(self).spec_begun() == old(self).spec_begun(),
            final(self).spec_ended() == old(self).spec_ended(),
            final(self).spec_total_tests() == old(self).spec_total_tests(),
    {
        proof {
            use_type_invariant(&*self);
        }
        self.stopped = stop_requested;
        !stop_requested
    }

    /// Ends the current dataset.
    pub fn end_test(&mut self) -> (e: EvaluatorEvent)
        requires
            old(self).spec_in_test(),
        ensures
            e == EvaluatorEvent::EndTest,
            !final(self).spec_in_test(),
            final(self).spec_stopped() == old(self).spec_stopped(),
            final(self).spec_started() == old(self).spec_started(),
            final(self).spec_begun() == old(self).spec_begun(),
            final(self).spec_ended() == old(self).spec_ended(),
            final(self).spec_total_tests() == old(self).spec_total_tests(),
    {
        proof {
            use_type_invariant(&*self);
        }
        self.in_test = false;
        EvaluatorEvent::EndTest
    }

    /// Ends the evaluation, once every dataset has been evaluated.
    pub fn finish(&mut self) -> (e: EvaluatorEvent)
        requires
            old(self).spec_begun(),
            !old(self).spec_ended(),
            !old(self).spec_in_test(),
            old(self).spec_started() == old(self).spec_total_tests(),
        ensures
            e == EvaluatorEvent::End,
            final(self).spec_ended(),
            final(self).spec_stopped() == old(self).spec_stopped(),
            !final(self).spec_in_test(),
            final(self).spec_started() == old(self).spec_started(),
            final(self).spec_total_tests() == old(self).spec_total_tests(),
    {
        proof {
            use_type_invariant(&*self);
        }
        self.ended = true;
        EvaluatorEvent::End
    }
}

} // verus!
