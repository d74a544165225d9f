//! The decisions of the training and validation epochs: iteration counting,
//! learning-rate steps, progress and when to optimize. The loops that perform the
//! model steps run these decisions one item (or one multi-device step) at a time.
use crate::train::accumulation::{GradientAccumulation, OptimizerAction, accumulation_transition};
use vstd::prelude::*;

verus! {

/// Progress of a data loader: how many items it has processed, out of how many.
pub struct Progress {
    pub items_processed: usize,
    pub items_total: usize,
    pub unit: Option<String>,
}

impl Progress {
    /// A progress report.
    pub fn new(items_processed: usize, items_total: usize, unit: Option<String>) -> (r: Self)
        ensures
            r.items_processed == items_processed,
            r.items_total == items_total,
            r.unit == unit,
    {
        Progress { items_processed, items_total, unit }
    }
}

/// What the training loop does for one item.
pub struct ItemPlan {
    /// The iteration number reported for the item.
    pub iteration: usize,
    /// How many learning-rate scheduler steps to take before the item.
    pub lr_steps: usize,
    /// What to do with the item's gradients.
    pub optimizer: OptimizerAction,
}

/// The state of a training epoch: the iteration count and the gradient accumulation.
pub struct TrainEpochState {
    iteration: usize,
    accumulation: GradientAccumulation,
}

impl TrainEpochState {
    /// The iteration count so far.
    pub closed spec fn spec_iteration(self) -> nat {
        self.iteration as nat
    }

    /// The gradient accumulation.
    pub closed spec fn spec_accumulation(self) -> GradientAccumulation {
        self.accumulation
    }

    /// The state at the start of an epoch.
    pub fn new(grad_accumulation: Option<usize>) -> (r: Self)
        ensures
            r.spec_iteration() == 0,
            r.spec_accumulation().accumulation() == grad_accumulation,
            r.spec_accumulation().current() == 0,
    {
        TrainEpochState { iteration: 0, accumulation: GradientAccumulation::new(grad_accumulation) }
    }

    /// The iteration count so far.
    pub fn iteration(&self) -> (r: usize)
        ensures
            r == self.spec_iteration(),
    {
        self.iteration
    }

    /// Decides the handling of one training item when `peer_count` peers train in
    /// step (1 on a single device): the iteration count and the learning-rate
    /// scheduler both advance by `peer_count`, and the item's gradients go through
    /// the accumulation.
    pub fn on_item(&mut self, peer_count: usize) -> (r: ItemPlan)
        requires
            old(self).spec_iteration() + peer_count <= usize::MAX,
        ensures
            final(self).spec_iteration() == old(self).spec_iteration() + peer_count,
            r.iteration == final(self).spec_iteration(),
            r.lr_steps == peer_count,
            (final(self).spec_accumulation().current(), r.optimizer) == accumulation_transition(
                old(self).spec_accumulation().accumulation(),
                old(self).spec_accumulation().current(),
            ),
            final(self).spec_accumulation().accumulation() == old(
                self,
            ).spec_accumulation().accumulation(),
    {
        self.iteration = self.iteration + peer_count;
        let optimizer = self.accumulation.on_gradients();
        ItemPlan { iteration: self.iteration, lr_steps: peer_count, optimizer }
    }

    /// Decides the handling of one multi-device step that produced `num_items`
    /// items: the scheduler steps once for the whole step (not once per item), the
    /// step's gradients go through the accumulation once, and the items are numbered
    /// from the next iteration on.
    pub fn on_multi_device_step(&mut self, num_items: usize) -> (r: MultiDeviceStepPlan)
        requires
            old(self).spec_iteration() + (if num_items == 0 { 1 } else { num_items })
                <= usize::MAX,
        ensures
            r.lr_steps == 1,
            r.first_iteration == old(self).spec_iteration() + 1,
            final(self).spec_iteration() == old(self).spec_iteration() + num_items,
            (final(self).spec_accumulation().current(), r.optimizer) == accumulation_transition(
                old(self).spec_accumulation().accumulation(),
                old(self).spec_accumulation().current(),
            ),
            final(self).spec_accumulation().accumulation() == old(
                self,
            ).spec_accumulation().accumulation(),
    {
        let first_iteration = self.iteration + 1;
        self.iteration = self.iteration + num_items;
        let optimizer = self.accumulation.on_gradients();
        MultiDeviceStepPlan { lr_steps: 1, optimizer, first_iteration }
    }
}

/// What the training loop does for one multi-device step.
pub struct MultiDeviceStepPlan {
    /// How many learning-rate scheduler steps to take for the step.
    pub lr_steps: usize,
    /// What to do with the step's gradients.
    pub optimizer: OptimizerAction,
    /// The iteration number of the step's first item; the others follow in order.
    pub first_iteration: usize,
}

/// Where the gradients of a sharded multi-device step go.
pub struct ShardedStepPlan {
    /// For each output of the step, in order, the device whose accumulator receives
    /// its gradients: the device that computed it.
    pub accumulate_on: Vec<usize>,
    /// The devices whose accumulated gradients the optimizer applies, each on its own
    /// device, in device order; empty when the optimizer does not step.
    pub optimize_devices: Vec<usize>,
}

/// The devices `0..device_count`, in order.
pub open spec fn all_devices(device_count: usize) -> Seq<usize> {
    Seq::new(device_count as nat, |d: int| d as usize)
}

/// Routes the outputs of a sharded step, computed on the devices `device_ids`, to
/// their devices' accumulators, and says which devices the optimizer then steps:
/// all of them, in device order, unless the gradients are only accumulated.
pub fn plan_sharded_step(
    optimizer: OptimizerAction,
    device_ids: &Vec<usize>,
    device_count: usize,
) -> (r: ShardedStepPlan)
    requires
        forall|i: int| 0 <= i < device_ids@.len() ==> #[trigger] device_ids@[i] < device_count,
    ensures
        r.accumulate_on@ == device_ids@,
        r.optimize_devices@ == (if optimizer == OptimizerAction::Accumulate {
            Seq::<usize>::empty()
        } else {
            all_devices(device_count)
        }),
{
    let mut accumulate_on: Vec<usize> = Vec::new();
    let mut i: usize = 0;
    while i < device_ids.len()
        invariant
            i <= device_ids@.len(),
            accumulate_on@ == device_ids@.take(i as int),
        decreases device_ids@.len() - i,
    {
        accumulate_on.push(device_ids[i]);
        proof {
            assert(device_ids@.take(i + 1) =~= device_ids@.take(i as int).push(device_ids@[i as int]));
        }
        i = i + 1;
    }
    proof {
        assert(device_ids@.take(device_ids@.len() as int) =~= device_ids@);
    }
    let mut optimize_devices: Vec<usize> = Vec::new();
    if optimizer != OptimizerAction::Accumulate {
        let mut d: usize = 0;
        while d < device_count
            invariant
                d <= device_count,
                optimize_devices@ == all_devices(d),
            decreases device_count - d,
        {
            optimize_devices.push(d);
            proof {
                assert(all_devices((d + 1) as usize) =~= all_devices(d).push(d));
            }
            d = d + 1;
        }
    }
    proof {
        if optimizer == OptimizerAction::Accumulate {
            assert(optimize_devices@ =~= Seq::<usize>::empty());
        }
    }
    ShardedStepPlan { accumulate_on, optimize_devices }
}

/// The state of a validation epoch: the iteration count.
pub struct ValidEpochState {
    iteration: usize,
    stopped: bool,
}

impl ValidEpochState {
    /// The number of items processed so far.
    pub closed spec fn spec_iteration(self) -> nat {
        self.iteration as nat
    }

    /// Whether an interruption has ended the epoch.
    pub closed spec fn spec_stopped(self) -> bool {
        self.stopped
    }

    /// The state at the start of a validation epoch.
    pub fn new() -> (r: Self)
        ensures
            r.spec_iteration() == 0,
            !r.spec_stopped(),
    {
        ValidEpochState { iteration: 0, stopped: false }
    }

    /// The number of items processed so far.
    pub fn iteration(&self) -> (r: usize)
        ensures
            r == self.spec_iteration(),
    {
        self.iteration
    }

    /// Whether an interruption has ended the epoch.
    pub fn is_stopped(&self) -> (r: bool)
        ensures
            r == self.spec_stopped(),
    {
        self.stopped
    }

    /// Counts one more validation item, which the epoch processes, and returns its
    /// iteration number; no item is taken once the epoch has stopped.
    pub fn on_item(&mut self) -> (r: usize)
        requires
            old(self).spec_iteration() < usize::MAX,
            !old(self).spec_stopped(),
        ensures
            r == old(self).spec_iteration() + 1,
            final(self).spec_iteration() == r,
            !final(self).spec_stopped(),
    {
        self.iteration = self.iteration + 1;
        self.iteration
    }

    /// After an item has been processed: the epoch goes on to the next item unless a
    /// stop was requested, in which case it ends here.
    pub fn after_item(&mut self, stop_requested: bool) -> (go_on: bool)
        requires
            !old(self).spec_stopped(),
        ensures
            go_on == !stop_requested,
            final(self).spec_stopped() == stop_requested,
            final(self).spec_iteration() == old(self).spec_iteration(),
    {
        self.stopped = stop_requested;
        !stop_requested
    }
}

/// The progress that a data-parallel peer reports for the whole group of
/// `peer_count` peers: its own counts, multiplied by the number of peers.
pub fn scale_progress(progress: Progress, peer_count: usize) -> (r: Progress)
    requires
        progress.items_processed * peer_count <= usize::MAX,
        progress.items_total * peer_count <= usize::MAX,
    ensures
        r.items_processed == progress.items_processed * peer_count,
        r.items_total == progress.items_total * peer_count,
        r.unit == progress.unit,
{
    let mut progress = progress;
    progress.items_processed = progress.items_processed * peer_count;
    progress.items_total = progress.items_total * peer_count;
    progress
}

/// The number of workers that produced an item, out of `produced`.
pub open spec fn count_produced(produced: Seq<Option<(usize, usize)>>) -> nat
    decreases produced.len(),
{
    if produced.len() == 0 {
        0
    } else {
        count_produced(produced.drop_last()) + if produced.last() is Some { 1nat } else { 0nat }
    }
}

/// The sum of the processed counts (`.0`) and of the totals (`.1`) over the workers
/// that produced an item.
pub open spec fn sum_produced(produced: Seq<Option<(usize, usize)>>) -> (int, int)
    decreases produced.len(),
{
    if produced.len() == 0 {
        (0, 0)
    } else {
        let (p, t) = sum_produced(produced.drop_last());
        match produced.last() {
            Some((wp, wt)) => (p + wp, t + wt),
            None => (p, t),
        }
    }
}

/// The sums over a prefix of the workers are at most the sums over all of them.
proof fn lemma_sum_produced_prefix(produced: Seq<Option<(usize, usize)>>, i: int)
    requires
        0 <= i <= produced.len(),
    ensures
        sum_produced(produced.take(i)).0 <= sum_produced(produced).0,
        sum_produced(produced.take(i)).1 <= sum_produced(produced).1,
        sum_produced(produced).0 >= 0,
        sum_produced(produced).1 >= 0,
    decreases produced.len(),
{
    if produced.len() == 0 {
        assert(produced.take(i) =~= produced);
    } else if i == produced.len() {
        assert(produced.take(i) =~= produced);
        lemma_sum_produced_prefix(produced.drop_last(), 0);
    } else {
        lemma_sum_produced_prefix(produced.drop_last(), i);
        assert(produced.drop_last().take(i) =~= produced.take(i));
    }
}

/// One step over several workers: for each worker, `None` when its data loader had
/// nothing more, or the `(processed, total)` progress of its loader after handing
/// out an item. Gives the number of items sent out and their summed progress, in "items".
pub fn multi_device_progress(produced: &Vec<Option<(usize, usize)>>) -> (r: (usize, Progress))
    requires
        sum_produced(produced@).0 <= usize::MAX,
        sum_produced(produced@).1 <= usize::MAX,
    ensures
        r.0 == count_produced(produced@),
        r.1.items_processed == sum_produced(produced@).0,
        r.1.items_total == sum_produced(produced@).1,
        r.1.unit matches Some(u) && u@ == "items"@,
{
    let mut num_send: usize = 0;
    let mut items_total: usize = 0;
    let mut items_processed: usize = 0;
    let mut i: usize = 0;
    while i < produced.len()
        invariant
            i <= produced@.len(),
            num_send == count_produced(produced@.take(i as int)),
            num_send <= i,
            (items_processed as int, items_total as int) == sum_produced(produced@.take(i as int)),
            sum_produced(produced@).0 <= usize::MAX,
            sum_produced(produced@).1 <= usize::MAX,
        decreases produced@.len() - i,
    {
        proof {
            assert(produced@.take(i + 1).drop_last() =~= produced@.take(i as int));
            lemma_sum_produced_prefix(produced@, i + 1);
        }
        match produced[i] {
            Some((processed, total)) => {
                num_send = num_send + 1;
                items_total = items_total + total;
                items_processed = items_processed + processed;
            },
            None => {},
        }
        i = i + 1;
    }
    proof {
        assert(produced@.take(produced@.len() as int) =~= produced@);
    }
    (num_send, Progress::new(items_processed, items_total, Some("items".to_string())))
}

/// Where the optimizer runs in multi-device training.
#[derive(PartialEq, Eq, Structural, Clone, Copy, Debug)]
pub enum MultiDeviceOptim {
    /// The gradients of every device are moved to the main device (the first one),
    /// accumulated there, and the optimizer steps there.
    OptimMainDevice,
    /// Each device accumulates its own gradients and the optimizer steps on every
    /// device with its own.
    OptimSharded,
}

/// A validation epoch of data-parallel training over the loader `D`.
pub struct DdpValidEpoch<D> {
    dataloader: D,
}

/// A training epoch of data-parallel training over the loader `D`.
pub struct DdpTrainEpoch<D> {
    dataloader: D,
    grad_accumulation: Option<usize>,
}

/// A validation epoch on a single device over the loader `D`.
pub struct SingleDeviceValidEpoch<D> {
    dataloader: D,
}

/// A training epoch on a single device over the loader `D`.
pub struct SingleDeviceTrainEpoch<D> {
    dataloader: D,
    grad_accumulation: Option<usize>,
}

/// A training epoch over several devices, one loader `D` per device.
pub struct MultiDeviceTrainEpoch<D> {
    dataloaders: Vec<D>,
    grad_accumulation: Option<usize>,
}

impl<D> DdpValidEpoch<D> {
    /// The loader of the epoch.
    pub closed spec fn spec_dataloader(self) -> D {
        self.dataloader
    }

    /// A validation epoch over `dataloader`.
    pub fn new(dataloader: D) -> (r: Self)
        ensures
            r.spec_dataloader() == dataloader,
    {
        DdpValidEpoch { dataloader }
    }

    /// The loader of the epoch.
    pub fn dataloader(&self) -> (r: &D)
        ensures
            *r == self.spec_dataloader(),
    {
        &self.dataloader
    }

    /// The state in which the epoch starts.
    pub fn begin(&self) -> (r: ValidEpochState)
        ensures
            r.spec_iteration() == 0,
            !r.spec_stopped(),
    {
        ValidEpochState::new()
    }
}

impl<D> SingleDeviceValidEpoch<D> {
    /// The loader of the epoch.
    pub closed spec fn spec_dataloader(self) -> D {
        self.dataloader
    }

    /// A validation epoch over `dataloader`.
    pub fn new(dataloader: D) -> (r: Self)
        ensures
            r.spec_dataloader() == dataloader,
    {
        SingleDeviceValidEpoch { dataloader }
    }

    /// The loader of the epoch.
    pub fn dataloader(&self) -> (r: &D)
        ensures
            *r == self.spec_dataloader(),
    {
        &self.dataloader
    }

    /// The state in which the epoch starts.
    pub fn begin(&self) -> (r: ValidEpochState)
        ensures
            r.spec_iteration() == 0,
            !r.spec_stopped(),
    {
        ValidEpochState::new()
    }
}

impl<D> DdpTrainEpoch<D> {
    /// The loader of the epoch.
    pub closed spec fn spec_dataloader(self) -> D {
        self.dataloader
    }

    /// The configured gradient accumulation.
    pub closed spec fn spec_grad_accumulation(self) -> Option<usize> {
        self.grad_accumulation
    }

    /// A training epoch over `dataloader` with the given gradient accumulation.
    pub fn new(dataloader: D, grad_accumulation: Option<usize>) -> (r: Self)
        ensures
            r.spec_dataloader() == dataloader,
            r.spec_grad_accumulation() == grad_accumulation,
    {
        DdpTrainEpoch { dataloader, grad_accumulation }
    }

    /// The loader of the epoch.
    pub fn dataloader(&self) -> (r: &D)
        ensures
            *r == self.spec_dataloader(),
    {
        &self.dataloader
    }

    /// The state in which the epoch starts: no iteration yet, an empty accumulator
    /// with the configured accumulation (each item's plan comes from `on_item`
    /// with the number of peers).
    pub fn begin(&self) -> (r: TrainEpochState)
        ensures
            r.spec_iteration() == 0,
            r.spec_accumulation().accumulation() == self.spec_grad_accumulation(),
            r.spec_accumulation().current() == 0,
    {
        TrainEpochState::new(self.grad_accumulation)
    }
}

impl<D> SingleDeviceTrainEpoch<D> {
    /// The loader of the epoch.
    pub closed spec fn spec_dataloader(self) -> D {
        self.dataloader
    }

    /// The configured gradient accumulation.
    pub closed spec fn spec_grad_accumulation(self) -> Option<usize> {
        self.grad_accumulation
    }

    /// A training epoch over `dataloader` with the given gradient accumulation.
    pub fn new(dataloader: D, grad_accumulation: Option<usize>) -> (r: Self)
        ensures
            r.spec_dataloader() == dataloader,
            r.spec_grad_accumulation() == grad_accumulation,
    {
        SingleDeviceTrainEpoch { dataloader, grad_accumulation }
    }

    /// The loader of the epoch.
    pub fn dataloader(&self) -> (r: &D)
        ensures
            *r == self.spec_dataloader(),
    {
        &self.dataloader
    }

    /// The state in which the epoch starts: no iteration yet, an empty accumulator
    /// with the configured accumulation (each item's plan comes from `on_item(1)`).
    pub fn begin(&self) -> (r: TrainEpochState)
        ensures
            r.spec_iteration() == 0,
            r.spec_accumulation().accumulation() == self.spec_grad_accumulation(),
            r.spec_accumulation().current() == 0,
    {
        TrainEpochState::new(self.grad_accumulation)
    }
}

impl<D> MultiDeviceTrainEpoch<D> {
    /// The loaders of the epoch, one per device.
    pub closed spec fn spec_dataloaders(self) -> Seq<D> {
        self.dataloaders@
    }

    /// The configured gradient accumulation.
    pub closed spec fn spec_grad_accumulation(self) -> Option<usize> {
        self.grad_accumulation
    }

    /// A training epoch over one loader per device with the given gradient accumulation.
    pub fn new(dataloaders: Vec<D>, grad_accumulation: Option<usize>) -> (r: Self)
        ensures
            r.spec_dataloaders() == dataloaders@,
            r.spec_grad_accumulation() == grad_accumulation,
    {
        MultiDeviceTrainEpoch { dataloaders, grad_accumulation }
    }

    /// The loaders of the epoch, one per device.
    pub fn dataloaders(&self) -> (r: &Vec<D>)
        ensures
            r@ == self.spec_dataloaders(),
    {
        &self.dataloaders
    }

    /// The state in which the epoch starts: without a configured accumulation the
    /// optimizer steps after every multi-device step (an accumulation of 1); each
    /// step's plan comes from `on_multi_device_step`.
    pub fn begin(&self) -> (r: TrainEpochState)
        ensures
            r.spec_iteration() == 0,
            r.spec_accumulation().accumulation() == Some(
                match self.spec_grad_accumulation() {
                    Some(k) => k,
                    None => 1usize,
                },
            ),
            r.spec_accumulation().current() == 0,
    {
        let accumulation = match self.grad_accumulation {
            Some(k) => k,
            None => 1,
        };
        TrainEpochState::new(Some(accumulation))
    }
}

} // verus!
