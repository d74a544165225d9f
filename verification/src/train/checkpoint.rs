//! What a checkpoint of the training process does with its three records.
use vstd::prelude::*;

verus! {

/// What the checkpointing strategy asks for at an epoch.
#[derive(PartialEq, Eq, Structural, Clone, Copy, Debug)]
pub enum CheckpointingAction {
    /// Delete the checkpoint of the given epoch.
    Delete(usize),
    /// Save a checkpoint of the current epoch.
    Save,
}

/// The records that make up a checkpoint.
#[derive(PartialEq, Eq, Structural, Clone, Copy, Debug)]
pub enum CheckpointRecord {
    Model,
    Optimizer,
    Scheduler,
}

/// One operation on the stored checkpoints.
#[derive(PartialEq, Eq, Structural, Clone, Copy, Debug)]
pub enum CheckpointOp {
    /// Delete the record of the given epoch; failing to is fatal.
    Delete { record: CheckpointRecord, epoch: usize },
    /// Save the record under the given epoch; failing to is fatal.
    Save { record: CheckpointRecord, epoch: usize },
}

/// The operations for one action at `epoch`: the model's, then the optimizer's, then
/// the scheduler's record.
pub open spec fn action_ops(action: CheckpointingAction, epoch: usize) -> Seq<CheckpointOp> {
    match action {
        CheckpointingAction::Delete(e) => seq![
            CheckpointOp::Delete { record: CheckpointRecord::Model, epoch: e },
            CheckpointOp::Delete { record: CheckpointRecord::Optimizer, epoch: e },
            CheckpointOp::Delete { record: CheckpointRecord::Scheduler, epoch: e },
        ],
        CheckpointingAction::Save => seq![
            CheckpointOp::Save { record: CheckpointRecord::Model, epoch },
            CheckpointOp::Save { record: CheckpointRecord::Optimizer, epoch },
            CheckpointOp::Save { record: CheckpointRecord::Scheduler, epoch },
        ],
    }
}

/// The operations for all the actions, in order.
pub open spec fn checkpoint_ops(actions: Seq<CheckpointingAction>, epoch: usize) -> Seq<CheckpointOp>
    decreases actions.len(),
{
    if actions.len() == 0 {
        Seq::empty()
    } else {
        checkpoint_ops(actions.drop_last(), epoch) + action_ops(actions.last(), epoch)
    }
}

/// The operations that a checkpoint at `epoch` performs for the strategy's actions.
pub fn checkpoint_plan(actions: &Vec<CheckpointingAction>, epoch: usize) -> (ops: Vec<CheckpointOp>)
    ensures
        ops@ == checkpoint_ops(actions@, epoch),
{
    let mut ops: Vec<CheckpointOp> = Vec::new();
    let mut i: usize = 0;
    while i < actions.len()
        invariant
            i <= actions@.len(),
            ops@ == checkpoint_ops(actions@.take(i as int), epoch),
        decreases actions@.len() - i,
    {
        proof {
            assert(actions@.take(i + 1).drop_last() =~= actions@.take(i as int));
        }
        let (model, optimizer, scheduler) = match actions[i] {
            CheckpointingAction::Delete(e) => (
                CheckpointOp::Delete { record: CheckpointRecord::Model, epoch: e },
                CheckpointOp::Delete { record: CheckpointRecord::Optimizer, epoch: e },
                CheckpointOp::Delete { record: CheckpointRecord::Scheduler, epoch: e },
            ),
            CheckpointingAction::Save => (
                CheckpointOp::Save { record: CheckpointRecord::Model, epoch },
                CheckpointOp::Save { record: CheckpointRecord::Optimizer, epoch },
                CheckpointOp::Save { record: CheckpointRecord::Scheduler, epoch },
            ),
        };
        ops.push(model);
        ops.push(optimizer);
        ops.push(scheduler);
        proof {
            assert(ops@ =~= checkpoint_ops(actions@.take(i as int), epoch) + action_ops(
                actions@[i as int],
                epoch,
            ));
        }
        i = i + 1;
    }
    proof {
        assert(actions@.take(actions@.len() as int) =~= actions@);
    }
    ops
}

/// A checkpoint performs three operations per action.
pub proof fn lemma_checkpoint_ops_len(actions: Seq<CheckpointingAction>, epoch: usize)
    ensures
        checkpoint_ops(actions, epoch).len() == 3 * actions.len(),
    decreases actions.len(),
{
    if actions.len() > 0 {
        lemma_checkpoint_ops_len(actions.drop_last(), epoch);
    }
}

} // verus!
