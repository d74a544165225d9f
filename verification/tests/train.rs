use filament_ifc::train::accumulation::{GradientAccumulation, OptimizerAction};
use filament_ifc::train::epoch::{
    multi_device_progress, scale_progress, DdpTrainEpoch, DdpValidEpoch, MultiDeviceTrainEpoch,
    plan_sharded_step, Progress, SingleDeviceTrainEpoch, SingleDeviceValidEpoch, TrainEpochState,
    ValidEpochState,
};
use filament_ifc::lattice::{Labeled, A};
use filament_ifc::train::checkpoint::{checkpoint_plan, CheckpointOp, CheckpointRecord, CheckpointingAction};
use filament_ifc::train::evaluator::{Evaluator, EvaluatorEvent};
use filament_ifc::train::interrupter::Interrupter;
use filament_ifc::train::step::MultiTrainOutput;

#[test]
fn accumulation_steps_every_k_gradients() {
    let mut acc = GradientAccumulation::new(Some(3));
    let actions: Vec<OptimizerAction> = (0..7).map(|_| acc.on_gradients()).collect();
    assert!(actions == vec![
        OptimizerAction::Accumulate,
        OptimizerAction::Accumulate,
        OptimizerAction::AccumulateAndStep,
        OptimizerAction::Accumulate,
        OptimizerAction::Accumulate,
        OptimizerAction::AccumulateAndStep,
        OptimizerAction::Accumulate,
    ]);
    assert_eq!(acc.accumulated(), 1);
}

#[test]
fn no_accumulation_steps_directly() {
    let mut acc = GradientAccumulation::new(None);
    for _ in 0..4 {
        assert!(acc.on_gradients() == OptimizerAction::Step);
        assert_eq!(acc.accumulated(), 0);
    }
}

#[test]
fn accumulation_of_zero_or_one_steps_every_time() {
    for k in [0usize, 1] {
        let mut acc = GradientAccumulation::new(Some(k));
        for _ in 0..3 {
            assert!(acc.on_gradients() == OptimizerAction::AccumulateAndStep);
            assert_eq!(acc.accumulated(), 0);
        }
    }
}

#[test]
fn single_device_epoch_plans() {
    let epoch = SingleDeviceTrainEpoch::new("loader", Some(2));
    assert_eq!(*epoch.dataloader(), "loader");
    let mut state = epoch.begin();
    let p1 = state.on_item(1);
    assert_eq!((p1.iteration, p1.lr_steps), (1, 1));
    assert!(p1.optimizer == OptimizerAction::Accumulate);
    let p2 = state.on_item(1);
    assert_eq!(p2.iteration, 2);
    assert!(p2.optimizer == OptimizerAction::AccumulateAndStep);
    assert_eq!(state.iteration(), 2);
}

#[test]
fn ddp_epoch_plans_count_peers() {
    let epoch = DdpTrainEpoch::new(7u8, None);
    assert_eq!(*epoch.dataloader(), 7);
    let mut state = epoch.begin();
    let p = state.on_item(4);
    assert_eq!((p.iteration, p.lr_steps), (4, 4));
    assert!(p.optimizer == OptimizerAction::Step);
    let p = state.on_item(4);
    assert_eq!(p.iteration, 8);

    let scaled = scale_progress(Progress::new(3, 10, Some("items".to_string())), 4);
    assert_eq!((scaled.items_processed, scaled.items_total), (12, 40));
    assert_eq!(scaled.unit.as_deref(), Some("items"));
}

#[test]
fn multi_device_epoch_plans() {
    let epoch = MultiDeviceTrainEpoch::new(vec!['a', 'b'], None);
    assert_eq!(epoch.dataloaders().len(), 2);
    let mut state = epoch.begin();
    let plan = state.on_multi_device_step(2);
    assert!(plan.optimizer == OptimizerAction::AccumulateAndStep);
    assert_eq!(plan.first_iteration, 1);
    assert_eq!(plan.lr_steps, 1);
    let plan = state.on_multi_device_step(2);
    assert_eq!(plan.first_iteration, 3);
    assert_eq!(plan.lr_steps, 1);
    assert_eq!(state.iteration(), 4);

    let epoch = MultiDeviceTrainEpoch::new(vec!['a'], Some(2));
    let mut state: TrainEpochState = epoch.begin();
    assert!(state.on_multi_device_step(1).optimizer == OptimizerAction::Accumulate);
    assert!(state.on_multi_device_step(1).optimizer == OptimizerAction::AccumulateAndStep);
}

#[test]
fn validation_epochs_count_items() {
    let epoch = DdpValidEpoch::new(());
    let mut state = epoch.begin();
    assert_eq!(state.on_item(), 1);
    assert_eq!(state.on_item(), 2);
    let epoch = SingleDeviceValidEpoch::new(1u32);
    assert_eq!(*epoch.dataloader(), 1);
    let mut state: ValidEpochState = epoch.begin();
    assert_eq!(state.on_item(), 1);
}

#[test]
fn multi_device_progress_sums_producing_workers() {
    let produced = vec![Some((2usize, 10usize)), None, Some((3, 12))];
    let (sent, progress) = multi_device_progress(&produced);
    assert_eq!(sent, 2);
    assert_eq!(progress.items_processed, 5);
    assert_eq!(progress.items_total, 22);
    assert_eq!(progress.unit.as_deref(), Some("items"));

    let (sent, progress) = multi_device_progress(&vec![None, None]);
    assert_eq!(sent, 0);
    assert_eq!((progress.items_processed, progress.items_total), (0, 0));
}

#[test]
fn interrupter_stop_and_reset() {
    let interrupter = Interrupter::new();
    assert!(!interrupter.should_stop());
    assert_eq!(interrupter.get_message(), None);

    let handle = interrupter.clone();
    handle.stop(Some("early stopping"));
    assert!(interrupter.should_stop());
    assert_eq!(interrupter.get_message().as_deref(), Some("early stopping"));

    interrupter.reset();
    assert!(!handle.should_stop());

    interrupter.stop(None);
    assert!(handle.should_stop());
    assert_eq!(handle.get_message().as_deref(), Some("early stopping"));
}

#[test]
fn checkpoint_deletes_then_saves_all_three_records() {
    let ops = checkpoint_plan(&vec![CheckpointingAction::Delete(2), CheckpointingAction::Save], 5);
    assert_eq!(
        ops,
        vec![
            CheckpointOp::Delete { record: CheckpointRecord::Model, epoch: 2 },
            CheckpointOp::Delete { record: CheckpointRecord::Optimizer, epoch: 2 },
            CheckpointOp::Delete { record: CheckpointRecord::Scheduler, epoch: 2 },
            CheckpointOp::Save { record: CheckpointRecord::Model, epoch: 5 },
            CheckpointOp::Save { record: CheckpointRecord::Optimizer, epoch: 5 },
            CheckpointOp::Save { record: CheckpointRecord::Scheduler, epoch: 5 },
        ]
    );
    assert!(checkpoint_plan(&vec![], 1).is_empty());
}

#[test]
fn evaluator_reports_events_in_order() {
    let mut evaluator = Evaluator::eval_all(2);
    assert_eq!(evaluator.total_tests(), 2);
    assert_eq!(evaluator.begin(), EvaluatorEvent::Start { total_tests: 2 });
    assert_eq!(evaluator.start_test(5), EvaluatorEvent::StartTest { split: 0, total_items: 5 });
    assert_eq!(evaluator.on_item(), EvaluatorEvent::ProcessedItem { split: 0, iteration: 1 });
    assert!(evaluator.after_item(false));
    assert_eq!(evaluator.on_item(), EvaluatorEvent::ProcessedItem { split: 0, iteration: 2 });
    assert!(!evaluator.after_item(true));
    assert!(evaluator.is_stopped());
    assert_eq!(evaluator.end_test(), EvaluatorEvent::EndTest);
    assert_eq!(evaluator.start_test(3), EvaluatorEvent::StartTest { split: 1, total_items: 3 });
    assert!(evaluator.is_stopped());
    assert_eq!(evaluator.iteration(), 0);
    assert_eq!(evaluator.end_test(), EvaluatorEvent::EndTest);
    assert_eq!(evaluator.started(), 2);
    assert_eq!(evaluator.finish(), EvaluatorEvent::End);
    assert!(evaluator.is_stopped());
    assert_eq!(Evaluator::eval().total_tests(), 1);
}

#[test]
fn evaluator_numbers_each_dataset_from_one_without_a_stop() {
    let mut evaluator = Evaluator::eval_all(2);
    evaluator.begin();
    evaluator.start_test(1);
    assert_eq!(evaluator.on_item(), EvaluatorEvent::ProcessedItem { split: 0, iteration: 1 });
    assert!(evaluator.after_item(false));
    evaluator.end_test();
    evaluator.start_test(1);
    assert!(!evaluator.is_stopped());
    assert_eq!(evaluator.on_item(), EvaluatorEvent::ProcessedItem { split: 1, iteration: 1 });
}

#[test]
fn validation_epoch_stops_after_the_interrupted_item() {
    let epoch = DdpValidEpoch::new(0u8);
    let mut state = epoch.begin();
    assert!(!state.is_stopped());
    assert_eq!(state.on_item(), 1);
    assert!(state.after_item(false));
    assert_eq!(state.on_item(), 2);
    assert!(!state.after_item(true));
    assert!(state.is_stopped());
    assert_eq!(state.iteration(), 2);
}

#[test]
fn sharded_step_routes_gradients_by_device() {
    let plan = plan_sharded_step(OptimizerAction::AccumulateAndStep, &vec![1, 0, 2], 3);
    assert_eq!(plan.accumulate_on, vec![1, 0, 2]);
    assert_eq!(plan.optimize_devices, vec![0, 1, 2]);
    let plan = plan_sharded_step(OptimizerAction::Accumulate, &vec![0, 1], 2);
    assert_eq!(plan.accumulate_on, vec![0, 1]);
    assert!(plan.optimize_devices.is_empty());
}

#[test]
fn multi_train_output_keeps_its_device() {
    let out = MultiTrainOutput::new(Labeled::<u32, A>::new(7), 3);
    assert_eq!(out.device_id(), 3);
    assert_eq!(*out.output.declassify_ref(), 7);
}
