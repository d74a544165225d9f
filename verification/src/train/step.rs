//! What a multi-device training step hands back, and the marker for sharded modules.
use crate::lattice::{Label, Labeled};
use vstd::prelude::*;

verus! {

/// The output of one training step on one device.
pub struct MultiTrainOutput<TO, L: Label> {
    /// The training output, under the label of the step's input.
    pub output: Labeled<TO, L>,
    /// The device on which the step ran.
    device_id: usize,
}

impl<TO, L: Label> MultiTrainOutput<TO, L> {
    /// The training output.
    pub closed spec fn spec_output(self) -> Labeled<TO, L> {
        self.output
    }

    /// The device on which the step ran.
    pub closed spec fn spec_device_id(self) -> usize {
        self.device_id
    }

    /// The output of a step that ran on device `device_id`.
    pub fn new(output: Labeled<TO, L>, device_id: usize) -> (r: Self)
        ensures
            r.spec_output() == output,
            r.spec_device_id() == device_id,
    {
        MultiTrainOutput { output, device_id }
    }

    /// The device on which the step ran.
    pub fn device_id(&self) -> (r: usize)
        ensures
            r == self.spec_device_id(),
    {
        self.device_id
    }
}

/// Describes how a module is distributed across several devices: each of its
/// parameters is marked as distributed under its own id.
pub struct ModuleSharder;

} // verus!
