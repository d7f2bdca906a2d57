//! What a benchmark session is configured with.

use vstd::prelude::*;
use crate::backend::Backend;
use crate::input::{input_values, BenchmarkInput, InputValue};

verus! {

/// The sizes of the steps that a folding backend cuts an execution into. The
/// two are set independently; a memory step size that is absent leaves the
/// backend's own default in place.
#[derive(Clone, Copy, Debug, PartialEq, Eq, Structural)]
pub struct StepSizes {
    pub execution: usize,
    pub memory: Option<usize>,
}

/// The configuration of one benchmark session.
#[derive(Debug)]
pub struct BenchConfig {
    /// The guest program's name; it is also the entry point that is invoked.
    pub guest: String,
    /// The backend that proves.
    pub backend: Backend,
    /// The inputs, in the order in which they are to be run.
    pub benchmark_args: Vec<BenchmarkInput>,
    /// The execution step size handed to the backend's setup.
    pub execution_step_size: usize,
    /// The memory step size handed to the backend's setup, if one is given.
    pub memory_step_size: Option<usize>,
    /// Whether proofs are to be compressed before they are verified.
    pub compress: bool,
}

/// The mathematical value of a [`BenchConfig`].
pub struct Plan {
    pub guest: Seq<char>,
    pub backend: Backend,
    pub inputs: Seq<InputValue>,
    pub steps: StepSizes,
    pub compress: bool,
}

impl Plan {
    /// Whether runs of this session compress: compression was asked for and
    /// the backend can do it.
    pub open spec fn compresses(self) -> bool {
        self.compress && self.backend.spec_supports_compression()
    }
}

impl View for BenchConfig {
    type V = Plan;

    open spec fn view(&self) -> Plan {
        Plan {
            guest: self.guest@,
            backend: self.backend,
            inputs: input_values(self.benchmark_args@),
            steps: StepSizes { execution: self.execution_step_size, memory: self.memory_step_size },
            compress: self.compress,
        }
    }
}

impl BenchConfig {
    /// The step sizes that the backend's setup is to be given.
    pub fn step_sizes(&self) -> (steps: StepSizes)
        ensures
            steps == self@.steps,
    {
        StepSizes { execution: self.execution_step_size, memory: self.memory_step_size }
    }

    /// Whether runs of this session compress.
    pub fn compresses(&self) -> (compresses: bool)
        ensures
            compresses == self@.compresses(),
    {
        self.compress && self.backend.supports_compression()
    }
}

} // verus!
