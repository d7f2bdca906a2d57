//! One input's run through the pipeline: load, prove, compress if asked,
//! verify, and measure.
//!
//! A run is a state machine. [`PipelineRun::pending`] names what the caller is
//! to do next, and [`PipelineRun::step`] takes in what came of it. The run
//! holds the execution context, the proof and the public instance for as long
//! as a later stage needs them, so that each stage is handed exactly what the
//! stage before it produced.
//!
//! The timed window opens after the load and closes after the verification:
//! loading is preparation, and measuring the proof is bookkeeping.

use vstd::prelude::*;
use crate::backend::{Backend, BackendTypes};
use crate::error::{Failure, PipelineError, Stage};
use crate::input::{BenchmarkInput, InputValue};
use crate::metrics::{outcome_value, Measurement, MetricsRecord, Outcome};

verus! {

/// Where a run stands.
#[derive(Clone, Copy, Debug, PartialEq, Eq, Structural)]
pub enum Phase {
    Loading,
    StartingTimer,
    Proving,
    Compressing,
    Verifying,
    StoppingTimer,
    Measuring,
    Done,
}

impl Phase {
    /// The position of the phase in a run; no step ever lowers it.
    pub open spec fn rank(self) -> nat {
        match self {
            Phase::Loading => 0,
            Phase::StartingTimer => 1,
            Phase::Proving => 2,
            Phase::Compressing => 3,
            Phase::Verifying => 4,
            Phase::StoppingTimer => 5,
            Phase::Measuring => 6,
            Phase::Done => 7,
        }
    }

    /// Whether the timer is running in this phase.
    pub open spec fn timed(self) -> bool {
        self == Phase::Proving || self == Phase::Compressing || self == Phase::Verifying
            || self == Phase::StoppingTimer
    }

    /// Whether a run in this phase holds a proof and its public instance.
    pub open spec fn holds_proof(self) -> bool {
        self == Phase::Compressing || self == Phase::Verifying || self == Phase::StoppingTimer
            || self == Phase::Measuring
    }

    /// Whether a run in this phase holds an execution context.
    pub open spec fn holds_context(self) -> bool {
        self == Phase::StartingTimer || self == Phase::Proving
    }
}

/// What the caller is to do next for a run.
#[derive(Clone, Copy, Debug, PartialEq, Eq, Structural)]
pub enum StageAction {
    /// Bind the artifact, the run's entry point and the run's arguments into
    /// an execution context.
    Load,
    /// Start the timer.
    StartTimer,
    /// Execute and prove the run's execution context.
    Prove,
    /// Compress the run's proof, given the run's public instance.
    Compress,
    /// Verify the run's proof against the run's public instance.
    Verify,
    /// Stop the timer and read it.
    StopTimer,
    /// Take the serialized size of the run's proof.
    Measure,
    /// Nothing: the run is over and its outcome can be collected.
    Finish,
}

/// What a successful proving stage hands back.
pub struct Proven<B: BackendTypes> {
    pub proof: B::Proof,
    pub instance: B::Instance,
    /// The backend's measure of the execution's length.
    pub trace_length: usize,
}

/// What came of the action that a run asked for. A failure carries the
/// backend's diagnostic text.
pub enum StageEvent<B: BackendTypes> {
    Loaded(Result<B::Context, String>),
    TimerStarted,
    Proved(Result<Proven<B>, String>),
    Compressed(Result<B::Proof, String>),
    Verified(Result<(), String>),
    /// The timer was stopped; it had run for this many milliseconds.
    TimerStopped(u128),
    /// The proof's serialized form has this many bytes.
    Measured(usize),
}

/// The mathematical value of a [`PipelineRun`].
pub struct RunView<B: BackendTypes> {
    pub input: InputValue,
    pub entry_point: Seq<char>,
    /// Whether this run compresses its proof.
    pub compress: bool,
    /// Whether the backend's trace length is kept; where it is not, `0` is.
    pub counts_trace: bool,
    pub phase: Phase,
    pub context: Option<B::Context>,
    pub proof: Option<B::Proof>,
    pub instance: Option<B::Instance>,
    pub trace_length: nat,
    pub duration_ms: nat,
    pub proof_size_bytes: nat,
    pub failure: Option<Failure>,
}

impl<B: BackendTypes> RunView<B> {
    /// A run that has not begun. It compresses only if compression is asked
    /// for and the backend can do it, and it keeps trace lengths only of a
    /// backend that has them.
    pub open spec fn start(
        input: InputValue,
        entry_point: Seq<char>,
        backend: Backend,
        compress: bool,
    ) -> Self {
        RunView {
            input,
            entry_point,
            compress: compress && backend.spec_supports_compression(),
            counts_trace: backend.spec_reports_trace_length(),
            phase: Phase::Loading,
            context: None,
            proof: None,
            instance: None,
            trace_length: 0,
            duration_ms: 0,
            proof_size_bytes: 0,
            failure: None,
        }
    }

    /// A run is well formed when it holds exactly what its phase needs, when
    /// it is over once it has failed, and when it compresses only if it was
    /// set up to.
    pub open spec fn wf(self) -> bool {
        &&& self.context is Some <==> self.phase.holds_context()
        &&& self.proof is Some <==> self.phase.holds_proof()
        &&& self.instance is Some <==> self.phase.holds_proof()
        &&& self.failure is Some ==> self.phase == Phase::Done
        &&& self.phase == Phase::Compressing ==> self.compress
        &&& !self.counts_trace ==> self.trace_length == 0
    }

    /// The run abandoned at `stage`: it is over, and everything it held is
    /// dropped.
    pub open spec fn abandoned(self, stage: Stage, message: Seq<char>) -> Self {
        RunView {
            phase: Phase::Done,
            context: None,
            proof: None,
            instance: None,
            failure: Some(Failure { stage, message }),
            ..self
        }
    }

    /// Whether `event` answers the action that the run is waiting on.
    pub open spec fn expects(self, event: StageEvent<B>) -> bool {
        match (self.phase, event) {
            (Phase::Loading, StageEvent::Loaded(_)) => true,
            (Phase::StartingTimer, StageEvent::TimerStarted) => true,
            (Phase::Proving, StageEvent::Proved(_)) => true,
            (Phase::Compressing, StageEvent::Compressed(_)) => true,
            (Phase::Verifying, StageEvent::Verified(_)) => true,
            (Phase::StoppingTimer, StageEvent::TimerStopped(_)) => true,
            (Phase::Measuring, StageEvent::Measured(_)) => true,
            _ => false,
        }
    }

    /// The run after `event`. An event that does not answer the pending
    /// action changes nothing. A failed stage ends the run with that stage's
    /// failure. A successful one moves the run on: the prover's proof and
    /// instance are kept, compression replaces the proof and leaves the
    /// instance, and the last measurement drops both.
    pub open spec fn step(self, event: StageEvent<B>) -> Self {
        match (self.phase, event) {
            (Phase::Loading, StageEvent::Loaded(Ok(context))) => RunView {
                phase: Phase::StartingTimer,
                context: Some(context),
                ..self
            },
            (Phase::Loading, StageEvent::Loaded(Err(message))) => self.abandoned(
                Stage::Load,
                message@,
            ),
            (Phase::StartingTimer, StageEvent::TimerStarted) => RunView {
                phase: Phase::Proving,
                ..self
            },
            (Phase::Proving, StageEvent::Proved(Ok(proven))) => RunView {
                phase: if self.compress {
                    Phase::Compressing
                } else {
                    Phase::Verifying
                },
                context: None,
                proof: Some(proven.proof),
                instance: Some(proven.instance),
                trace_length: if self.counts_trace {
                    proven.trace_length as nat
                } else {
                    0
                },
                ..self
            },
            (Phase::Proving, StageEvent::Proved(Err(message))) => self.abandoned(
                Stage::Prove,
                message@,
            ),
            (Phase::Compressing, StageEvent::Compressed(Ok(proof))) => RunView {
                phase: Phase::Verifying,
                proof: Some(proof),
                ..self
            },
            (Phase::Compressing, StageEvent::Compressed(Err(message))) => self.abandoned(
                Stage::Compress,
                message@,
            ),
            (Phase::Verifying, StageEvent::Verified(Ok(_))) => RunView {
                phase: Phase::StoppingTimer,
                ..self
            },
            (Phase::Verifying, StageEvent::Verified(Err(message))) => self.abandoned(
                Stage::Verify,
                message@,
            ),
            (Phase::StoppingTimer, StageEvent::TimerStopped(elapsed)) => RunView {
                phase: Phase::Measuring,
                duration_ms: elapsed as nat,
                ..self
            },
            (Phase::Measuring, StageEvent::Measured(bytes)) => RunView {
                phase: Phase::Done,
                proof: None,
                instance: None,
                proof_size_bytes: bytes as nat,
                ..self
            },
            _ => self,
        }
    }

    /// The run after each of `events` in turn.
    pub open spec fn replay(self, events: Seq<StageEvent<B>>) -> Self
        decreases events.len(),
    {
        if events.len() == 0 {
            self
        } else {
            self.replay(events.drop_last()).step(events.last())
        }
    }

    /// What the caller is to do next.
    pub open spec fn pending(self) -> StageAction {
        match self.phase {
            Phase::Loading => StageAction::Load,
            Phase::StartingTimer => StageAction::StartTimer,
            Phase::Proving => StageAction::Prove,
            Phase::Compressing => StageAction::Compress,
            Phase::Verifying => StageAction::Verify,
            Phase::StoppingTimer => StageAction::StopTimer,
            Phase::Measuring => StageAction::Measure,
            Phase::Done => StageAction::Finish,
        }
    }

    /// The record of a run that went through.
    pub open spec fn measurement(self) -> Measurement {
        Measurement {
            parameter: self.input,
            duration_ms: self.duration_ms,
            proof_size_bytes: self.proof_size_bytes,
            execution_trace_length: self.trace_length,
        }
    }

    /// How the run ended: nothing while it is under way, the failure if a
    /// stage failed, and otherwise the record. There is no record of a run
    /// that did not get through every stage.
    pub open spec fn outcome(self) -> Option<Outcome> {
        if self.phase != Phase::Done {
            None
        } else {
            match self.failure {
                Some(failure) => Some(Err(failure)),
                None => Some(Ok(self.measurement())),
            }
        }
    }
}

/// One input's run through the pipeline.
pub struct PipelineRun<B: BackendTypes> {
    input: BenchmarkInput,
    entry_point: String,
    compress: bool,
    counts_trace: bool,
    phase: Phase,
    context: Option<B::Context>,
    proof: Option<B::Proof>,
    instance: Option<B::Instance>,
    trace_length: usize,
    duration_ms: u128,
    proof_size_bytes: usize,
    failure: Option<PipelineError>,
}

impl<B: BackendTypes> View for PipelineRun<B> {
    type V = RunView<B>;

    closed spec fn view(&self) -> RunView<B> {
        RunView {
            input: self.input@,
            entry_point: self.entry_point@,
            compress: self.compress,
            counts_trace: self.counts_trace,
            phase: self.phase,
            context: self.context,
            proof: self.proof,
            instance: self.instance,
            trace_length: self.trace_length as nat,
            duration_ms: self.duration_ms as nat,
            proof_size_bytes: self.proof_size_bytes as nat,
            failure: match self.failure {
                Some(error) => Some(error@),
                None => None,
            },
        }
    }
}

impl<B: BackendTypes> PipelineRun<B> {
    #[verifier::type_invariant]
    spec fn well_formed(self) -> bool {
        self@.wf()
    }

    /// A run of `input` through `entry_point` that has not begun.
    pub fn new(input: BenchmarkInput, entry_point: &str, backend: Backend, compress: bool) -> (run:
        Self)
        ensures
            run@ == RunView::<B>::start(input@, entry_point@, backend, compress),
            run@.wf(),
    {
        PipelineRun {
            input,
            entry_point: entry_point.to_owned(),
            compress: compress && backend.supports_compression(),
            counts_trace: backend.reports_trace_length(),
            phase: Phase::Loading,
            context: None,
            proof: None,
            instance: None,
            trace_length: 0,
            duration_ms: 0,
            proof_size_bytes: 0,
            failure: None,
        }
    }

    /// What the caller is to do next.
    pub fn pending(&self) -> (action: StageAction)
        ensures
            action == self@.pending(),
            self@.wf(),
    {
        proof {
            use_type_invariant(self);
        }
        match self.phase {
            Phase::Loading => StageAction::Load,
            Phase::StartingTimer => StageAction::StartTimer,
            Phase::Proving => StageAction::Prove,
            Phase::Compressing => StageAction::Compress,
            Phase::Verifying => StageAction::Verify,
            Phase::StoppingTimer => StageAction::StopTimer,
            Phase::Measuring => StageAction::Measure,
            Phase::Done => StageAction::Finish,
        }
    }

    /// Whether the run is over.
    pub fn is_done(&self) -> (done: bool)
        ensures
            done == (self@.phase == Phase::Done),
            self@.wf(),
    {
        proof {
            use_type_invariant(self);
        }
        match self.phase {
            Phase::Done => true,
            _ => false,
        }
    }

    /// The input that is run.
    pub fn input(&self) -> (input: &BenchmarkInput)
        ensures
            input@ == self@.input,
    {
        &self.input
    }

    /// The entry point that loading is to bind.
    pub fn entry_point(&self) -> (entry_point: &str)
        ensures
            entry_point@ == self@.entry_point,
    {
        self.entry_point.as_str()
    }

    /// The argument list that loading is to bind: the run's input and nothing
    /// else.
    pub fn arguments(&self) -> (arguments: Vec<BenchmarkInput>)
        ensures
            arguments@.len() == 1,
            arguments@[0]@ == self@.input,
    {
        let mut arguments = Vec::new();
        arguments.push(self.input.clone());
        arguments
    }

    /// The execution context that proving is to be given: the one that this
    /// run's load produced. It is there from the load until the proof.
    pub fn context(&self) -> (context: Option<&B::Context>)
        ensures
            context == match self@.context {
                Some(held) => Some(&held),
                None => None,
            },
            context is Some <==> self@.phase.holds_context(),
    {
        proof {
            use_type_invariant(self);
        }
        self.context.as_ref()
    }

    /// The proof that compression, verification and measurement are to be
    /// given: the prover's, or the compressed one once there is one. It is
    /// there from the proof until the measurement.
    pub fn current_proof(&self) -> (current: Option<&B::Proof>)
        ensures
            current == match self@.proof {
                Some(held) => Some(&held),
                None => None,
            },
            current is Some <==> self@.phase.holds_proof(),
    {
        proof {
            use_type_invariant(self);
        }
        self.proof.as_ref()
    }

    /// The public instance that compression and verification are to be given:
    /// the one that came with this run's proof.
    pub fn instance(&self) -> (instance: Option<&B::Instance>)
        ensures
            instance == match self@.instance {
                Some(held) => Some(&held),
                None => None,
            },
            instance is Some <==> self@.phase.holds_proof(),
    {
        proof {
            use_type_invariant(self);
        }
        self.instance.as_ref()
    }

    /// How the run ended, or `None` while it is under way.
    pub fn outcome(&self) -> (outcome: Option<Result<MetricsRecord, PipelineError>>)
        ensures
            match outcome {
                Some(result) => self@.outcome() == Some(outcome_value(result)),
                None => self@.outcome() is None,
            },
    {
        match self.phase {
            Phase::Done => match &self.failure {
                Some(error) => Some(Err(error.clone())),
                None => Some(
                    Ok(
                        MetricsRecord {
                            parameter: self.input.clone(),
                            duration_ms: self.duration_ms,
                            proof_size_bytes: self.proof_size_bytes,
                            execution_trace_length: self.trace_length,
                        },
                    ),
                ),
            },
            _ => None,
        }
    }

    /// The run abandoned at `stage`.
    fn abandon(self, stage: Stage, message: String) -> (run: Self)
        ensures
            run@ == self@.abandoned(stage, message@),
    {
        proof {
            use_type_invariant(&self);
        }
        PipelineRun {
            input: self.input,
            entry_point: self.entry_point,
            compress: self.compress,
            counts_trace: self.counts_trace,
            phase: Phase::Done,
            context: None,
            proof: None,
            instance: None,
            trace_length: self.trace_length,
            duration_ms: self.duration_ms,
            proof_size_bytes: self.proof_size_bytes,
            failure: Some(PipelineError { stage, message }),
        }
    }

    /// Takes in what came of the pending action and moves the run on.
    pub fn step(self, event: StageEvent<B>) -> (run: Self)
        ensures
            run@ == self@.step(event),
            run@.wf(),
    {
        proof {
            use_type_invariant(&self);
        }
        match (self.phase, event) {
            (Phase::Loading, StageEvent::Loaded(Ok(context))) => PipelineRun {
                phase: Phase::StartingTimer,
                context: Some(context),
                ..self
            },
            (Phase::Loading, StageEvent::Loaded(Err(message))) => self.abandon(
                Stage::Load,
                message,
            ),
            (Phase::StartingTimer, StageEvent::TimerStarted) => PipelineRun {
                phase: Phase::Proving,
                ..self
            },
            (Phase::Proving, StageEvent::Proved(Ok(proven))) => {
                let phase = if self.compress {
                    Phase::Compressing
                } else {
                    Phase::Verifying
                };
                let trace_length: usize = if self.counts_trace {
                    proven.trace_length
                } else {
                    0
                };
                PipelineRun {
                    phase,
                    context: None,
                    proof: Some(proven.proof),
                    instance: Some(proven.instance),
                    trace_length,
                    ..self
                }
            },
            (Phase::Proving, StageEvent::Proved(Err(message))) => self.abandon(
                Stage::Prove,
                message,
            ),
            (Phase::Compressing, StageEvent::Compressed(Ok(proof))) => PipelineRun {
                phase: Phase::Verifying,
                proof: Some(proof),
                ..self
            },
            (Phase::Compressing, StageEvent::Compressed(Err(message))) => self.abandon(
                Stage::Compress,
                message,
            ),
            (Phase::Verifying, StageEvent::Verified(Ok(_))) => PipelineRun {
                phase: Phase::StoppingTimer,
                ..self
            },
            (Phase::Verifying, StageEvent::Verified(Err(message))) => self.abandon(
                Stage::Verify,
                message,
            ),
            (Phase::StoppingTimer, StageEvent::TimerStopped(elapsed)) => PipelineRun {
                phase: Phase::Measuring,
                duration_ms: elapsed,
                ..self
            },
            (Phase::Measuring, StageEvent::Measured(bytes)) => PipelineRun {
                phase: Phase::Done,
                proof: None,
                instance: None,
                proof_size_bytes: bytes,
                ..self
            },
            _ => self,
        }
    }
}

} // verus!
