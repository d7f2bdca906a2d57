//! Driving runs and sessions to their end against a backend, a clock and a
//! sink.
//!
//! The state machines decide; the functions here do what they ask for, by
//! calling the operations of a backend, a stopwatch and a sink, and hand the answers
//! back. Nothing is assumed of those operations but that they return. What a
//! driver hands back is therefore always something that the state machine
//! arrives at under some sequence of answers, and everything that holds of
//! every such sequence holds of it.

use vstd::prelude::*;
use vstd::pervasive::unreached;
use crate::backend::{Backend, BackendTypes};
use crate::clock::Clock;
use crate::config::{BenchConfig, StepSizes};
use crate::error::PipelineError;
use crate::guest::StepReport;
use crate::input::BenchmarkInput;
use crate::metrics::{outcome_value, InputResult, MetricsRecord, Outcome};
use crate::orchestrator::{Action, Event, Orchestrator, SessionStage, SessionView};
use crate::orchestrator_laws::{lemma_session_comes_to_an_end, lemma_session_step, work_left};
use crate::pipeline::{PipelineRun, Proven, RunView, StageAction, StageEvent};
use crate::pipeline_laws::{
    lemma_replay_moves_forward,
    lemma_replay_push,
    lemma_run_comes_to_an_end,
    steps_left,
};

verus! {

/// The operations of a proving backend.
pub trait BackendAdapter: BackendTypes + Sized {
    /// Compiles the guest and reports how that ended, with the artifact if
    /// there is one.
    fn compile(&mut self, guest: &str) -> (StepReport, Option<Self::Artifact>);

    /// Converts the compiled guest to the format that the backend loads and
    /// reports how that ended, with the artifact if there is one.
    fn convert(&mut self, guest: &str, compiled: &Self::Artifact) -> (
        StepReport,
        Option<Self::Artifact>,
    );

    /// Makes the public parameters for the given step sizes.
    fn setup(&mut self, steps: StepSizes, artifact: &Self::Artifact) -> Self::Params;

    /// Binds the artifact, an entry point and arguments into a runnable unit.
    fn load_executable(
        &mut self,
        artifact: &Self::Artifact,
        entry_point: &str,
        arguments: Vec<BenchmarkInput>,
    ) -> Result<Self::Context, String>;

    /// Executes the bound program and proves the execution.
    fn prove(&mut self, params: &Self::Params, context: &Self::Context) -> Result<
        Proven<Self>,
        String,
    >;

    /// Makes a smaller proof of the same execution.
    fn compress(
        &mut self,
        params: &Self::Params,
        proof: &Self::Proof,
        instance: &Self::Instance,
    ) -> Result<Self::Proof, String>;

    /// Checks the proof against the instance.
    fn verify(
        &mut self,
        params: &Self::Params,
        proof: &Self::Proof,
        instance: &Self::Instance,
    ) -> Result<(), String>;

    /// The byte length of the proof's canonical serialized form.
    fn serialized_size(&mut self, proof: &Self::Proof) -> usize;
}

/// Where reports are written.
pub trait Sink {
    /// Writes `contents` at `path`, in place of what may be there.
    fn write(&mut self, path: &str, contents: &str) -> Result<(), String>;
}

/// Whether a run that begins as `start` can end with `outcome`: whether some
/// sequence of answers leads the run there.
pub open spec fn attainable<B: BackendTypes>(start: RunView<B>, outcome: Outcome) -> bool {
    exists|events: Seq<StageEvent<B>>| (#[trigger] start.replay(events)).outcome() == Some(outcome)
}

/// Whether a session that begins as `start` can come to `session`: whether
/// some sequence of answers leads it there.
pub open spec fn reachable<B: BackendTypes>(start: SessionView<B>, session: SessionView<B>) -> bool {
    exists|events: Seq<Event<B>>| #[trigger] start.replay(events) == session
}

/// Does what a run asks for and hands back the answer. Each operation is
/// given what the run holds for it, and the session's artifact and
/// parameters.
fn answer<A: BackendAdapter, K: Clock>(
    adapter: &mut A,
    clock: &mut K,
    artifact: &A::Artifact,
    params: &A::Params,
    run: &PipelineRun<A>,
) -> (event: StageEvent<A>)
    requires
        run@.pending() != StageAction::Finish,
    ensures
        run@.expects(event),
{
    match run.pending() {
        StageAction::Load => StageEvent::Loaded(
            adapter.load_executable(artifact, run.entry_point(), run.arguments()),
        ),
        StageAction::StartTimer => {
            clock.start();
            StageEvent::TimerStarted
        },
        StageAction::Prove => match run.context() {
            Some(context) => StageEvent::Proved(adapter.prove(params, context)),
            None => unreached(),
        },
        StageAction::Compress => match (run.current_proof(), run.instance()) {
            (Some(proof), Some(instance)) => StageEvent::Compressed(
                adapter.compress(params, proof, instance),
            ),
            _ => unreached(),
        },
        StageAction::Verify => match (run.current_proof(), run.instance()) {
            (Some(proof), Some(instance)) => StageEvent::Verified(
                adapter.verify(params, proof, instance),
            ),
            _ => unreached(),
        },
        StageAction::StopTimer => StageEvent::TimerStopped(clock.stop()),
        StageAction::Measure => match run.current_proof() {
            Some(proof) => StageEvent::Measured(adapter.serialized_size(proof)),
            None => unreached(),
        },
        StageAction::Finish => unreached(),
    }
}

/// Runs one input through the pipeline, from the load to the measurement or
/// to the first stage that fails, and hands back the record or the failure.
///
/// Whatever the backend answers, the result is one that a run of this input
/// arrives at under some sequence of answers. In particular a record is of
/// this input, and reports the trace length `0` on a backend that has none.
pub fn run_once<A: BackendAdapter, K: Clock>(
    adapter: &mut A,
    clock: &mut K,
    params: &A::Params,
    artifact: &A::Artifact,
    entry_point: &str,
    backend: Backend,
    compress: bool,
    input: BenchmarkInput,
) -> (result: Result<MetricsRecord, PipelineError>)
    ensures
        attainable(
            RunView::<A>::start(input@, entry_point@, backend, compress),
            outcome_value(result),
        ),
        result matches Ok(record) ==> record@.parameter == input@,
        result matches Ok(record) ==> !backend.spec_reports_trace_length()
            ==> record.execution_trace_length == 0,
{
    let ghost start = RunView::<A>::start(input@, entry_point@, backend, compress);
    let ghost mut events: Seq<StageEvent<A>> = Seq::empty();
    let mut run = PipelineRun::<A>::new(input, entry_point, backend, compress);
    while !run.is_done()
        invariant
            run@ == start.replay(events),
            run@.wf(),
        decreases steps_left(run@),
    {
        let event = answer(adapter, clock, artifact, params, &run);
        proof {
            lemma_replay_push(start, events, event);
            lemma_run_comes_to_an_end(run@, event);
            events = events.push(event);
        }
        run = run.step(event);
    }
    proof {
        lemma_replay_moves_forward(start, events);
    }
    match run.outcome() {
        Some(result) => result,
        None => unreached(),
    }
}

/// Runs every input through the pipeline, in order, and hands back what came
/// of each: one result for every input, in the order of the inputs, whether
/// the input's run went through or failed. A run that fails does not keep
/// the runs after it from being made.
pub fn run<A: BackendAdapter, K: Clock>(
    adapter: &mut A,
    clock: &mut K,
    params: &A::Params,
    artifact: &A::Artifact,
    entry_point: &str,
    backend: Backend,
    compress: bool,
    inputs: &Vec<BenchmarkInput>,
) -> (results: Vec<InputResult>)
    ensures
        results@.len() == inputs@.len(),
        forall|i: int|
            0 <= i < inputs@.len() ==> (#[trigger] results@[i])@.input == inputs@[i]@,
        forall|i: int|
            0 <= i < inputs@.len() ==> attainable(
                RunView::<A>::start(inputs@[i]@, entry_point@, backend, compress),
                (#[trigger] results@[i])@.outcome,
            ),
        forall|i: int|
            0 <= i < inputs@.len() ==> ((#[trigger] results@[i]).outcome matches Ok(record)
                ==> record@.parameter == inputs@[i]@),
{
    let mut results: Vec<InputResult> = Vec::new();
    let mut i: usize = 0;
    while i < inputs.len()
        invariant
            i <= inputs@.len(),
            results@.len() == i,
            forall|j: int| 0 <= j < i ==> (#[trigger] results@[j])@.input == inputs@[j]@,
            forall|j: int|
                0 <= j < i ==> attainable(
                    RunView::<A>::start(inputs@[j]@, entry_point@, backend, compress),
                    (#[trigger] results@[j])@.outcome,
                ),
            forall|j: int|
                0 <= j < i ==> ((#[trigger] results@[j]).outcome matches Ok(record)
                    ==> record@.parameter == inputs@[j]@),
        decreases inputs@.len() - i,
    {
        let outcome = run_once(
            adapter,
            clock,
            params,
            artifact,
            entry_point,
            backend,
            compress,
            inputs[i].clone(),
        );
        results.push(InputResult { input: inputs[i].clone(), outcome });
        i += 1;
    }
    results
}

/// Runs a whole session: builds the guest, sets the backend up, runs every
/// input, and writes the report of the inputs that went through to the path
/// that `prefix` and the configuration give, under a parameter column named
/// `column`. Hands back the session as it ended.
///
/// Whatever the backend and the sink answer, the session handed back is over
/// and is one that a session of this configuration comes to under some
/// sequence of answers.
pub fn run_session<A: BackendAdapter, K: Clock, S: Sink>(
    config: BenchConfig,
    adapter: &mut A,
    clock: &mut K,
    sink: &mut S,
    prefix: &str,
    column: &str,
) -> (session: Orchestrator<A>)
    ensures
        session@.wf(),
        session@.plan == config@,
        session@.outcome() is Some,
        reachable(SessionView::<A>::start(config@), session@),
{
    let ghost start = SessionView::<A>::start(config@);
    let ghost mut events: Seq<Event<A>> = Seq::empty();
    let mut session = Orchestrator::<A>::new(config);
    loop
        invariant_except_break
            session@ == start.replay(events),
            session@.wf(),
            session@.plan == start.plan,
        ensures
            session@ == start.replay(events),
            session@.wf(),
            session@.plan == start.plan,
            session@.stage == SessionStage::Finished,
        decreases work_left(session@),
    {
        let event = match session.pending() {
            Action::Compile => {
                let (report, artifact) = adapter.compile(session.config().guest.as_str());
                Event::Compiled(report, artifact)
            },
            Action::Convert => match session.artifact() {
                Some(compiled) => {
                    let (report, artifact) = adapter.convert(
                        session.config().guest.as_str(),
                        compiled,
                    );
                    Event::Converted(report, artifact)
                },
                None => unreached(),
            },
            Action::Setup => match session.artifact() {
                Some(artifact) => Event::SetUp(
                    adapter.setup(session.config().step_sizes(), artifact),
                ),
                None => unreached(),
            },
            Action::Run(_) => match (session.artifact(), session.params(), session.current()) {
                (Some(artifact), Some(params), Some(run)) => Event::Stage(
                    answer(adapter, clock, artifact, params, run),
                ),
                _ => unreached(),
            },
            Action::Write => {
                let path = session.sink_path(prefix);
                let report = session.report(column);
                Event::Written(sink.write(path.as_str(), report.as_str()))
            },
            Action::Done => {
                break ;
            },
        };
        proof {
            assert(events.push(event).drop_last() =~= events);
            lemma_session_comes_to_an_end(session@, event);
            lemma_session_step(session@, event);
            events = events.push(event);
        }
        session = session.step(event);
    }
    session
}

} // verus!
