//! A whole benchmark session: build the guest, set up the backend, run every
//! input in order, and write the report.
//!
//! A session is a state machine, as a single run is. The inputs are run one
//! after the other, each in a run of its own that shares nothing with the
//! others but the session's configuration, artifact and parameters. A run
//! that fails is recorded against its input and the session goes on with the
//! next input; that holds of a failed verification too, which is recorded as
//! what it is and never as anything milder. Only a failed build or a failed
//! write ends the session.

use vstd::prelude::*;
use crate::backend::BackendTypes;
use crate::config::{BenchConfig, Plan};
use crate::error::{BenchError, PipelineError, SessionFailure};
use crate::guest::{BuildStep, StepReport};
use crate::input::BenchmarkInput;
use crate::metrics::{
    collect_failures,
    collect_records,
    failures_of,
    record_values,
    records_of,
    result_values,
    InputOutcome,
    InputResult,
    MetricsRecord,
};
use crate::naming::{sink_path, spec_sink_path};
use crate::pipeline::{Phase, PipelineRun, RunView, StageAction, StageEvent};
use crate::report::{csv, render};

verus! {

/// Where a session stands.
#[derive(Clone, Copy, Debug, PartialEq, Eq, Structural)]
pub enum SessionStage {
    Compiling,
    Converting,
    SettingUp,
    Running,
    Reporting,
    Finished,
}

impl SessionStage {
    /// The position of the stage in a session; no step ever lowers it.
    pub open spec fn rank(self) -> nat {
        match self {
            SessionStage::Compiling => 0,
            SessionStage::Converting => 1,
            SessionStage::SettingUp => 2,
            SessionStage::Running => 3,
            SessionStage::Reporting => 4,
            SessionStage::Finished => 5,
        }
    }
}

/// What the caller is to do next for a session.
#[derive(Clone, Copy, Debug, PartialEq, Eq, Structural)]
pub enum Action {
    /// Compile the guest.
    Compile,
    /// Convert the compiled guest to the format that the backend loads.
    Convert,
    /// Set the backend up with the session's step sizes, for the session's
    /// artifact.
    Setup,
    /// Do this for the current run.
    Run(StageAction),
    /// Write the session's report to the session's sink.
    Write,
    /// Nothing: the session is over.
    Done,
}

/// What came of the action that a session asked for.
pub enum Event<B: BackendTypes> {
    /// The compilation ended as reported, and left this artifact if any.
    Compiled(StepReport, Option<B::Artifact>),
    /// The conversion ended as reported, and left this artifact if any.
    Converted(StepReport, Option<B::Artifact>),
    /// The backend was set up, which made these parameters.
    SetUp(B::Params),
    Stage(StageEvent<B>),
    /// The report was written, or the sink refused it with this diagnostic.
    Written(Result<(), String>),
}

/// The mathematical value of an [`Orchestrator`].
pub struct SessionView<B: BackendTypes> {
    pub plan: Plan,
    pub stage: SessionStage,
    /// The guest as built.
    pub artifact: Option<B::Artifact>,
    /// The parameters that the setup made.
    pub params: Option<B::Params>,
    /// What came of the inputs run so far, in the order of the inputs.
    pub results: Seq<InputOutcome>,
    /// The run of the input that is being worked on.
    pub current: Option<RunView<B>>,
    pub failure: Option<SessionFailure>,
}

impl<B: BackendTypes> SessionView<B> {
    /// A session that has not begun.
    pub open spec fn start(plan: Plan) -> Self {
        SessionView {
            plan,
            stage: SessionStage::Compiling,
            artifact: None,
            params: None,
            results: Seq::empty(),
            current: None,
            failure: None,
        }
    }

    /// The fresh run of the input at position `k`. It is made of the input
    /// and the session's configuration alone.
    pub open spec fn fresh_run(self, k: int) -> RunView<B> {
        RunView::start(self.plan.inputs[k], self.plan.guest, self.plan.backend, self.plan.compress)
    }

    /// A session is well formed when its results stand for the first inputs
    /// in their order, when it works on a run exactly while it is running,
    /// that run being the next input's and under way, when no input is
    /// attempted before the guest is built and the backend set up, and when
    /// it is finished either with every input accounted for or by a failed
    /// build with none.
    pub open spec fn wf(self) -> bool {
        &&& self.stage.rank() > SessionStage::Compiling.rank() && !(self.failure matches Some(
            SessionFailure::Build(_),
        )) ==> self.artifact is Some
        &&& self.stage.rank() > SessionStage::SettingUp.rank() && !(self.failure matches Some(
            SessionFailure::Build(_),
        )) <==> self.params is Some
        &&& self.results.len() <= self.plan.inputs.len()
        &&& forall|i: int|
            0 <= i < self.results.len() ==> (#[trigger] self.results[i]).input
                == self.plan.inputs[i]
        &&& self.stage == SessionStage::Running <==> self.current is Some
        &&& self.current matches Some(run) ==> {
            &&& run.wf()
            &&& run.phase != Phase::Done
            &&& self.results.len() < self.plan.inputs.len()
            &&& run.input == self.plan.inputs[self.results.len() as int]
            &&& run.entry_point == self.plan.guest
            &&& run.compress == self.plan.compresses()
            &&& run.counts_trace == self.plan.backend.spec_reports_trace_length()
        }
        &&& self.stage == SessionStage::Compiling || self.stage == SessionStage::Converting
            || self.stage == SessionStage::SettingUp ==> self.results.len() == 0
        &&& self.stage == SessionStage::Converting ==> self.plan.backend.spec_converts_guest()
        &&& self.stage == SessionStage::Reporting ==> self.results.len() == self.plan.inputs.len()
        &&& self.failure is Some ==> self.stage == SessionStage::Finished
        &&& self.stage == SessionStage::Finished ==> if self.failure matches Some(
            SessionFailure::Build(_),
        ) {
            self.results.len() == 0
        } else {
            self.results.len() == self.plan.inputs.len()
        }
    }

    /// The session ended by `failure`.
    pub open spec fn failed(self, failure: SessionFailure) -> Self {
        SessionView { stage: SessionStage::Finished, current: None, failure: Some(failure), ..self }
    }

    /// The session turned to the next input: it runs it afresh if there is
    /// one, and goes on to the report if there is none.
    pub open spec fn turned_to_next(self) -> Self {
        if self.results.len() < self.plan.inputs.len() {
            SessionView {
                stage: SessionStage::Running,
                current: Some(self.fresh_run(self.results.len() as int)),
                ..self
            }
        } else {
            SessionView { stage: SessionStage::Reporting, current: None, ..self }
        }
    }

    /// Whether `event` answers the action that the session is waiting on.
    pub open spec fn expects(self, event: Event<B>) -> bool {
        match (self.stage, event) {
            (SessionStage::Compiling, Event::Compiled(_, _)) => true,
            (SessionStage::Converting, Event::Converted(_, _)) => true,
            (SessionStage::SettingUp, Event::SetUp(_)) => true,
            (SessionStage::Running, Event::Stage(event)) => self.current matches Some(run)
                && run.expects(event),
            (SessionStage::Reporting, Event::Written(_)) => true,
            _ => false,
        }
    }

    /// The session after `event`. An event that does not answer the pending
    /// action changes nothing. A build step that does not pass ends the
    /// session; one that passes hands over the artifact, the conversion's
    /// taking the place of the compilation's. The setup hands over the
    /// parameters, which stay as they are from then on. While the session
    /// runs, the event goes to the current run;
    /// when that run is over, however it ended, its outcome is added to the
    /// results and the session turns to the next input. A refused write ends
    /// the session with a failure, an accepted one without.
    pub open spec fn step(self, event: Event<B>) -> Self {
        match (self.stage, event) {
            (SessionStage::Compiling, Event::Compiled(report, artifact)) => match BuildStep::Compile.verdict(
                report@,
                artifact is Some,
            ) {
                Ok(_) => SessionView {
                    stage: if self.plan.backend.spec_converts_guest() {
                        SessionStage::Converting
                    } else {
                        SessionStage::SettingUp
                    },
                    artifact,
                    ..self
                },
                Err(text) => self.failed(SessionFailure::Build(text)),
            },
            (SessionStage::Converting, Event::Converted(report, artifact)) => match BuildStep::Convert.verdict(
                report@,
                artifact is Some,
            ) {
                Ok(_) => SessionView { stage: SessionStage::SettingUp, artifact, ..self },
                Err(text) => self.failed(SessionFailure::Build(text)),
            },
            (SessionStage::SettingUp, Event::SetUp(params)) => SessionView {
                params: Some(params),
                ..self
            }.turned_to_next(),
            (SessionStage::Running, Event::Stage(event)) => match self.current {
                Some(run) => match run.step(event).outcome() {
                    Some(outcome) => SessionView {
                        results: self.results.push(InputOutcome { input: run.input, outcome }),
                        current: None,
                        ..self
                    }.turned_to_next(),
                    None => SessionView { current: Some(run.step(event)), ..self },
                },
                None => self,
            },
            (SessionStage::Reporting, Event::Written(Ok(_))) => SessionView {
                stage: SessionStage::Finished,
                ..self
            },
            (SessionStage::Reporting, Event::Written(Err(text))) => self.failed(
                SessionFailure::Report(text@),
            ),
            _ => self,
        }
    }

    /// The session after each of `events` in turn.
    pub open spec fn replay(self, events: Seq<Event<B>>) -> Self
        decreases events.len(),
    {
        if events.len() == 0 {
            self
        } else {
            self.replay(events.drop_last()).step(events.last())
        }
    }

    /// What the caller is to do next.
    pub open spec fn pending(self) -> Action {
        match self.stage {
            SessionStage::Compiling => Action::Compile,
            SessionStage::Converting => Action::Convert,
            SessionStage::SettingUp => Action::Setup,
            SessionStage::Running => match self.current {
                Some(run) => Action::Run(run.pending()),
                None => Action::Done,
            },
            SessionStage::Reporting => Action::Write,
            SessionStage::Finished => Action::Done,
        }
    }

    /// How the session ended: nothing while it is under way, and then either
    /// the failure that ended it or success.
    pub open spec fn outcome(self) -> Option<Result<(), SessionFailure>> {
        if self.stage != SessionStage::Finished {
            None
        } else {
            match self.failure {
                Some(failure) => Some(Err(failure)),
                None => Some(Ok(())),
            }
        }
    }

    /// The text of the session's report under a parameter column named
    /// `column`: the header row, and a row for each input that went through.
    pub open spec fn report(self, column: Seq<char>) -> Seq<char> {
        csv(column, records_of(self.results))
    }

    /// The path of the session's report behind `prefix`. It says that proofs
    /// were compressed only if the session's runs compress.
    pub open spec fn sink_path(self, prefix: Seq<char>) -> Seq<char> {
        spec_sink_path(prefix, self.plan.guest, self.plan.backend, self.plan.compresses())
    }
}

/// A benchmark session.
pub struct Orchestrator<B: BackendTypes> {
    config: BenchConfig,
    stage: SessionStage,
    artifact: Option<B::Artifact>,
    params: Option<B::Params>,
    results: Vec<InputResult>,
    current: Option<PipelineRun<B>>,
    failure: Option<BenchError>,
}

impl<B: BackendTypes> View for Orchestrator<B> {
    type V = SessionView<B>;

    closed spec fn view(&self) -> SessionView<B> {
        SessionView {
            plan: self.config@,
            stage: self.stage,
            artifact: self.artifact,
            params: self.params,
            results: result_values(self.results@),
            current: match self.current {
                Some(run) => Some(run@),
                None => None,
            },
            failure: match self.failure {
                Some(error) => Some(error@),
                None => None,
            },
        }
    }
}

impl<B: BackendTypes> Orchestrator<B> {
    #[verifier::type_invariant]
    spec fn well_formed(self) -> bool {
        self@.wf()
    }

    /// A session for `config` that has not begun.
    pub fn new(config: BenchConfig) -> (session: Self)
        ensures
            session@ == SessionView::<B>::start(config@),
            session@.wf(),
    {
        let session = Orchestrator {
            config,
            stage: SessionStage::Compiling,
            artifact: None,
            params: None,
            results: Vec::new(),
            current: None,
            failure: None,
        };
        assert(session@.results =~= Seq::empty());
        session
    }

    /// What the caller is to do next.
    pub fn pending(&self) -> (action: Action)
        ensures
            action == self@.pending(),
            self@.wf(),
    {
        proof {
            use_type_invariant(self);
        }
        match self.stage {
            SessionStage::Compiling => Action::Compile,
            SessionStage::Converting => Action::Convert,
            SessionStage::SettingUp => Action::Setup,
            SessionStage::Running => match &self.current {
                Some(run) => Action::Run(run.pending()),
                None => Action::Done,
            },
            SessionStage::Reporting => Action::Write,
            SessionStage::Finished => Action::Done,
        }
    }

    /// The session's configuration.
    pub fn config(&self) -> (config: &BenchConfig)
        ensures
            config@ == self@.plan,
    {
        &self.config
    }

    /// The guest as built: what the setup and every load are to be given. It
    /// is there from the build on.
    pub fn artifact(&self) -> (artifact: Option<&B::Artifact>)
        ensures
            artifact == match self@.artifact {
                Some(held) => Some(&held),
                None => None,
            },
            self@.stage == SessionStage::Converting || self@.stage == SessionStage::SettingUp
                || self@.stage == SessionStage::Running ==> artifact is Some,
    {
        proof {
            use_type_invariant(self);
        }
        self.artifact.as_ref()
    }

    /// The parameters that the setup made: what every proof, compression and
    /// verification of the session is to be done under. They are there from
    /// the setup on.
    pub fn params(&self) -> (params: Option<&B::Params>)
        ensures
            params == match self@.params {
                Some(held) => Some(&held),
                None => None,
            },
            self@.stage == SessionStage::Running ==> params is Some,
    {
        proof {
            use_type_invariant(self);
        }
        self.params.as_ref()
    }

    /// The run of the input that is being worked on. It is there exactly
    /// while the session asks for an action of a run.
    pub fn current(&self) -> (current: Option<&PipelineRun<B>>)
        ensures
            match current {
                Some(run) => self@.current == Some(run@),
                None => self@.current is None,
            },
            current is Some <==> self@.stage == SessionStage::Running,
    {
        proof {
            use_type_invariant(self);
        }
        self.current.as_ref()
    }

    /// What came of the inputs run so far, in the order of the inputs.
    pub fn results(&self) -> (results: &Vec<InputResult>)
        ensures
            result_values(results@) == self@.results,
    {
        &self.results
    }

    /// Gives up the session for what came of its inputs.
    pub fn into_results(self) -> (results: Vec<InputResult>)
        ensures
            result_values(results@) == self@.results,
    {
        self.results
    }

    /// The records of the inputs that went through so far, in the order of
    /// the inputs.
    pub fn records(&self) -> (records: Vec<MetricsRecord>)
        ensures
            record_values(records@) == records_of(self@.results),
    {
        collect_records(&self.results)
    }

    /// The inputs that failed so far, each with its failure, in the order of
    /// the inputs.
    pub fn failures(&self) -> (failures: Vec<(BenchmarkInput, PipelineError)>)
        ensures
            failures@.map_values(|f: (BenchmarkInput, PipelineError)| (f.0@, f.1@)) == failures_of(
                self@.results,
            ),
    {
        collect_failures(&self.results)
    }

    /// The text of the session's report under a parameter column named
    /// `column`.
    pub fn report(&self, column: &str) -> (text: String)
        ensures
            text@ == self@.report(column@),
    {
        let records = collect_records(&self.results);
        render(column, &records)
    }

    /// The path of the session's report behind `prefix`.
    pub fn sink_path(&self, prefix: &str) -> (path: String)
        ensures
            path@ == self@.sink_path(prefix@),
    {
        sink_path(prefix, self.config.guest.as_str(), self.config.backend, self.config.compresses())
    }

    /// How the session ended, or `None` while it is under way.
    pub fn outcome(&self) -> (outcome: Option<Result<(), BenchError>>)
        ensures
            match outcome {
                Some(Ok(_)) => self@.outcome() == Some(Ok::<(), SessionFailure>(())),
                Some(Err(error)) => self@.outcome() == Some(Err::<(), SessionFailure>(error@)),
                None => self@.outcome() is None,
            },
    {
        match self.stage {
            SessionStage::Finished => match &self.failure {
                Some(error) => Some(Err(error.clone())),
                None => Some(Ok(())),
            },
            _ => None,
        }
    }

    /// The session ended by `failure`.
    fn fail(self, failure: BenchError) -> (session: Self)
        requires
            failure is Build ==> self@.stage == SessionStage::Compiling || self@.stage
                == SessionStage::Converting,
            failure is Report ==> self@.stage == SessionStage::Reporting,
        ensures
            session@ == self@.failed(failure@),
    {
        proof {
            use_type_invariant(&self);
        }
        Orchestrator {
            config: self.config,
            stage: SessionStage::Finished,
            artifact: self.artifact,
            params: self.params,
            results: self.results,
            current: None,
            failure: Some(failure),
        }
    }

    /// The session turned to the next input.
    fn turn_to_next(
        config: BenchConfig,
        artifact: Option<B::Artifact>,
        params: B::Params,
        results: Vec<InputResult>,
    ) -> (session: Self)
        requires
            artifact is Some,
            result_values(results@).len() <= config@.inputs.len(),
            forall|i: int|
                0 <= i < results@.len() ==> (#[trigger] result_values(results@)[i]).input
                    == config@.inputs[i],
        ensures
            session@ == (SessionView::<B> {
                plan: config@,
                stage: SessionStage::SettingUp,
                artifact,
                params: Some(params),
                results: result_values(results@),
                current: None,
                failure: None,
            }).turned_to_next(),
    {
        let k = results.len();
        if k < config.benchmark_args.len() {
            let input = config.benchmark_args[k].clone();
            let run = PipelineRun::new(input, config.guest.as_str(), config.backend, config.compress);
            Orchestrator {
                config,
                stage: SessionStage::Running,
                artifact,
                params: Some(params),
                results,
                current: Some(run),
                failure: None,
            }
        } else {
            Orchestrator {
                config,
                stage: SessionStage::Reporting,
                artifact,
                params: Some(params),
                results,
                current: None,
                failure: None,
            }
        }
    }

    /// Takes in what came of the pending action and moves the session on.
    pub fn step(self, event: Event<B>) -> (session: Self)
        ensures
            session@ == self@.step(event),
            session@.wf(),
    {
        proof {
            use_type_invariant(&self);
        }
        match (self.stage, event) {
            (SessionStage::Compiling, Event::Compiled(report, artifact)) => {
                match BuildStep::Compile.judge(&report, artifact.is_some()) {
                    Ok(_) => {
                        let stage = if self.config.backend.converts_guest() {
                            SessionStage::Converting
                        } else {
                            SessionStage::SettingUp
                        };
                        Orchestrator { stage, artifact, ..self }
                    },
                    Err(text) => self.fail(BenchError::Build(text)),
                }
            },
            (SessionStage::Converting, Event::Converted(report, artifact)) => {
                match BuildStep::Convert.judge(&report, artifact.is_some()) {
                    Ok(_) => Orchestrator { stage: SessionStage::SettingUp, artifact, ..self },
                    Err(text) => self.fail(BenchError::Build(text)),
                }
            },
            (SessionStage::SettingUp, Event::SetUp(params)) => {
                Self::turn_to_next(self.config, self.artifact, params, self.results)
            },
            (SessionStage::Running, Event::Stage(event)) => {
                let Orchestrator { config, stage, artifact, params, results, current, failure } =
                    self;
                match (current, params) {
                    (Some(run), Some(params)) => {
                        let ghost before = run@;
                        let run = run.step(event);
                        match run.outcome() {
                            Some(outcome) => {
                                let mut results = results;
                                let ghost earlier = result_values(results@);
                                let input = run.input().clone();
                                results.push(InputResult { input, outcome });
                                proof {
                                    crate::pipeline_laws::lemma_step_moves_forward(before, event);
                                    assert(result_values(results@) =~= earlier.push(
                                        InputOutcome {
                                            input: before.input,
                                            outcome: before.step(event).outcome().unwrap(),
                                        },
                                    ));
                                }
                                Self::turn_to_next(config, artifact, params, results)
                            },
                            None => {
                                proof {
                                    crate::pipeline_laws::lemma_step_moves_forward(before, event);
                                }
                                Orchestrator {
                                    config,
                                    stage,
                                    artifact,
                                    params: Some(params),
                                    results,
                                    current: Some(run),
                                    failure,
                                }
                            },
                        }
                    },
                    (current, params) => Orchestrator {
                        config,
                        stage,
                        artifact,
                        params,
                        results,
                        current,
                        failure,
                    },
                }
            },
            (SessionStage::Reporting, Event::Written(Ok(_))) => Orchestrator {
                stage: SessionStage::Finished,
                ..self
            },
            (SessionStage::Reporting, Event::Written(Err(text))) => self.fail(
                BenchError::Report(text),
            ),
            _ => self,
        }
    }
}

} // verus!
