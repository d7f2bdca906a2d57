use zkbench::backend::{Backend, BackendTypes};
use zkbench::config::{BenchConfig, StepSizes};
use zkbench::error::{BenchError, Stage};
use zkbench::guest::StepReport;
use zkbench::input::BenchmarkInput;
use zkbench::orchestrator::{Action, Event, Orchestrator};
use zkbench::pipeline::{Proven, StageAction, StageEvent};

struct Fake;

impl BackendTypes for Fake {
    type Artifact = String;
    type Params = u64;
    type Context = String;
    type Proof = Vec<u8>;
    type Instance = u64;
}

type Session = Orchestrator<Fake>;
type SessionEvent = Event<Fake>;

fn passed() -> StepReport {
    StepReport { launched: true, succeeded: true, diagnostics: String::new() }
}

fn compiled() -> SessionEvent {
    Event::Compiled(passed(), Some(String::from("fib.wasm")))
}

fn converted() -> SessionEvent {
    Event::Converted(passed(), Some(String::from("fib.wat")))
}

fn config(guest: &str, backend: Backend, inputs: Vec<BenchmarkInput>, compress: bool) -> BenchConfig {
    BenchConfig {
        guest: String::from(guest),
        backend,
        benchmark_args: inputs,
        execution_step_size: 10,
        memory_step_size: None,
        compress,
    }
}

fn numbers(values: &[u32]) -> Vec<BenchmarkInput> {
    values.iter().map(|n| BenchmarkInput::Number(*n)).collect()
}

fn texts(values: &[&str]) -> Vec<BenchmarkInput> {
    values.iter().map(|s| BenchmarkInput::Text(String::from(*s))).collect()
}

// Answers every action with success. The proof of an input is the input's
// text; compression halves it; the trace length is ten times the text's
// length; the time is taken from `durations` in turn.
fn drive(mut session: Session, durations: &[u128], failing: Option<(&str, Stage)>) -> (Session, Vec<Action>) {
    let mut asked = Vec::new();
    let mut timer = 0usize;
    loop {
        let action = session.pending();
        asked.push(action);
        let event: SessionEvent = match action {
            Action::Compile => {
                assert!(session.artifact().is_none());
                compiled()
            }
            Action::Convert => {
                assert_eq!(session.artifact(), Some(&String::from("fib.wasm")));
                converted()
            }
            Action::Setup => {
                assert!(session.artifact().is_some());
                assert!(session.params().is_none());
                Event::SetUp(session.config().execution_step_size as u64)
            }
            Action::Run(stage) => {
                let run = session.current().unwrap();
                assert_eq!(session.params(), Some(&(session.config().execution_step_size as u64)));
                let input = run.input().render();
                let fails = |at: Stage| match failing {
                    Some((which, stage)) => which == input && stage == at,
                    None => false,
                };
                Event::Stage(match stage {
                    StageAction::Load => {
                        assert_eq!(run.arguments().len(), 1);
                        assert_eq!(run.arguments()[0].render(), input);
                        if fails(Stage::Load) {
                            StageEvent::Loaded(Err(format!("cannot load {}", input)))
                        } else {
                            StageEvent::Loaded(Ok(format!("{}({})", run.entry_point(), input)))
                        }
                    }
                    StageAction::StartTimer => StageEvent::TimerStarted,
                    StageAction::Prove => {
                        let context = run.context().unwrap();
                        assert_eq!(context, &format!("{}({})", run.entry_point(), input));
                        if fails(Stage::Prove) {
                            StageEvent::Proved(Err(format!("cannot prove {}", input)))
                        } else {
                            StageEvent::Proved(Ok(Proven {
                                proof: context.clone().into_bytes(),
                                instance: input.len() as u64,
                                trace_length: 10 * input.len(),
                            }))
                        }
                    }
                    StageAction::Compress => {
                        let proof = run.current_proof().unwrap();
                        if fails(Stage::Compress) {
                            StageEvent::Compressed(Err(format!("cannot compress {}", input)))
                        } else {
                            StageEvent::Compressed(Ok(proof[..proof.len() / 2].to_vec()))
                        }
                    }
                    StageAction::Verify => {
                        assert_eq!(run.instance(), Some(&(input.len() as u64)));
                        if fails(Stage::Verify) {
                            StageEvent::Verified(Err(format!("cannot verify {}", input)))
                        } else {
                            StageEvent::Verified(Ok(()))
                        }
                    }
                    StageAction::StopTimer => {
                        let elapsed = durations[timer % durations.len()];
                        timer += 1;
                        StageEvent::TimerStopped(elapsed)
                    }
                    StageAction::Measure => StageEvent::Measured(run.current_proof().unwrap().len()),
                    StageAction::Finish => unreachable!(),
                })
            }
            Action::Write => Event::Written(Ok(())),
            Action::Done => break,
        };
        session = session.step(event);
    }
    (session, asked)
}

#[test]
fn test_fib_without_memory_accessing() {
    let cli = BenchConfig {
        guest: String::from("fib"),
        backend: Backend::FoldingWasm,
        benchmark_args: vec![BenchmarkInput::Text(String::from("16")), BenchmarkInput::Text(String::from("17"))],
        execution_step_size: 10,
        memory_step_size: None,
        compress: true,
    };
    assert_eq!(cli.step_sizes(), StepSizes { execution: 10, memory: None });
    assert!(cli.compresses());
    let (session, _) = drive(Session::new(cli), &[120, 130], None);
    assert!(matches!(session.outcome(), Some(Ok(()))));
    assert_eq!(
        session.sink_path("../../benchmark_outputs/test_"),
        format!("../../benchmark_outputs/test_{}_novanet_{}_compressing.csv", "fib", "with")
    );
    assert_eq!(zkbench::naming::parameter_column("fib"), format!("{}_arg", "fib"));
    let records = session.records();
    assert_eq!(records.len(), 2);
    assert_eq!(records[0].parameter.render(), "16");
    assert_eq!(records[1].parameter.render(), "17");
    for record in &records {
        assert!(record.proof_size_bytes > 0);
        assert!(record.execution_trace_length > 0);
    }
    assert_eq!(
        session.report("fib_arg"),
        "fib_arg,duration,proof_size_bytes,execution_trace_length\n16,120,3,20\n17,130,3,20\n"
    );
}

#[test]
fn session_asks_for_everything_in_order() {
    let session = Session::new(config("fib", Backend::FoldingWasm, texts(&["16"]), true));
    let (session, asked) = drive(session, &[1], None);
    assert_eq!(
        asked,
        vec![
            Action::Compile,
            Action::Convert,
            Action::Setup,
            Action::Run(StageAction::Load),
            Action::Run(StageAction::StartTimer),
            Action::Run(StageAction::Prove),
            Action::Run(StageAction::Compress),
            Action::Run(StageAction::Verify),
            Action::Run(StageAction::StopTimer),
            Action::Run(StageAction::Measure),
            Action::Write,
            Action::Done,
        ]
    );
    assert!(session.current().is_none());
}

#[test]
fn stark_session_neither_converts_nor_compresses() {
    let session = Session::new(config("fib", Backend::StarkZkvm, numbers(&[10]), true));
    let (session, asked) = drive(session, &[1], None);
    assert_eq!(
        asked,
        vec![
            Action::Compile,
            Action::Setup,
            Action::Run(StageAction::Load),
            Action::Run(StageAction::StartTimer),
            Action::Run(StageAction::Prove),
            Action::Run(StageAction::Verify),
            Action::Run(StageAction::StopTimer),
            Action::Run(StageAction::Measure),
            Action::Write,
            Action::Done,
        ]
    );
    assert!(!session.config().compresses());
    assert_eq!(session.sink_path("../benchmark_outputs/"), "../benchmark_outputs/fib_openvm_without_compressing.csv");
    let records = session.records();
    assert_eq!(records[0].proof_size_bytes, "fib(10)".len());
    assert_eq!(records[0].execution_trace_length, 0);
}

#[test]
fn failed_input_does_not_abort_the_batch() {
    let session = Session::new(config("fib", Backend::FoldingWasm, texts(&["A", "B", "C"]), false));
    let (session, _) = drive(session, &[7, 8, 9], Some(("B", Stage::Prove)));
    assert!(matches!(session.outcome(), Some(Ok(()))));
    let results = session.results();
    assert_eq!(results.len(), 3);
    assert_eq!(results[0].input.render(), "A");
    assert_eq!(results[1].input.render(), "B");
    assert_eq!(results[2].input.render(), "C");
    assert!(results[0].outcome.is_ok());
    assert!(results[2].outcome.is_ok());
    let error = results[1].outcome.as_ref().unwrap_err();
    assert_eq!(error.stage, Stage::Prove);
    assert_eq!(error.message, "cannot prove B");
    let records = session.records();
    assert_eq!(records.len(), 2);
    assert_eq!(records[0].parameter.render(), "A");
    assert_eq!(records[1].parameter.render(), "C");
    let failures = session.failures();
    assert_eq!(failures.len(), 1);
    assert_eq!(failures[0].0.render(), "B");
    assert_eq!(failures[0].1.describe(), "Failed in prove: cannot prove B");
    assert_eq!(
        session.report("x"),
        "x,duration,proof_size_bytes,execution_trace_length\nA,7,6,10\nC,8,6,10\n"
    );
}

#[test]
fn every_stage_failure_is_recorded_against_its_input() {
    for stage in [Stage::Load, Stage::Prove, Stage::Compress, Stage::Verify] {
        let session = Session::new(config("fib", Backend::FoldingWasm, texts(&["1", "2"]), true));
        let (session, _) = drive(session, &[1], Some(("1", stage)));
        let results = session.into_results();
        assert_eq!(results.len(), 2);
        assert_eq!(results[0].outcome.as_ref().unwrap_err().stage, stage);
        assert!(results[1].outcome.is_ok());
    }
}

#[test]
fn records_keep_the_order_of_the_inputs() {
    let session = Session::new(config("fib", Backend::StarkZkvm, numbers(&[10, 50, 90]), false));
    let (session, _) = drive(session, &[900, 5, 70], None);
    let records = session.records();
    assert_eq!(records.len(), 3);
    assert!(matches!(records[0].parameter, BenchmarkInput::Number(10)));
    assert!(matches!(records[1].parameter, BenchmarkInput::Number(50)));
    assert!(matches!(records[2].parameter, BenchmarkInput::Number(90)));
    assert_eq!(records[0].duration_ms, 900);
    assert_eq!(records[1].duration_ms, 5);
    assert_eq!(records[2].duration_ms, 70);
    assert_eq!(
        session.report("n"),
        "n,duration,proof_size_bytes,execution_trace_length\n10,900,7,0\n50,5,7,0\n90,70,7,0\n"
    );
}

#[test]
fn failed_build_ends_the_session_before_any_input() {
    let session = Session::new(config("fib", Backend::FoldingWasm, texts(&["16", "17"]), true));
    let report = StepReport {
        launched: true,
        succeeded: false,
        diagnostics: String::from("error: could not compile `fib`"),
    };
    let session = session.step(Event::Compiled(report, None));
    assert_eq!(session.pending(), Action::Done);
    assert!(session.results().is_empty());
    assert!(session.current().is_none());
    match session.outcome() {
        Some(Err(BenchError::Build(text))) => {
            assert_eq!(text, "Building the guest failed:\nerror: could not compile `fib`")
        }
        _ => panic!("the session did not end with a build failure"),
    }
    let session = session.step(Event::SetUp(10));
    let session = session.step(Event::Stage(StageEvent::Loaded(Ok(String::from("ctx")))));
    assert_eq!(session.pending(), Action::Done);
    assert!(session.results().is_empty());
    assert!(session.params().is_none());
}

#[test]
fn failed_conversion_ends_the_session() {
    let session = Session::new(config("fib", Backend::FoldingWasm, texts(&["16"]), true));
    let session = session.step(compiled());
    assert_eq!(session.pending(), Action::Convert);
    let report = StepReport { launched: false, succeeded: false, diagnostics: String::new() };
    let session = session.step(Event::Converted(report, None));
    match session.outcome() {
        Some(Err(error)) => assert_eq!(error.describe(), "build: Failed to run the guest conversion"),
        _ => panic!("the session did not end with a build failure"),
    }
}

#[test]
fn refused_write_ends_the_session_with_a_report_failure() {
    let mut session = Session::new(config("fib", Backend::StarkZkvm, numbers(&[]), false));
    session = session.step(compiled());
    session = session.step(Event::SetUp(10));
    assert_eq!(session.pending(), Action::Write);
    session = session.step(Event::Written(Err(String::from("disk full"))));
    assert_eq!(session.pending(), Action::Done);
    match session.outcome() {
        Some(Err(BenchError::Report(text))) => assert_eq!(text, "disk full"),
        _ => panic!("the session did not end with a report failure"),
    }
}

#[test]
fn session_without_inputs_writes_only_the_header() {
    let session = Session::new(config("fib", Backend::FoldingWasm, texts(&[]), false));
    let (session, asked) = drive(session, &[1], None);
    assert_eq!(
        asked,
        vec![Action::Compile, Action::Convert, Action::Setup, Action::Write, Action::Done]
    );
    assert_eq!(session.report("fib_arg"), "fib_arg,duration,proof_size_bytes,execution_trace_length\n");
    assert!(matches!(session.outcome(), Some(Ok(()))));
}

#[test]
fn session_ignores_events_that_do_not_answer() {
    let mut session = Session::new(config("fib", Backend::FoldingWasm, texts(&["16"]), false));
    session = session.step(Event::SetUp(10));
    assert_eq!(session.pending(), Action::Compile);
    assert!(session.params().is_none());
    session = session.step(Event::Written(Ok(())));
    assert_eq!(session.pending(), Action::Compile);
    session = session.step(compiled());
    session = session.step(Event::Compiled(passed(), Some(String::from("other.wasm"))));
    assert_eq!(session.pending(), Action::Convert);
    assert_eq!(session.artifact(), Some(&String::from("fib.wasm")));
    assert!(session.outcome().is_none());
}

#[test]
fn each_run_starts_afresh() {
    let mut session = Session::new(config("fib", Backend::FoldingWasm, texts(&["16", "17"]), false));
    session = session.step(compiled());
    session = session.step(converted());
    session = session.step(Event::SetUp(10));
    session = session.step(Event::Stage(StageEvent::Loaded(Ok(String::from("ctx-16")))));
    session = session.step(Event::Stage(StageEvent::TimerStarted));
    session = session.step(Event::Stage(StageEvent::Proved(Err(String::from("trap")))));
    let run = session.current().unwrap();
    assert_eq!(run.input().render(), "17");
    assert_eq!(run.pending(), StageAction::Load);
    assert!(run.context().is_none());
    assert!(run.current_proof().is_none());
    assert!(run.instance().is_none());
    assert_eq!(session.results().len(), 1);
}

#[test]
fn build_that_left_no_artifact_ends_the_session() {
    let session = Session::new(config("fib", Backend::StarkZkvm, numbers(&[10]), false));
    let session = session.step(Event::Compiled(passed(), None));
    match session.outcome() {
        Some(Err(BenchError::Build(text))) => assert_eq!(text, "The guest build left no artifact:\n"),
        _ => panic!("the session did not end with a build failure"),
    }
    assert!(session.results().is_empty());
}

#[test]
fn parameters_stay_the_same_for_the_whole_session() {
    let mut session = Session::new(config("fib", Backend::FoldingWasm, texts(&["1", "2"]), false));
    session = session.step(compiled());
    session = session.step(converted());
    assert_eq!(session.artifact(), Some(&String::from("fib.wat")));
    session = session.step(Event::SetUp(10));
    assert_eq!(session.params(), Some(&10));
    session = session.step(Event::SetUp(42));
    session = session.step(Event::Converted(passed(), Some(String::from("late.wat"))));
    assert_eq!(session.params(), Some(&10));
    let (session, _) = drive(session, &[1], None);
    assert_eq!(session.params(), Some(&10));
    assert_eq!(session.artifact(), Some(&String::from("fib.wat")));
    assert_eq!(session.results().len(), 2);
}
