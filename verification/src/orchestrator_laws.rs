//! What holds of every session, whatever the toolchain, the backend and the
//! sink answer.

use vstd::prelude::*;
use crate::backend::BackendTypes;
use crate::config::Plan;
use crate::error::{Failure, SessionFailure};
use crate::guest::BuildStep;
use crate::metrics::InputOutcome;
use crate::orchestrator::{Action, Event, SessionStage, SessionView};
use crate::pipeline::StageEvent;
use crate::pipeline_laws::{
    failure_text,
    lemma_failure_ends_run,
    lemma_step_moves_forward,
    stage_of,
    steps_left,
};

verus! {

/// Whether `earlier` is what `later` begins with.
pub open spec fn extends(later: Seq<InputOutcome>, earlier: Seq<InputOutcome>) -> bool {
    earlier.len() <= later.len() && later.take(earlier.len() as int) == earlier
}

/// A step keeps a well-formed session well formed, never changes its
/// configuration and never moves it back. The parameters, once the setup has
/// made them, stay as they are to the end of the session, and so does the
/// artifact once the build is over. Results are only ever added, one at a time
/// and at the end: what was recorded stays recorded, in its place. An event
/// that does not answer the pending action changes nothing.
pub proof fn lemma_session_step<B: BackendTypes>(session: SessionView<B>, event: Event<B>)
    requires
        session.wf(),
    ensures
        session.step(event).wf(),
        session.step(event).plan == session.plan,
        session.step(event).stage.rank() >= session.stage.rank(),
        session.expects(event) ==> session.step(event).stage.rank() > session.stage.rank()
            || session.stage == SessionStage::Running,
        session.params is Some ==> session.step(event).params == session.params,
        session.stage.rank() > SessionStage::Converting.rank() ==> session.step(event).artifact
            == session.artifact,
        extends(session.step(event).results, session.results),
        session.step(event).results.len() <= session.results.len() + 1,
        !session.expects(event) ==> session.step(event) == session,
{
    let next = session.step(event);
    if session.stage == SessionStage::Running {
        if let Event::Stage(inner) = event {
            let run = session.current.unwrap();
            lemma_step_moves_forward(run, inner);
        }
    }
    assert(next.results.take(session.results.len() as int) =~= session.results);
}

/// Whatever events come in, a well-formed session stays well formed, keeps
/// its configuration, keeps its parameters once it has them, and keeps every
/// result that it has recorded.
pub proof fn lemma_session_replay<B: BackendTypes>(
    session: SessionView<B>,
    events: Seq<Event<B>>,
)
    requires
        session.wf(),
    ensures
        session.replay(events).wf(),
        session.replay(events).plan == session.plan,
        session.replay(events).stage.rank() >= session.stage.rank(),
        session.params is Some ==> session.replay(events).params == session.params,
        session.stage.rank() > SessionStage::Converting.rank() ==> session.replay(events).artifact
            == session.artifact,
        extends(session.replay(events).results, session.results),
    decreases events.len(),
{
    if events.len() > 0 {
        let before = session.replay(events.drop_last());
        lemma_session_replay(session, events.drop_last());
        lemma_session_step(before, events.last());
        let after = before.step(events.last());
        assert(after.results.take(session.results.len() as int) =~= before.results.take(
            session.results.len() as int,
        )) by {
            assert(after.results.take(before.results.len() as int) == before.results);
        }
    } else {
        assert(session.results.take(session.results.len() as int) =~= session.results);
    }
}

/// Results come in the order of the inputs, whatever the runs took and
/// however they ended: at every point of every session the results stand for
/// the first inputs, one result for each, in their order. A session that
/// finished without a failure has a result for every input; one that a failed
/// build ended has none.
pub proof fn lemma_results_follow_inputs<B: BackendTypes>(plan: Plan, events: Seq<Event<B>>)
    ensures
        ({
            let session = SessionView::<B>::start(plan).replay(events);
            &&& session.results.len() <= plan.inputs.len()
            &&& forall|i: int|
                0 <= i < session.results.len() ==> (#[trigger] session.results[i]).input
                    == plan.inputs[i]
            &&& session.outcome() == Some(Ok::<(), SessionFailure>(())) ==> session.results.len()
                == plan.inputs.len()
            &&& session.failure matches Some(SessionFailure::Build(_)) ==> session.results.len()
                == 0
        }),
{
    lemma_session_replay(SessionView::<B>::start(plan), events);
}

/// A failed run does not end the session. When a stage of the current run
/// fails, that stage's failure is recorded against the run's input, after
/// the results of the inputs before it; the session itself has not failed;
/// and it turns to the next input, which it runs afresh, or to the report if
/// that was the last input.
pub proof fn lemma_failed_input_does_not_abort<B: BackendTypes>(
    session: SessionView<B>,
    event: StageEvent<B>,
)
    requires
        session.wf(),
        session.stage == SessionStage::Running,
        session.current.unwrap().expects(event),
        failure_text(event) is Some,
    ensures
        ({
            let k = session.results.len() as int;
            let next = session.step(Event::Stage(event));
            &&& next.results == session.results.push(
                InputOutcome {
                    input: session.plan.inputs[k],
                    outcome: Err(
                        Failure {
                            stage: stage_of(session.current.unwrap().phase).unwrap(),
                            message: failure_text(event).unwrap(),
                        },
                    ),
                },
            )
            &&& next.failure is None
            &&& if k + 1 < session.plan.inputs.len() {
                next.stage == SessionStage::Running && next.current == Some(next.fresh_run(k + 1))
            } else {
                next.stage == SessionStage::Reporting && next.pending() == Action::Write
            }
        }),
{
    lemma_failure_ends_run(session.current.unwrap(), event);
}

/// Every run begins fresh: whenever a step makes the session turn to an
/// input, the run that it begins is made of that input and the session's
/// configuration alone, and holds nothing of the runs before it.
pub proof fn lemma_runs_begin_fresh<B: BackendTypes>(session: SessionView<B>, event: Event<B>)
    requires
        session.wf(),
        session.step(event).stage == SessionStage::Running,
        session.stage != SessionStage::Running || session.step(event).results.len()
            > session.results.len(),
    ensures
        session.step(event).current == Some(
            session.step(event).fresh_run(session.step(event).results.len() as int),
        ),
{
    if session.stage == SessionStage::Running {
        if let Event::Stage(inner) = event {
            lemma_step_moves_forward(session.current.unwrap(), inner);
        }
    }
}

/// A build step that does not pass ends the session at once with a build
/// failure that carries the verdict's text: no input has been attempted, and
/// none will be.
pub proof fn lemma_failed_build_ends_session<B: BackendTypes>(
    session: SessionView<B>,
    event: Event<B>,
    later: Seq<Event<B>>,
)
    requires
        session.wf(),
        session.expects(event),
        match event {
            Event::Compiled(report, artifact) => BuildStep::Compile.verdict(
                report@,
                artifact is Some,
            ) is Err,
            Event::Converted(report, artifact) => BuildStep::Convert.verdict(
                report@,
                artifact is Some,
            ) is Err,
            _ => false,
        },
    ensures
        session.step(event).outcome() matches Some(Err(SessionFailure::Build(text))) && match event {
            Event::Compiled(report, artifact) => BuildStep::Compile.verdict(
                report@,
                artifact is Some,
            ) == Err::<(), Seq<char>>(text),
            Event::Converted(report, artifact) => BuildStep::Convert.verdict(
                report@,
                artifact is Some,
            ) == Err::<(), Seq<char>>(text),
            _ => false,
        },
        session.step(event).results.len() == 0,
        session.step(event).pending() == Action::Done,
        session.step(event).replay(later) == session.step(event),
{
    lemma_finished_is_final(session.step(event), later);
}

/// A refused write ends the session with a report failure that carries the
/// sink's diagnostic, so that measurements are never lost in silence; the
/// results stay as they were.
pub proof fn lemma_refused_write_ends_session<B: BackendTypes>(
    session: SessionView<B>,
    diagnostic: String,
)
    requires
        session.wf(),
        session.stage == SessionStage::Reporting,
    ensures
        session.step(Event::Written(Err(diagnostic))).outcome() == Some(
            Err::<(), SessionFailure>(SessionFailure::Report(diagnostic@)),
        ),
        session.step(Event::Written(Err(diagnostic))).results == session.results,
{
}

/// A bound on how many more answers a session can take in before it is over.
/// It counts one answer for the write, eight for every input that is yet to
/// be begun, one more than the current run has left, and one for each of the
/// setup and the two build steps that may still be ahead.
pub open spec fn work_left<B: BackendTypes>(session: SessionView<B>) -> nat {
    let inputs_left = (session.plan.inputs.len() - session.results.len()) as nat;
    match session.stage {
        SessionStage::Compiling => 4 + 8 * inputs_left,
        SessionStage::Converting => 3 + 8 * inputs_left,
        SessionStage::SettingUp => 2 + 8 * inputs_left,
        SessionStage::Running => match session.current {
            Some(run) => 1 + 8 * (inputs_left - 1) as nat + 1 + steps_left(run),
            None => 0,
        },
        SessionStage::Reporting => 1,
        SessionStage::Finished => 0,
    }
}

/// A session that is answered comes to an end: every event that answers the
/// pending action brings the session closer to being over, and a session is
/// over exactly when no answer is left to take in. A session of `n` inputs
/// takes in no more than `4 + 8 * n` answers.
pub proof fn lemma_session_comes_to_an_end<B: BackendTypes>(
    session: SessionView<B>,
    event: Event<B>,
)
    requires
        session.wf(),
        session.expects(event),
    ensures
        work_left(session.step(event)) < work_left(session),
        work_left(session) <= 4 + 8 * session.plan.inputs.len(),
        work_left(session.step(event)) == 0 <==> session.step(event).outcome() is Some,
        work_left(SessionView::<B>::start(session.plan)) == 4 + 8 * session.plan.inputs.len(),
{
    if session.stage == SessionStage::Running {
        if let Event::Stage(inner) = event {
            lemma_step_moves_forward(session.current.unwrap(), inner);
        }
    }
}

/// A session that is over stays as it is, whatever events come in.
pub proof fn lemma_finished_is_final<B: BackendTypes>(
    session: SessionView<B>,
    events: Seq<Event<B>>,
)
    requires
        session.stage == SessionStage::Finished,
    ensures
        session.replay(events) == session,
    decreases events.len(),
{
    if events.len() > 0 {
        lemma_finished_is_final(session, events.drop_last());
    }
}

/// The session never asks for an action of a run that is over, and asks for
/// compression only if its runs compress: never on a backend that cannot
/// compress, and never when compression was not asked for.
pub proof fn lemma_session_asks_what_runs_need<B: BackendTypes>(plan: Plan, events: Seq<Event<B>>)
    ensures
        ({
            let session = SessionView::<B>::start(plan).replay(events);
            &&& session.pending() != Action::Run(crate::pipeline::StageAction::Finish)
            &&& session.pending() == Action::Run(crate::pipeline::StageAction::Compress)
                ==> plan.compress && plan.backend.spec_supports_compression()
            &&& session.pending() is Run <==> session.stage == SessionStage::Running
        }),
{
    lemma_session_replay(SessionView::<B>::start(plan), events);
}

/// On a backend that has no notion of trace length, every record of every
/// session reports the trace length `0`.
pub proof fn lemma_session_trace_length_sentinel<B: BackendTypes>(
    plan: Plan,
    events: Seq<Event<B>>,
    i: int,
)
    requires
        !plan.backend.spec_reports_trace_length(),
        0 <= i < SessionView::<B>::start(plan).replay(events).results.len(),
    ensures
        SessionView::<B>::start(plan).replay(events).results[i].outcome matches Ok(record)
            ==> record.execution_trace_length == 0,
    decreases events.len(),
{
    let start = SessionView::<B>::start(plan);
    if events.len() > 0 {
        let before = start.replay(events.drop_last());
        let after = before.step(events.last());
        lemma_session_replay(start, events.drop_last());
        lemma_session_step(before, events.last());
        if i < before.results.len() {
            lemma_session_trace_length_sentinel(plan, events.drop_last(), i);
            assert(after.results.take(before.results.len() as int)[i] == after.results[i]);
        } else {
            if let Event::Stage(inner) = events.last() {
                lemma_step_moves_forward(before.current.unwrap(), inner);
            }
        }
    }
}

} // verus!
