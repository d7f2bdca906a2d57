//! What holds of every pipeline run, whatever the backend answers.

use vstd::prelude::*;
use crate::backend::{Backend, BackendTypes};
use crate::error::{Failure, Stage};
use crate::input::InputValue;
use crate::metrics::Measurement;
use crate::pipeline::{Phase, Proven, RunView, StageAction, StageEvent};

verus! {

/// What the prover handed back in the course of `events`, if it got that far:
/// the payload of the `Proved` event that the run took in while it was
/// proving.
pub open spec fn prover_output<B: BackendTypes>(
    start: RunView<B>,
    events: Seq<StageEvent<B>>,
) -> Option<Proven<B>>
    decreases events.len(),
{
    if events.len() == 0 {
        None
    } else {
        let before = start.replay(events.drop_last());
        match (before.phase, events.last()) {
            (Phase::Proving, StageEvent::Proved(Ok(proven))) => Some(proven),
            _ => prover_output(start, events.drop_last()),
        }
    }
}

/// The compressed proof that was handed back in the course of `events`, if
/// compression took place.
pub open spec fn compressor_output<B: BackendTypes>(
    start: RunView<B>,
    events: Seq<StageEvent<B>>,
) -> Option<B::Proof>
    decreases events.len(),
{
    if events.len() == 0 {
        None
    } else {
        let before = start.replay(events.drop_last());
        match (before.phase, events.last()) {
            (Phase::Compressing, StageEvent::Compressed(Ok(compressed))) => Some(compressed),
            _ => compressor_output(start, events.drop_last()),
        }
    }
}

/// The proof and the instance that the run held when its verification was
/// reported to have passed, if it was.
pub open spec fn verified_pair<B: BackendTypes>(
    start: RunView<B>,
    events: Seq<StageEvent<B>>,
) -> Option<(Option<B::Proof>, Option<B::Instance>)>
    decreases events.len(),
{
    if events.len() == 0 {
        None
    } else {
        let before = start.replay(events.drop_last());
        match (before.phase, events.last()) {
            (Phase::Verifying, StageEvent::Verified(Ok(_))) => Some(
                (before.proof, before.instance),
            ),
            _ => verified_pair(start, events.drop_last()),
        }
    }
}

/// The actions that the caller was asked for in the course of `events`: the
/// one pending at the start, and the one pending after each event.
pub open spec fn actions<B: BackendTypes>(
    start: RunView<B>,
    events: Seq<StageEvent<B>>,
) -> Seq<StageAction> {
    Seq::new(events.len() + 1, |k: int| start.replay(events.take(k)).pending())
}

/// The stage that a run in `phase` is waiting on, for the phases that can
/// fail.
pub open spec fn stage_of(phase: Phase) -> Option<Stage> {
    match phase {
        Phase::Loading => Some(Stage::Load),
        Phase::Proving => Some(Stage::Prove),
        Phase::Compressing => Some(Stage::Compress),
        Phase::Verifying => Some(Stage::Verify),
        _ => None,
    }
}

/// The diagnostic text of an event that reports a failed stage.
pub open spec fn failure_text<B: BackendTypes>(event: StageEvent<B>) -> Option<Seq<char>> {
    match event {
        StageEvent::Loaded(Err(message)) => Some(message@),
        StageEvent::Proved(Err(message)) => Some(message@),
        StageEvent::Compressed(Err(message)) => Some(message@),
        StageEvent::Verified(Err(message)) => Some(message@),
        _ => None,
    }
}

/// A step keeps a well-formed run well formed, never changes what the run was
/// set up with, and never moves it back. An event that answers the pending
/// action moves it forward; any other event leaves it as it is.
pub proof fn lemma_step_moves_forward<B: BackendTypes>(run: RunView<B>, event: StageEvent<B>)
    requires
        run.wf(),
    ensures
        run.step(event).wf(),
        run.step(event).input == run.input,
        run.step(event).entry_point == run.entry_point,
        run.step(event).compress == run.compress,
        run.step(event).counts_trace == run.counts_trace,
        run.expects(event) ==> run.step(event).phase.rank() > run.phase.rank(),
        !run.expects(event) ==> run.step(event) == run,
{
}

/// How many more answers a run can take in before it is over, at most.
pub open spec fn steps_left<B: BackendTypes>(run: RunView<B>) -> nat {
    (Phase::Done.rank() - run.phase.rank()) as nat
}

/// A run that is answered comes to an end: every event that answers the
/// pending action brings the run closer to being over, and a run is over
/// exactly when no answer is left to take in. No run takes in more than seven
/// answers.
pub proof fn lemma_run_comes_to_an_end<B: BackendTypes>(run: RunView<B>, event: StageEvent<B>)
    requires
        run.wf(),
        run.expects(event),
    ensures
        steps_left(run.step(event)) < steps_left(run),
        steps_left(run) <= 7,
        steps_left(run.step(event)) == 0 <==> run.step(event).outcome() is Some,
{
}

/// Replaying one more event is taking one more step.
pub proof fn lemma_replay_push<B: BackendTypes>(
    start: RunView<B>,
    events: Seq<StageEvent<B>>,
    event: StageEvent<B>,
)
    ensures
        start.replay(events.push(event)) == start.replay(events).step(event),
{
    assert(events.push(event).drop_last() =~= events);
}

/// Replaying the first `k + 1` events is replaying the first `k` and taking
/// one more step.
pub proof fn lemma_replay_take<B: BackendTypes>(
    start: RunView<B>,
    events: Seq<StageEvent<B>>,
    k: int,
)
    requires
        0 <= k < events.len(),
    ensures
        start.replay(events.take(k + 1)) == start.replay(events.take(k)).step(events[k]),
{
    assert(events.take(k + 1).drop_last() =~= events.take(k));
}

/// Whatever events come in, a well-formed run stays well formed, keeps what
/// it was set up with, and never moves back.
pub proof fn lemma_replay_moves_forward<B: BackendTypes>(
    start: RunView<B>,
    events: Seq<StageEvent<B>>,
)
    requires
        start.wf(),
    ensures
        start.replay(events).wf(),
        start.replay(events).input == start.input,
        start.replay(events).entry_point == start.entry_point,
        start.replay(events).compress == start.compress,
        start.replay(events).counts_trace == start.counts_trace,
        start.replay(events).phase.rank() >= start.phase.rank(),
    decreases events.len(),
{
    if events.len() > 0 {
        lemma_replay_moves_forward(start, events.drop_last());
        lemma_step_moves_forward(start.replay(events.drop_last()), events.last());
    }
}

/// A run that is over stays as it is: no event reopens it, and its outcome
/// does not change.
pub proof fn lemma_done_is_final<B: BackendTypes>(
    run: RunView<B>,
    events: Seq<StageEvent<B>>,
)
    requires
        run.phase == Phase::Done,
    ensures
        run.replay(events) == run,
    decreases events.len(),
{
    if events.len() > 0 {
        lemma_done_is_final(run, events.drop_last());
    }
}

/// A failed stage ends the run: the outcome is that stage's failure with the
/// backend's text, nothing that the run held is kept, and nothing more is
/// asked of the caller. No record comes of a run that failed.
pub proof fn lemma_failure_ends_run<B: BackendTypes>(run: RunView<B>, event: StageEvent<B>)
    requires
        run.wf(),
        run.expects(event),
        failure_text(event) is Some,
    ensures
        stage_of(run.phase) is Some,
        run.step(event).outcome() == Some(
            Err::<Measurement, Failure>(
                Failure { stage: stage_of(run.phase).unwrap(), message: failure_text(event).unwrap() },
            ),
        ),
        run.step(event).pending() == StageAction::Finish,
        run.step(event).context is None,
        run.step(event).proof is None,
        run.step(event).instance is None,
{
}

/// What a run holds is what its own stages produced. While a run that began
/// fresh holds a proof, the prover has answered; the instance held is the
/// prover's; and the proof held is the compressed one if compression took
/// place, and the prover's own if it did not. Compression takes place only in
/// a run that was set up to compress.
pub proof fn lemma_held_is_produced<B: BackendTypes>(
    start: RunView<B>,
    events: Seq<StageEvent<B>>,
)
    requires
        start.wf(),
        start.phase == Phase::Loading,
    ensures
        compressor_output(start, events) is Some ==> start.compress && prover_output(
            start,
            events,
        ) is Some,
        compressor_output(start, events) is Some ==> start.replay(events).phase.rank()
            >= Phase::Verifying.rank(),
        prover_output(start, events) is Some <==> start.replay(events).phase.rank()
            >= Phase::Compressing.rank() && !(start.replay(events).failure matches Some(failure)
            && (failure.stage == Stage::Load || failure.stage == Stage::Prove)),
        start.replay(events).phase.holds_proof() ==> {
            &&& prover_output(start, events) matches Some(proven)
            &&& start.replay(events).instance == Some(proven.instance)
            &&& start.replay(events).proof == match compressor_output(start, events) {
                Some(compressed) => Some(compressed),
                None => Some(proven.proof),
            }
            &&& start.replay(events).phase == Phase::Compressing ==> compressor_output(
                start,
                events,
            ) is None
            &&& start.replay(events).phase != Phase::Compressing && start.compress
                ==> compressor_output(start, events) is Some
        },
    decreases events.len(),
{
    if events.len() > 0 {
        let earlier = events.drop_last();
        lemma_held_is_produced(start, earlier);
        lemma_replay_moves_forward(start, earlier);
        lemma_step_moves_forward(start.replay(earlier), events.last());
    }
}

/// A record is only ever made of a run whose verification passed, and what
/// was verified is the pair that the run itself produced: the prover's
/// instance, together with the prover's proof or, where compression took
/// place, its compression. The record's trace length is the prover's, or `0`
/// where the backend has none; its parameter is the run's input.
pub proof fn lemma_record_means_verified<B: BackendTypes>(
    start: RunView<B>,
    events: Seq<StageEvent<B>>,
)
    requires
        start.wf(),
        start.phase == Phase::Loading,
        start.replay(events).outcome() matches Some(Ok(_)),
    ensures
        prover_output(start, events) is Some,
        verified_pair(start, events) == Some(
            (
                match compressor_output(start, events) {
                    Some(compressed) => Some(compressed),
                    None => Some(prover_output(start, events).unwrap().proof),
                },
                Some(prover_output(start, events).unwrap().instance),
            ),
        ),
        start.replay(events).measurement().parameter == start.input,
        start.replay(events).measurement().execution_trace_length == (
        if start.counts_trace {
            prover_output(start, events).unwrap().trace_length as nat
        } else {
            0
        }),
{
    lemma_verified_is_produced(start, events);
    lemma_replay_moves_forward(start, events);
}

/// Once the verification of a run that began fresh has passed, what was
/// verified is fixed and is what the run produced, and the trace length that
/// the run keeps is the prover's or `0`.
proof fn lemma_verified_is_produced<B: BackendTypes>(
    start: RunView<B>,
    events: Seq<StageEvent<B>>,
)
    requires
        start.wf(),
        start.phase == Phase::Loading,
    ensures
        start.replay(events).phase.rank() >= Phase::StoppingTimer.rank() && start.replay(
            events,
        ).failure is None ==> {
            &&& prover_output(start, events) matches Some(proven)
            &&& verified_pair(start, events) == Some(
                (
                    match compressor_output(start, events) {
                        Some(compressed) => Some(compressed),
                        None => Some(proven.proof),
                    },
                    Some(proven.instance),
                ),
            )
        },
        start.replay(events).phase.rank() >= Phase::Compressing.rank() && start.replay(
            events,
        ).failure is None ==> {
            &&& prover_output(start, events) matches Some(proven)
            &&& start.replay(events).trace_length == (if start.counts_trace {
                proven.trace_length as nat
            } else {
                0
            })
        },
    decreases events.len(),
{
    if events.len() > 0 {
        let earlier = events.drop_last();
        lemma_verified_is_produced(start, earlier);
        lemma_held_is_produced(start, earlier);
        lemma_held_is_produced(start, events);
        lemma_replay_moves_forward(start, earlier);
        lemma_step_moves_forward(start.replay(earlier), events.last());
    }
}

/// The trace length of a record does not depend on timing or on proof size:
/// two runs on backends of one kind whose provers reported the same trace
/// length have records with the same trace length, whatever else happened in
/// them.
pub proof fn lemma_trace_length_ignores_timing<B: BackendTypes>(
    first: RunView<B>,
    first_events: Seq<StageEvent<B>>,
    second: RunView<B>,
    second_events: Seq<StageEvent<B>>,
)
    requires
        first.wf(),
        first.phase == Phase::Loading,
        second.wf(),
        second.phase == Phase::Loading,
        first.counts_trace == second.counts_trace,
        first.replay(first_events).outcome() matches Some(Ok(_)),
        second.replay(second_events).outcome() matches Some(Ok(_)),
        prover_output(first, first_events) is Some && prover_output(second, second_events) is Some
            ==> prover_output(first, first_events).unwrap().trace_length == prover_output(
            second,
            second_events,
        ).unwrap().trace_length,
    ensures
        first.replay(first_events).measurement().execution_trace_length
            == second.replay(second_events).measurement().execution_trace_length,
{
    lemma_record_means_verified(first, first_events);
    lemma_record_means_verified(second, second_events);
}

/// A run that was not set up to compress never asks for compression, and the
/// proof that it verifies and measures is the prover's own, unchanged. A run
/// on a backend that cannot compress is never set up to compress, whatever
/// was asked for.
pub proof fn lemma_no_compression_unless_enabled<B: BackendTypes>(
    input: InputValue,
    entry_point: Seq<char>,
    backend: Backend,
    compress: bool,
    events: Seq<StageEvent<B>>,
)
    requires
        !compress || !backend.spec_supports_compression(),
    ensures
        ({
            let start = RunView::<B>::start(input, entry_point, backend, compress);
            let run = start.replay(events);
            &&& run.pending() != StageAction::Compress
            &&& compressor_output(start, events) is None
            &&& run.phase.holds_proof() ==> run.proof == Some(
                prover_output(start, events).unwrap().proof,
            )
        }),
{
    let start = RunView::<B>::start(input, entry_point, backend, compress);
    lemma_replay_moves_forward(start, events);
    lemma_held_is_produced(start, events);
}

/// On a backend that has no notion of trace length, every record reports the
/// trace length `0`, whatever the prover's answer carried.
pub proof fn lemma_trace_length_sentinel<B: BackendTypes>(
    input: InputValue,
    entry_point: Seq<char>,
    backend: Backend,
    compress: bool,
    events: Seq<StageEvent<B>>,
)
    requires
        !backend.spec_reports_trace_length(),
    ensures
        RunView::<B>::start(input, entry_point, backend, compress).replay(
            events,
        ).outcome() matches Some(Ok(record)) ==> record.execution_trace_length == 0,
{
    let start = RunView::<B>::start(input, entry_point, backend, compress);
    lemma_replay_moves_forward(start, events);
}

/// The timed window holds proving, compression and verification and nothing
/// else: the timer runs exactly while the run waits on one of the three or on
/// the timer's being stopped. Loading and measuring fall outside it.
pub proof fn lemma_timed_window<B: BackendTypes>(run: RunView<B>)
    ensures
        run.phase.timed() <==> run.pending() == StageAction::Prove || run.pending()
            == StageAction::Compress || run.pending() == StageAction::Verify || run.pending()
            == StageAction::StopTimer,
        run.pending() == StageAction::Load || run.pending() == StageAction::Measure
            ==> !run.phase.timed(),
{
}

/// The events of a run in which every stage succeeds.
pub open spec fn smooth_events<B: BackendTypes>(
    compress: bool,
    context: B::Context,
    proven: Proven<B>,
    compressed: B::Proof,
    elapsed_ms: u128,
    proof_bytes: usize,
) -> Seq<StageEvent<B>> {
    if compress {
        seq![
            StageEvent::Loaded(Ok(context)),
            StageEvent::TimerStarted,
            StageEvent::Proved(Ok(proven)),
            StageEvent::Compressed(Ok(compressed)),
            StageEvent::Verified(Ok(())),
            StageEvent::TimerStopped(elapsed_ms),
            StageEvent::Measured(proof_bytes),
        ]
    } else {
        seq![
            StageEvent::Loaded(Ok(context)),
            StageEvent::TimerStarted,
            StageEvent::Proved(Ok(proven)),
            StageEvent::Verified(Ok(())),
            StageEvent::TimerStopped(elapsed_ms),
            StageEvent::Measured(proof_bytes),
        ]
    }
}

/// A run in which every stage succeeds asks for its actions in one fixed
/// order, with the timer started after the load and before the proof, and
/// stopped after the verification and before the measurement; compression,
/// where the run compresses, falls inside the timed window. The run ends with
/// a record that holds the input, the time read from the timer, the size
/// measured, and the prover's trace length or `0`.
pub proof fn lemma_smooth_run<B: BackendTypes>(
    start: RunView<B>,
    context: B::Context,
    proven: Proven<B>,
    compressed: B::Proof,
    elapsed_ms: u128,
    proof_bytes: usize,
)
    requires
        start.wf(),
        start.phase == Phase::Loading,
        start.failure is None,
    ensures
        ({
            let events = smooth_events(
                start.compress,
                context,
                proven,
                compressed,
                elapsed_ms,
                proof_bytes,
            );
            &&& actions(start, events) == if start.compress {
                seq![
                    StageAction::Load,
                    StageAction::StartTimer,
                    StageAction::Prove,
                    StageAction::Compress,
                    StageAction::Verify,
                    StageAction::StopTimer,
                    StageAction::Measure,
                    StageAction::Finish,
                ]
            } else {
                seq![
                    StageAction::Load,
                    StageAction::StartTimer,
                    StageAction::Prove,
                    StageAction::Verify,
                    StageAction::StopTimer,
                    StageAction::Measure,
                    StageAction::Finish,
                ]
            }
            &&& start.replay(events).outcome() == Some(
                Ok::<Measurement, Failure>(
                    Measurement {
                        parameter: start.input,
                        duration_ms: elapsed_ms as nat,
                        proof_size_bytes: proof_bytes as nat,
                        execution_trace_length: if start.counts_trace {
                            proven.trace_length as nat
                        } else {
                            0
                        },
                    },
                ),
            )
        }),
{
    let events = smooth_events(
        start.compress,
        context,
        proven,
        compressed,
        elapsed_ms,
        proof_bytes,
    );
    assert(events.take(0) =~= Seq::empty());
    assert(start.replay(events.take(0)) == start);
    lemma_replay_take(start, events, 0);
    lemma_replay_take(start, events, 1);
    lemma_replay_take(start, events, 2);
    lemma_replay_take(start, events, 3);
    lemma_replay_take(start, events, 4);
    lemma_replay_take(start, events, 5);
    if start.compress {
        lemma_replay_take(start, events, 6);
        assert(events.take(7) =~= events);
        assert(actions(start, events) =~= seq![
            StageAction::Load,
            StageAction::StartTimer,
            StageAction::Prove,
            StageAction::Compress,
            StageAction::Verify,
            StageAction::StopTimer,
            StageAction::Measure,
            StageAction::Finish,
        ]);
    } else {
        assert(events.take(6) =~= events);
        assert(actions(start, events) =~= seq![
            StageAction::Load,
            StageAction::StartTimer,
            StageAction::Prove,
            StageAction::Verify,
            StageAction::StopTimer,
            StageAction::Measure,
            StageAction::Finish,
        ]);
    }
}

} // verus!
