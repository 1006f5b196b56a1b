use vstd::prelude::*;
use crate::model::{abs, is_drift, Position, ReplayCommand, IDLE_POLL_MS, TOLERANCE};
use crate::worker::{Action, Event, Phase, Worker};

verus! {

/// The worker after the outcomes `evs`, fed one by one from `w`.
pub open spec fn run(w: Worker, evs: Seq<Event>) -> Worker
    decreases evs.len(),
{
    if evs.len() == 0 {
        w
    } else {
        run(w, evs.drop_last()).next(evs.last())
    }
}

/// The outcome `e` completes a record command with a captured position.
pub open spec fn captures(w: Worker, e: Event) -> bool {
    w.phase is Recording && e matches Event::Location(Some(_))
}

/// The outcome `e` is the successful first move of a start command.
pub open spec fn starts(w: Worker, e: Event) -> bool {
    w.phase is Starting && e == Event::Moved(true)
}

/// The outcome `e` is a stop command, a manual move, a failed pointer query,
/// or a failed move or click of the replay step.
pub open spec fn interrupts(w: Worker, e: Event) -> bool {
    match w.phase {
        Phase::Receiving => e == Event::Command(Some(ReplayCommand::Stop)),
        Phase::Checking => match (w.state.recorded_position, e) {
            (Some(t), Event::Location(Some(p))) => is_drift(t, p),
            (_, Event::Location(_)) => true,
            _ => false,
        },
        Phase::Repositioning { target } => e == Event::Moved(false),
        Phase::Clicking => e == Event::Clicked(false),
        _ => false,
    }
}

/// Every step keeps the worker well formed.
pub proof fn lemma_step_keeps_wf(w: Worker, e: Event)
    requires
        w.wf(),
    ensures
        w.next(e).wf(),
{
}

/// Every run from startup ends in a well-formed worker.
pub proof fn lemma_run_wf(evs: Seq<Event>)
    ensures
        run(Worker::initial(), evs).wf(),
    decreases evs.len(),
{
    if evs.len() > 0 {
        lemma_run_wf(evs.drop_last());
    }
}

/// Replay switches on only through the successful first move of a start command,
/// and a stop command, a manual move or a failed operation switches it off.
pub proof fn lemma_replay_switches(w: Worker, e: Event)
    ensures
        !w.state.is_replaying && w.next(e).state.is_replaying ==> starts(w, e),
        interrupts(w, e) ==> !w.next(e).state.is_replaying,
{
}

/// A position is recorded only after some record command captured one.
pub proof fn lemma_recorded_after_capture(evs: Seq<Event>)
    ensures
        run(Worker::initial(), evs).state.recorded_position is Some ==> exists|k: int|
            0 <= k < evs.len() && #[trigger] captures(run(Worker::initial(), evs.take(k)), evs[k]),
    decreases evs.len(),
{
    let init = Worker::initial();
    if evs.len() > 0 {
        let prev = evs.drop_last();
        lemma_recorded_after_capture(prev);
        let w = run(init, prev);
        if run(init, evs).state.recorded_position is Some {
            let n = prev.len() as int;
            assert(evs.take(n) =~= prev);
            if w.state.recorded_position is Some {
                let k = choose|k: int| 0 <= k < prev.len() && #[trigger] captures(run(init, prev.take(k)), prev[k]);
                assert(evs.take(k) =~= prev.take(k));
                assert(captures(run(init, evs.take(k)), evs[k]));
            } else {
                assert(captures(run(init, evs.take(n)), evs[n]));
            }
        }
    }
}

/// Replay is on only if a position was captured before a successful start,
/// and nothing interrupted the replay since that start.
pub proof fn lemma_replaying_only_after_start(evs: Seq<Event>)
    ensures
        run(Worker::initial(), evs).state.is_replaying ==> exists|k: int, i: int|
            0 <= k < i < evs.len()
            && #[trigger] captures(run(Worker::initial(), evs.take(k)), evs[k])
            && #[trigger] starts(run(Worker::initial(), evs.take(i)), evs[i])
            && forall|j: int| i < j < evs.len() ==> !#[trigger] interrupts(run(Worker::initial(), evs.take(j)), evs[j]),
    decreases evs.len(),
{
    let init = Worker::initial();
    if evs.len() > 0 && run(init, evs).state.is_replaying {
        let prev = evs.drop_last();
        let n = prev.len() as int;
        let w = run(init, prev);
        assert(evs.take(n) =~= prev);
        lemma_replay_switches(w, evs[n]);
        if w.state.is_replaying {
            lemma_replaying_only_after_start(prev);
            let (k, i) = choose|k: int, i: int|
                0 <= k < i < prev.len()
                && #[trigger] captures(run(init, prev.take(k)), prev[k])
                && #[trigger] starts(run(init, prev.take(i)), prev[i])
                && forall|j: int| i < j < prev.len() ==> !#[trigger] interrupts(run(init, prev.take(j)), prev[j]);
            assert(evs.take(k) =~= prev.take(k));
            assert(evs.take(i) =~= prev.take(i));
            assert forall|j: int| i < j < evs.len() implies !#[trigger] interrupts(run(init, evs.take(j)), evs[j]) by {
                if j < n {
                    assert(evs.take(j) =~= prev.take(j));
                    assert(prev[j] == evs[j]);
                    assert(!interrupts(run(init, prev.take(j)), prev[j]));
                } else {
                    assert(run(init, evs) == w.next(evs[n]));
                    assert(run(init, evs.take(j)) == w);
                }
            }
            assert(captures(run(init, evs.take(k)), evs[k]));
            assert(starts(run(init, evs.take(i)), evs[i]));
        } else {
            lemma_run_wf(prev);
            lemma_recorded_after_capture(prev);
            let k = choose|k: int| 0 <= k < prev.len() && #[trigger] captures(run(init, prev.take(k)), prev[k]);
            assert(evs.take(k) =~= prev.take(k));
            assert(captures(run(init, evs.take(k)), evs[k]));
            assert(starts(run(init, evs.take(n)), evs[n]));
        }
    }
}

/// A start command while replaying changes nothing that the worker remembers.
pub proof fn lemma_start_while_replaying(w: Worker, wait_time_ms: u64)
    requires
        w.phase is Receiving,
        w.state.is_replaying,
    ensures
        w.next(Event::Command(Some(ReplayCommand::Start { wait_time_ms }))).state == w.state,
{
}

/// A stop command while idle changes nothing that the worker remembers,
/// and the tick goes on to its idle sleep.
pub proof fn lemma_stop_while_idle(w: Worker)
    requires
        w.phase is Receiving,
        !w.state.is_replaying,
    ensures
        w.next(Event::Command(Some(ReplayCommand::Stop))).state == w.state,
        w.next(Event::Command(Some(ReplayCommand::Stop))).spec_action() == Action::Sleep(IDLE_POLL_MS),
{
}

/// While replaying, a pointer reported beyond the tolerance from the target
/// switches replay off, and the tick goes straight to its idle sleep: no click.
pub proof fn lemma_drift_stops(w: Worker, current: Position)
    requires
        w.phase is Checking,
        w.state.is_replaying,
        w.state.recorded_position matches Some(t) && is_drift(t, current),
    ensures
        !w.next(Event::Location(Some(current))).state.is_replaying,
        w.next(Event::Location(Some(current))).spec_action() == Action::Sleep(IDLE_POLL_MS),
{
}

/// While replaying, a pointer within the tolerance of the target leads to the
/// corrective move and keeps replay on.
pub proof fn lemma_no_drift_continues(w: Worker, current: Position)
    requires
        w.phase is Checking,
        w.state.recorded_position matches Some(t) && !is_drift(t, current),
    ensures
        w.next(Event::Location(Some(current))).state == w.state,
        w.next(Event::Location(Some(current))).spec_action() == Action::MoveTo(w.state.recorded_position->Some_0),
{
}

/// The tolerance is strict: a deviation of exactly the tolerance on both axes
/// is no drift, one more on either axis is.
pub proof fn lemma_tolerance_boundary(target: Position, current: Position)
    ensures
        abs(current.x - target.x) == TOLERANCE && abs(current.y - target.y) == TOLERANCE ==> !is_drift(target, current),
        abs(current.x - target.x) == TOLERANCE + 1 || abs(current.y - target.y) == TOLERANCE + 1 ==> is_drift(target, current),
{
}

} // verus!
