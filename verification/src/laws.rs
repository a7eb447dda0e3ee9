//! What holds of every sequence of events on a handle, and of polls of a sleep.
use vstd::prelude::*;

use crate::error::JoinError;
use crate::dispatch::{dispatch_for, Dispatch};
use crate::sleep::{sleep_action, SleepAction};
use crate::task::{handle_step, poll_answer, HandleEvent, SpawnedPoll, TaskPhase};

verus! {

/// The phase of a handle that starts in `phase` after the first `i` of
/// `events`.
pub open spec fn phase_before<T>(phase: TaskPhase, events: Seq<HandleEvent<T>>, i: int) -> TaskPhase
    decreases i,
{
    if i <= 0 {
        phase
    } else {
        handle_step(phase_before(phase, events, i - 1), events[i - 1])
    }
}

/// What the `i`-th event answers, when it is a poll (`None` for an abort,
/// which answers nothing, as for a pending poll).
pub open spec fn answer_at<T>(phase: TaskPhase, events: Seq<HandleEvent<T>>, i: int) -> Option<Result<T, JoinError>> {
    match events[i] {
        HandleEvent::Poll(inner) => poll_answer(phase_before(phase, events, i), inner),
        HandleEvent::Abort => None,
    }
}

/// The spawned task is never closed without an output in `events`: its
/// executor runs it, and its future does not panic.
pub open spec fn never_closed<T>(events: Seq<HandleEvent<T>>) -> bool {
    forall|j: int| 0 <= j < events.len() ==> !(#[trigger] events[j] matches HandleEvent::Poll(SpawnedPoll::Closed))
}

/// Some event before the `i`-th is an abort.
pub open spec fn aborted_before<T>(events: Seq<HandleEvent<T>>, i: int) -> bool {
    exists|j: int| 0 <= j < i && #[trigger] events[j] is Abort
}

/// The answer hands out the task's output.
pub open spec fn is_output<T>(answer: Option<Result<T, JoinError>>) -> bool {
    answer matches Some(Ok(_))
}

/// Some poll before the `i`-th handed out the task's output.
pub open spec fn output_before<T>(phase: TaskPhase, events: Seq<HandleEvent<T>>, i: int) -> bool {
    exists|j: int| 0 <= j < i && #[trigger] is_output(answer_at(phase, events, j))
}

/// For a spawned handle whose task is never closed, the phase is decided by
/// what came before: aborted once an abort came, completed once the output
/// was handed out with no abort before, running until then.
pub proof fn lemma_phase_by_history<T>(events: Seq<HandleEvent<T>>, i: int)
    requires
        never_closed(events),
        0 <= i <= events.len(),
    ensures
        (phase_before(TaskPhase::Running, events, i) == TaskPhase::Aborted) <==> aborted_before(events, i),
        (phase_before(TaskPhase::Running, events, i) == TaskPhase::Completed) <==> (!aborted_before(events, i)
            && output_before(TaskPhase::Running, events, i)),
        (phase_before(TaskPhase::Running, events, i) == TaskPhase::Running) <==> (!aborted_before(events, i)
            && !output_before(TaskPhase::Running, events, i)),
    decreases i,
{
    let p0 = TaskPhase::Running;
    if i > 0 {
        let k = i - 1;
        lemma_phase_by_history(events, k);
        let prev = phase_before(p0, events, k);
        assert(phase_before(p0, events, i) == handle_step(prev, events[k]));
        // The history up to `i` is the history up to `k` and the `k`-th event.
        assert(aborted_before(events, i) <==> (aborted_before(events, k) || events[k] is Abort)) by {
            if aborted_before(events, i) {
                let j = choose|j: int| 0 <= j < i && #[trigger] events[j] is Abort;
                if j < k {
                    assert(aborted_before(events, k));
                }
            }
            if aborted_before(events, k) {
                let j = choose|j: int| 0 <= j < k && #[trigger] events[j] is Abort;
                assert(0 <= j < i && events[j] is Abort);
            }
            if events[k] is Abort {
                assert(0 <= k < i && events[k] is Abort);
            }
        }
        assert(output_before(p0, events, i) <==> (output_before(p0, events, k) || is_output(answer_at(p0, events, k)))) by {
            if output_before(p0, events, i) {
                let j = choose|j: int| 0 <= j < i && #[trigger] is_output(answer_at(p0, events, j));
                if j < k {
                    assert(output_before(p0, events, k));
                }
            }
            if output_before(p0, events, k) {
                let j = choose|j: int| 0 <= j < k && #[trigger] is_output(answer_at(p0, events, j));
                assert(0 <= j < i && is_output(answer_at(p0, events, j)));
            }
            if is_output(answer_at(p0, events, k)) {
                assert(0 <= k < i && is_output(answer_at(p0, events, k)));
            }
        }
        assert(!(events[k] matches HandleEvent::Poll(SpawnedPoll::Closed)));
    }
}

/// Once a handle no longer runs, it never runs again.
pub proof fn lemma_finished_stays_finished<T>(phase: TaskPhase, events: Seq<HandleEvent<T>>, k: int, m: int)
    requires
        0 <= k <= m,
        phase_before(phase, events, k) != TaskPhase::Running,
    ensures
        phase_before(phase, events, m) != TaskPhase::Running,
    decreases m - k,
{
    if m > k {
        lemma_finished_stays_finished(phase, events, k, m - 1);
    }
}

/// For a spawned handle whose task is never closed, a poll answers
/// `Err(JoinError::Aborted)` exactly when an abort came before it.
pub proof fn lemma_aborted_iff_abort_before<T>(events: Seq<HandleEvent<T>>, i: int)
    requires
        never_closed(events),
        0 <= i < events.len(),
        events[i] is Poll,
    ensures
        (answer_at(TaskPhase::Running, events, i) == Some(Err::<T, JoinError>(JoinError::Aborted)))
            <==> aborted_before(events, i),
{
    lemma_phase_by_history(events, i);
    assert(!(events[i] matches HandleEvent::Poll(SpawnedPoll::Closed)));
}

/// For a spawned handle whose task is never closed, a poll answers
/// `Err(JoinError::PollAfterReady)` exactly when no abort came before it and
/// an earlier poll handed out the output.
pub proof fn lemma_poll_after_ready_iff_output_before<T>(events: Seq<HandleEvent<T>>, i: int)
    requires
        never_closed(events),
        0 <= i < events.len(),
        events[i] is Poll,
    ensures
        (answer_at(TaskPhase::Running, events, i) == Some(Err::<T, JoinError>(JoinError::PollAfterReady)))
            <==> (!aborted_before(events, i) && output_before(TaskPhase::Running, events, i)),
{
    lemma_phase_by_history(events, i);
    assert(!(events[i] matches HandleEvent::Poll(SpawnedPoll::Closed)));
}

/// Whatever the events, aborts among them, and whatever the spawned task
/// answers: once a poll is ready, every later poll is ready with an error.
/// So a handle hands out the task's output at most once.
pub proof fn lemma_ready_once<T>(phase: TaskPhase, events: Seq<HandleEvent<T>>, i: int, j: int)
    requires
        0 <= i < j < events.len(),
        events[i] is Poll,
        events[j] is Poll,
        answer_at(phase, events, i) is Some,
    ensures
        answer_at(phase, events, j) matches Some(Err(_)),
{
    assert(phase_before(phase, events, i + 1) == handle_step(phase_before(phase, events, i), events[i]));
    assert(phase_before(phase, events, i + 1) != TaskPhase::Running);
    lemma_finished_stays_finished(phase, events, i + 1, j);
}

/// The actions of successive polls of a sleep that starts `armed` or not,
/// where `fires[i]` says whether the timer has fired at the `i`-th poll.
pub open spec fn sleep_run(armed: bool, fires: Seq<bool>) -> Seq<SleepAction>
    decreases fires.len(),
{
    if fires.len() == 0 {
        Seq::empty()
    } else {
        seq![sleep_action(armed, fires[0])] + sleep_run(true, fires.drop_first())
    }
}

/// The first poll of a fresh sleep arms its timer and is pending, even for
/// a zero duration; no later poll arms it again.
pub proof fn lemma_timer_armed_once(fires: Seq<bool>)
    ensures
        sleep_run(false, fires).len() == fires.len(),
        forall|i: int|
            0 <= i < fires.len() ==> (#[trigger] sleep_run(false, fires)[i] == SleepAction::ArmTimer
                <==> i == 0),
{
    if fires.len() > 0 {
        lemma_armed_sleep_run(fires.drop_first());
        let rest = sleep_run(true, fires.drop_first());
        assert forall|i: int| 0 <= i < fires.len() implies (#[trigger] sleep_run(false, fires)[i]
            == SleepAction::ArmTimer <==> i == 0) by {
            if i > 0 {
                assert(sleep_run(false, fires)[i] == rest[i - 1]);
                assert(fires.drop_first()[i - 1] == fires[i]);
            }
        }
    }
}

/// Once armed, a sleep answers each poll ready exactly when the timer has
/// fired, and waits otherwise.
pub proof fn lemma_armed_sleep_run(fires: Seq<bool>)
    ensures
        sleep_run(true, fires).len() == fires.len(),
        forall|i: int|
            0 <= i < fires.len() ==> #[trigger] sleep_run(true, fires)[i] == (if fires[i] {
                SleepAction::Ready
            } else {
                SleepAction::Wait
            }),
    decreases fires.len(),
{
    if fires.len() > 0 {
        lemma_armed_sleep_run(fires.drop_first());
        let rest = sleep_run(true, fires.drop_first());
        assert forall|i: int| 0 <= i < fires.len() implies #[trigger] sleep_run(true, fires)[i] == (
        if fires[i] {
            SleepAction::Ready
        } else {
            SleepAction::Wait
        }) by {
            if i > 0 {
                assert(sleep_run(true, fires)[i] == rest[i - 1]);
            }
        }
    }
}

/// A delayed task's first schedule waits for the whole delay, whatever its
/// size, and every later schedule runs at once: a schedule waits exactly
/// when it is the first, and then for exactly the delay it was given.
pub proof fn lemma_only_first_schedule_waits(delay_nanos: i64)
    ensures
        dispatch_for(true, delay_nanos) == Dispatch::After(delay_nanos),
        dispatch_for(false, delay_nanos) == Dispatch::Now,
        forall|first: bool, other: i64|
            (#[trigger] dispatch_for(first, other) is After) <==> first,
        forall|first: bool, other: i64|
            #[trigger] dispatch_for(first, other) matches Dispatch::After(waited) ==> waited == other,
{
}

} // verus!
