//! Handles to spawned tasks: what each poll answers, and what aborting and detaching do.
use vstd::prelude::*;

use crate::error::JoinError;
use crate::spawned::{
    create_local, create_sendable, detach_spawned, CreatedTask, make_fallible, poll_spawned, schedule_runnable,
};

verus! {

/// Where a task handle stands.
#[derive(Debug, Clone, Copy, PartialEq, Eq, Structural)]
pub enum TaskPhase {
    /// The spawned future has not produced its output to this handle yet.
    Running,
    /// The output was handed out by a poll, or the handle was detached.
    Completed,
    /// The handle was aborted, or the task was closed without an output.
    Aborted,
}

/// What the spawned task answered when it was polled.
#[derive(Debug, Clone, Copy, PartialEq, Eq)]
pub enum SpawnedPoll<T> {
    /// It produced this output.
    Ready(T),
    /// It was closed without an output: its executor dropped its runnable
    /// unrun, or its future panicked while it ran.
    Closed,
    /// It has not finished (or it was not polled, the handle not running).
    Pending,
}

/// Something that happens to a task handle.
pub enum HandleEvent<T> {
    /// The handle is aborted.
    Abort,
    /// The handle is polled, and the spawned task answers this (when the
    /// handle runs; otherwise it is not polled and the answer is ignored).
    Poll(SpawnedPoll<T>),
}

/// The phase of a handle in `phase` after `event`.
pub open spec fn handle_step<T>(phase: TaskPhase, event: HandleEvent<T>) -> TaskPhase {
    match event {
        HandleEvent::Abort => TaskPhase::Aborted,
        HandleEvent::Poll(inner) => match phase {
            TaskPhase::Running => match inner {
                SpawnedPoll::Ready(_) => TaskPhase::Completed,
                SpawnedPoll::Closed => TaskPhase::Aborted,
                SpawnedPoll::Pending => TaskPhase::Running,
            },
            other => other,
        },
    }
}

/// What a poll of a handle in `phase` answers when the spawned task answers
/// `inner`: `None` is a pending poll, `Some(r)` a ready one with `r`.
pub open spec fn poll_answer<T>(phase: TaskPhase, inner: SpawnedPoll<T>) -> Option<Result<T, JoinError>> {
    match phase {
        TaskPhase::Running => match inner {
            SpawnedPoll::Ready(v) => Some(Ok(v)),
            SpawnedPoll::Closed => Some(Err(JoinError::Aborted)),
            SpawnedPoll::Pending => None,
        },
        TaskPhase::Completed => Some(Err(JoinError::PollAfterReady)),
        TaskPhase::Aborted => Some(Err(JoinError::Aborted)),
    }
}

#[verifier::reject_recursive_types(T)]
enum TaskState<T> {
    Running(async_task::FallibleTask<T>),
    Completed,
    Aborted,
}

/// A handle to a spawned task that can be polled for its result.
///
/// Dropping a running handle cancels the task; `detach` lets it run on
/// without the handle.
#[verifier::reject_recursive_types(T)]
pub struct TaskHandle<T> {
    state: TaskState<T>,
    any_thread: bool,
}

impl<T> View for TaskHandle<T> {
    type V = TaskPhase;

    closed spec fn view(&self) -> TaskPhase {
        match self.state {
            TaskState::Running(_) => TaskPhase::Running,
            TaskState::Completed => TaskPhase::Completed,
            TaskState::Aborted => TaskPhase::Aborted,
        }
    }
}

impl<T> TaskHandle<T> {
    /// Whether the handle's task may be run by any thread, rather than only
    /// by the thread that spawned it.
    pub closed spec fn runs_on_any_thread(&self) -> bool {
        self.any_thread
    }

    /// Wraps the handle of a task that was just spawned.
    pub fn running(created: CreatedTask<T>) -> (t: TaskHandle<T>)
        ensures
            t@ == TaskPhase::Running,
            t.runs_on_any_thread() == (created is AnyThread),
    {
        match created {
            CreatedTask::AnyThread(handle) => TaskHandle {
                state: TaskState::Running(make_fallible(handle)),
                any_thread: true,
            },
            CreatedTask::SpawningThread(handle) => TaskHandle {
                state: TaskState::Running(make_fallible(handle)),
                any_thread: false,
            },
        }
    }

    /// Whether the handle's task may be run by any thread, rather than only
    /// by the thread that spawned it.
    pub fn any_thread(&self) -> (b: bool)
        ensures
            b == self.runs_on_any_thread(),
    {
        self.any_thread
    }

    /// Where the handle stands.
    pub fn phase(&self) -> (p: TaskPhase)
        ensures
            p == self@,
    {
        match self.state {
            TaskState::Running(_) => TaskPhase::Running,
            TaskState::Completed => TaskPhase::Completed,
            TaskState::Aborted => TaskPhase::Aborted,
        }
    }

    /// Cancels the task: its future is not polled again, and every later
    /// poll of this handle answers `Err(JoinError::Aborted)`.
    pub fn abort(&mut self)
        ensures
            final(self)@ == handle_step(old(self)@, HandleEvent::<T>::Abort),
            final(self).runs_on_any_thread() == old(self).runs_on_any_thread(),
    {
        self.state = TaskState::Aborted;
    }

    /// Lets a running task go on in the background without this handle; its
    /// result is simply discarded. The handle is left completed.
    pub fn detach(&mut self)
        ensures
            final(self)@ == TaskPhase::Completed,
            final(self).runs_on_any_thread() == old(self).runs_on_any_thread(),
    {
        let mut state = TaskState::Completed;
        std::mem::swap(&mut state, &mut self.state);
        match state {
            TaskState::Running(handle) => detach_spawned(handle),
            _ => {},
        }
    }

    /// What a poll answers, given what the spawned task answered when it
    /// was polled (or `SpawnedPoll::Pending` for a handle that no longer
    /// runs and so was not polled).
    ///
    /// `None` stands for a pending poll, `Some(r)` for a ready one with `r`.
    /// A task closed without an output answers `Err(JoinError::Aborted)`.
    pub fn resolve(&mut self, inner: SpawnedPoll<T>) -> (r: Option<Result<T, JoinError>>)
        ensures
            r == poll_answer(old(self)@, inner),
            final(self)@ == handle_step(old(self)@, HandleEvent::Poll(inner)),
            final(self)@ == old(self)@ ==> *final(self) == *old(self),
            final(self).runs_on_any_thread() == old(self).runs_on_any_thread(),
    {
        match self.state {
            TaskState::Running(_) => match inner {
                SpawnedPoll::Ready(v) => {
                    self.state = TaskState::Completed;
                    Some(Ok(v))
                },
                SpawnedPoll::Closed => {
                    self.state = TaskState::Aborted;
                    Some(Err(JoinError::Aborted))
                },
                SpawnedPoll::Pending => None,
            },
            TaskState::Completed => Some(Err(JoinError::PollAfterReady)),
            TaskState::Aborted => Some(Err(JoinError::Aborted)),
        }
    }

    /// Polls the task: a running task polls its spawned future once and
    /// answers what `resolve` answers for that; a completed or aborted one
    /// answers its error without polling anything.
    pub fn poll(&mut self, cx: &mut std::task::Context) -> (r: Option<Result<T, JoinError>>)
        ensures
            exists|inner: SpawnedPoll<T>|
                r == poll_answer(old(self)@, inner) && final(self)@ == handle_step(
                    old(self)@,
                    HandleEvent::Poll(inner),
                ),
            final(self).runs_on_any_thread() == old(self).runs_on_any_thread(),
    {
        let inner = match &mut self.state {
            TaskState::Running(handle) => match poll_spawned(handle, cx) {
                Some(Some(v)) => SpawnedPoll::Ready(v),
                Some(None) => SpawnedPoll::Closed,
                None => SpawnedPoll::Pending,
            },
            _ => SpawnedPoll::Pending,
        };
        self.resolve(inner)
    }
}

/// Spawns `future` as a task whose runnable `schedule` hands to an executor,
/// schedules it once, and returns its running handle.
pub fn spawn_with<F, S>(future: F, schedule: S) -> (t: TaskHandle<F::Output>)
    where
        F: std::future::Future + Send + 'static,
        F::Output: Send + 'static,
        S: async_task::Schedule + Send + Sync + 'static,
    ensures
        t@ == TaskPhase::Running,
        t.runs_on_any_thread(),
{
    let (runnable, handle) = create_sendable(future, schedule);
    schedule_runnable(runnable);
    TaskHandle::running(handle)
}

/// Spawns a future that stays on the spawning thread as a task whose
/// runnable `schedule` hands to an executor on that thread, schedules it
/// once, and returns its running handle.
pub fn spawn_local_with<F, S>(future: F, schedule: S) -> (t: TaskHandle<F::Output>)
    where
        F: std::future::Future + 'static,
        F::Output: 'static,
        S: async_task::Schedule + Send + Sync + 'static,
    ensures
        t@ == TaskPhase::Running,
        !t.runs_on_any_thread(),
{
    let (runnable, handle) = create_local(future, schedule);
    schedule_runnable(runnable);
    TaskHandle::running(handle)
}

} // verus!
