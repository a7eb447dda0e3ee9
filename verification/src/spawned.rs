//! The outside items that task handles rest on, and what is claimed of them.
use vstd::prelude::*;

verus! {

#[verifier::external_type_specification]
#[verifier::external_body]
#[verifier::reject_recursive_types(T)]
#[verifier::reject_recursive_types(M)]
/// `async_task::Task`, the handle that awaits a spawned task's output.
pub struct ExSpawnedTask<T, M>(async_task::Task<T, M>);

#[verifier::external_type_specification]
#[verifier::external_body]
#[verifier::reject_recursive_types(T)]
#[verifier::reject_recursive_types(M)]
/// `async_task::FallibleTask`, a spawned task's handle whose poll answers
/// when the task was closed without an output.
pub struct ExSpawnedFallible<T, M>(async_task::FallibleTask<T, M>);

#[verifier::external_type_specification]
#[verifier::external_body]
#[verifier::reject_recursive_types(M)]
/// `async_task::Runnable`, the handle that runs a spawned task once.
pub struct ExSpawnedRunnable<M>(async_task::Runnable<M>);

#[verifier::external_type_specification]
#[verifier::external_body]
/// `std::task::Context`, what a poll is given to register its waker.
pub struct ExPollContext<'a>(std::task::Context<'a>);

/// Turns a task handle into one whose poll answers when the task was closed
/// without an output, through `async_task::Task::fallible`. Nothing is
/// stated of the handles: they are opaque.
#[verifier::external_body]
pub(crate) fn make_fallible<T>(handle: async_task::Task<T>) -> async_task::FallibleTask<T> {
    handle.fallible()
}

/// Polls a spawned task once, through `<async_task::FallibleTask as Future>::poll`.
///
/// `Some(Some(v))` stands for `Poll::Ready(Some(v))` (the output), `Some(None)`
/// for `Poll::Ready(None)` (the task was closed without an output: its
/// runnable was dropped unrun, or its future panicked while it ran), and
/// `None` for `Poll::Pending`. Nothing is promised of which comes back: that
/// rests on the executor and on the future. The outside call would resume a
/// panic of the future only for tasks built to propagate panics, which
/// `create_sendable` and `create_local` never make.
#[verifier::external_body]
pub(crate) fn poll_spawned<T>(
    handle: &mut async_task::FallibleTask<T>,
    cx: &mut std::task::Context,
) -> Option<Option<T>> {
    match std::future::Future::poll(std::pin::Pin::new(handle), cx) {
        std::task::Poll::Ready(out) => Some(out),
        std::task::Poll::Pending => None,
    }
}

/// Detaches a spawned task through `async_task::FallibleTask::detach`, so
/// that it keeps running after its handle is gone. Nothing is claimed of it:
/// the outside code may drop an output that nobody claimed and may call the
/// task's schedule function, both of which are the caller's code and may
/// panic.
#[verifier::external_body]
pub(crate) fn detach_spawned<T>(handle: async_task::FallibleTask<T>) {
    handle.detach()
}

/// A task just created, told apart by which threads may run it.
#[verifier::reject_recursive_types(T)]
pub enum CreatedTask<T> {
    /// Made by `async_task::spawn`: its runnable may be run, and its handles
    /// dropped, on any thread.
    AnyThread(async_task::Task<T>),
    /// Made by `async_task::spawn_local`: its runnable must be run, and
    /// dropped, on the thread that made it.
    SpawningThread(async_task::Task<T>),
}

/// Creates a task for `future` through `async_task::spawn`, with `schedule`
/// as the function that hands its runnable to an executor. The runnable is
/// not scheduled yet. Claimed: the task is one that any thread may run
/// (`spawn` asks for a `Send` future and output, and builds no check of the
/// thread that runs it). Nothing else is stated of the handles: they are
/// opaque.
#[verifier::external_body]
pub(crate) fn create_sendable<F, S>(future: F, schedule: S) -> (r: (async_task::Runnable, CreatedTask<F::Output>))
    where
        F: std::future::Future + Send + 'static,
        F::Output: Send + 'static,
        S: async_task::Schedule + Send + Sync + 'static,
    ensures
        r.1 is AnyThread,
{
    let (runnable, task) = async_task::spawn(future, schedule);
    (runnable, CreatedTask::AnyThread(task))
}

/// Creates a task for a future that must stay on the thread that spawned it,
/// through `async_task::spawn_local`. The runnable is not scheduled yet.
/// The outside code panics when the task is run or dropped on another
/// thread; that rests on the executor that `schedule` hands it to.
/// Claimed: the task is one that only the spawning thread may run.
#[verifier::external_body]
pub(crate) fn create_local<F, S>(future: F, schedule: S) -> (r: (async_task::Runnable, CreatedTask<F::Output>))
    where
        F: std::future::Future + 'static,
        F::Output: 'static,
        S: async_task::Schedule + Send + Sync + 'static,
    ensures
        r.1 is SpawningThread,
{
    let (runnable, task) = async_task::spawn_local(future, schedule);
    (runnable, CreatedTask::SpawningThread(task))
}

/// Hands a runnable to its schedule function, through
/// `async_task::Runnable::schedule`.
#[verifier::external_body]
pub(crate) fn schedule_runnable(runnable: async_task::Runnable) {
    runnable.schedule()
}

} // verus!
