use std::sync::mpsc;
use std::task::{Context, Waker};
use std::time::Duration;

use async_dispatch::error::JoinError;
use std::future::poll_fn;
use std::task::Poll;

use async_dispatch::task::{spawn_local_with, spawn_with, SpawnedPoll, TaskHandle, TaskPhase};

type Queue = mpsc::Receiver<async_task::Runnable>;

/// A schedule function that queues runnables for the test to run by hand.
fn queue() -> (impl Fn(async_task::Runnable) + Send + Sync + 'static, Queue) {
    let (tx, rx) = mpsc::channel();
    (move |runnable| tx.send(runnable).unwrap(), rx)
}

/// Runs queued runnables until the handle answers ready.
fn block_on<T>(handle: &mut TaskHandle<T>, queue: &Queue) -> Result<T, JoinError> {
    let mut cx = Context::from_waker(Waker::noop());
    loop {
        match handle.poll(&mut cx) {
            Some(answer) => return answer,
            None => queue
                .recv_timeout(Duration::from_secs(1))
                .expect("a pending task has a runnable queued")
                .run(),
        };
    }
}

fn run_queued(queue: &Queue) {
    while let Ok(runnable) = queue.try_recv() {
        runnable.run();
    }
}

#[test]
fn test_spawn_await() {
    let (schedule, rx) = queue();
    let mut task = spawn_with(async { 42 }, schedule);
    let result = block_on(&mut task, &rx);
    assert_eq!(result, Ok(42));
}

#[test]
fn test_spawn_drop_continues() {
    // Dropping a task lets it continue running (detach-on-drop)
    let (schedule, queued) = queue();
    let (tx, rx) = mpsc::channel();

    let mut task = spawn_with(
        async move {
            tx.send(42).unwrap();
        },
        schedule,
    );
    // What dropping the public task does: detach, then let the handle go.
    task.detach();
    drop(task);
    run_queued(&queued);

    let result = rx.recv_timeout(Duration::from_secs(1)).unwrap();
    assert_eq!(result, 42);
}

#[test]
fn test_abort() {
    let (schedule, queued) = queue();
    let (tx, rx) = mpsc::channel();

    let mut task = spawn_with(
        async move {
            tx.send(()).unwrap();
            42
        },
        schedule,
    );

    task.abort();
    run_queued(&queued);

    // The channel should never receive (task was cancelled)
    assert!(rx.recv_timeout(Duration::from_millis(300)).is_err());

    // Awaiting returns Aborted
    let result = block_on(&mut task, &queued);
    assert_eq!(result, Err(JoinError::Aborted));
}

#[test]
fn test_poll_after_ready() {
    let (schedule, queued) = queue();
    let mut task = spawn_with(async { 1 }, schedule);

    // Poll to completion
    let waker = Waker::noop();
    let mut cx = Context::from_waker(&waker);
    loop {
        match task.poll(&mut cx) {
            Some(Ok(1)) => break,
            Some(other) => panic!("unexpected result: {:?}", other),
            None => run_queued(&queued),
        }
    }

    // Poll again after ready
    let result = task.poll(&mut cx);
    assert!(matches!(result, Some(Err(JoinError::PollAfterReady))));
}

#[test]
fn spawned_handle_starts_running() {
    let (schedule, _queued) = queue();
    let task = spawn_with(async { 7u8 }, schedule);
    assert_eq!(task.phase(), TaskPhase::Running);
}

#[test]
fn pending_poll_keeps_running() {
    let (schedule, queued) = queue();
    let mut task = spawn_with(async { 5 }, schedule);
    let mut cx = Context::from_waker(Waker::noop());
    // The runnable has not run yet, so the task cannot be ready.
    assert_eq!(task.poll(&mut cx), None);
    assert_eq!(task.phase(), TaskPhase::Running);
    run_queued(&queued);
    assert_eq!(task.poll(&mut cx), Some(Ok(5)));
    assert_eq!(task.phase(), TaskPhase::Completed);
}

#[test]
fn output_is_handed_out_once() {
    let (schedule, queued) = queue();
    let mut task = spawn_with(async { String::from("done") }, schedule);
    assert_eq!(block_on(&mut task, &queued), Ok(String::from("done")));
    let mut cx = Context::from_waker(Waker::noop());
    for _ in 0..3 {
        assert_eq!(task.poll(&mut cx), Some(Err(JoinError::PollAfterReady)));
    }
}

#[test]
fn aborted_after_completion_answers_aborted() {
    let (schedule, queued) = queue();
    let mut task = spawn_with(async { 9 }, schedule);
    assert_eq!(block_on(&mut task, &queued), Ok(9));
    task.abort();
    assert_eq!(task.phase(), TaskPhase::Aborted);
    let mut cx = Context::from_waker(Waker::noop());
    assert_eq!(task.poll(&mut cx), Some(Err(JoinError::Aborted)));
    assert_eq!(task.poll(&mut cx), Some(Err(JoinError::Aborted)));
}

#[test]
fn local_spawn_runs_on_this_thread() {
    let (schedule, queued) = queue();
    let value = std::rc::Rc::new(11);
    let mut task = spawn_local_with(async move { *value + 1 }, schedule);
    assert_eq!(block_on(&mut task, &queued), Ok(12));
}

#[test]
fn resolve_decides_by_phase() {
    let (schedule, _queued) = queue();
    let mut task = spawn_with(async { 0 }, schedule);
    assert_eq!(task.resolve(SpawnedPoll::Pending), None);
    assert_eq!(task.phase(), TaskPhase::Running);
    assert_eq!(task.resolve(SpawnedPoll::Ready(3)), Some(Ok(3)));
    assert_eq!(task.phase(), TaskPhase::Completed);
    assert_eq!(task.resolve(SpawnedPoll::Ready(4)), Some(Err(JoinError::PollAfterReady)));
    assert_eq!(task.resolve(SpawnedPoll::Closed), Some(Err(JoinError::PollAfterReady)));
    task.abort();
    assert_eq!(task.resolve(SpawnedPoll::Ready(5)), Some(Err(JoinError::Aborted)));
}

#[test]
fn join_error_texts() {
    assert_eq!(JoinError::Aborted.to_string(), "task was aborted");
    assert_eq!(JoinError::PollAfterReady.to_string(), "task polled after completion");
}

#[test]
fn test_nested_spawn_await() {
    let (tx, rx) = mpsc::channel::<async_task::Runnable>();
    let inner_tx = tx.clone();
    let mut task = spawn_with(
        async move {
            let mut inner = spawn_with(async { 42 }, move |r| inner_tx.send(r).unwrap());
            let answer = poll_fn(|cx| match inner.poll(cx) {
                Some(answer) => Poll::Ready(answer),
                None => Poll::Pending,
            })
            .await;
            answer.unwrap() + 1
        },
        move |r| tx.send(r).unwrap(),
    );
    let result = block_on(&mut task, &rx);
    assert_eq!(result, Ok(43));
}

/// A future that is pending once, waking itself, then ready.
fn yield_once() -> impl std::future::Future<Output = ()> {
    let mut yielded = false;
    poll_fn(move |cx| {
        if yielded {
            Poll::Ready(())
        } else {
            yielded = true;
            cx.waker().wake_by_ref();
            Poll::Pending
        }
    })
}

#[test]
fn abort_after_first_poll_of_future() {
    let (schedule, queued) = queue();
    let (tx, rx) = mpsc::channel();
    let mut task = spawn_with(
        async move {
            yield_once().await;
            tx.send(()).unwrap();
            42
        },
        schedule,
    );

    // Run the future once: it yields and is scheduled again.
    queued.recv_timeout(Duration::from_secs(1)).unwrap().run();
    let mut cx = Context::from_waker(Waker::noop());
    assert_eq!(task.poll(&mut cx), None);

    task.abort();
    run_queued(&queued);

    // The future was not polled again after the abort.
    assert!(rx.try_recv().is_err());
    assert_eq!(task.poll(&mut cx), Some(Err(JoinError::Aborted)));
    assert_eq!(task.phase(), TaskPhase::Aborted);
}

#[test]
fn closed_task_answers_aborted() {
    // An executor that drops every runnable it is handed: the task is closed
    // without an output.
    let mut task = spawn_with(async { 1 }, |runnable: async_task::Runnable| drop(runnable));
    let mut cx = Context::from_waker(Waker::noop());
    assert_eq!(task.poll(&mut cx), Some(Err(JoinError::Aborted)));
    assert_eq!(task.phase(), TaskPhase::Aborted);
    assert_eq!(task.poll(&mut cx), Some(Err(JoinError::Aborted)));
}

#[test]
fn dropped_handle_cancels_task() {
    let (schedule, queued) = queue();
    let (tx, rx) = mpsc::channel();
    drop(spawn_with(
        async move {
            tx.send(()).unwrap();
        },
        schedule,
    ));
    run_queued(&queued);
    assert!(rx.try_recv().is_err());
}

#[test]
fn detach_leaves_handle_completed() {
    let (schedule, queued) = queue();
    let mut task = spawn_with(async { 3 }, schedule);
    task.detach();
    assert_eq!(task.phase(), TaskPhase::Completed);
    run_queued(&queued);
    let mut cx = Context::from_waker(Waker::noop());
    assert_eq!(task.poll(&mut cx), Some(Err(JoinError::PollAfterReady)));
}
