# async_dispatch

Task handles and sleep timers for futures that run on Grand Central Dispatch
queues, with their decisions proved by Verus.

- `src/` is the verified library: task handles (`task`), the sleep future's
  state (`sleep`), how runnables are dispatched (`dispatch`), the join error
  (`error`), the outside items of `async-task` it rests on (`spawned`), and
  the laws that hold of every sequence of polls (`laws`).
- `app/` holds what talks to libdispatch: the queues and timers, the raw
  pointers handed to them, and the `Future` impls of `Task` and `Sleep`,
  which carry the library's types.
- `tests/` runs the handles on a small queue of runnables driven by hand.
