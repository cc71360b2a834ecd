# mpac_rs

Unbounded channels for many senders and many receivers, a benchmark that
compares them with crossbeam's, and the aggregation of its results.

`src/` is the verified library:

- `state.rs` – the model of a channel guarded by one lock (senders,
  receivers, queue) and the rules of receive and send, with the laws of the
  channel: values come out in the order they went in, a receive reports
  `Closed` exactly when the queue is drained and no sender is left, a send
  without receivers hands its value back.
- `v1.rs`, `v2.rs` – the state behind the lock, on a vector and on a ring
  buffer, each operation proved to follow the rules of `state.rs`.
- `v3/access_flag.rs` – the flag that guards a node of the concurrent list:
  `FlagState`, its byte as a state machine whose every step (access,
  declare-take, take, release) is proved to follow the rules, with the
  identity bits never changing, and `AccessFlag`, which takes each step
  inside one section of a verified lock.
- `v4/action.rs`, `v4/status.rs` – `ActionCell` and `StatusCell`, cells of
  one action or status whose load, store and compare-exchange are proved
  exact, the shared cells that run them inside a verified lock, and what a
  writer that blocks the other handles for a resize does with each action
  it finds.
- `v5/queue.rs` – growing the ring of slots keeps the queued slots in order.
- `external.rs` – crossbeam's channels behind the channel traits, whose
  sends hand back the very value of a failed send.
- `runner.rs`, `workload.rs`, `aggregate.rs` – the benchmark's runners and
  their bank of event ids (counting from 0, one id per draw, reset to 0),
  the binary event files (written and read back), the steps of the
  sending and receiving threads, the check that a run has a time to live,
  and the joining of the two halves of each
  event.

`app/` is the program: the channel front ends with their locks, threads,
clones and drops, the concurrent queues built from the verified parts, the
file I/O of the benchmark, and the float metrics of the aggregation.
`app/main.rs` runs `benchmark [v1|v2|v3|v4|v5|crossbeam]...` or
`aggregate <dir> [unsafe]`.
