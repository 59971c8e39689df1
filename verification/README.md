# interruptible_polling

RAII polling tasks: a closure runs on a background thread (or tokio task) at
an interval, and the handle stops it promptly when cancelled or dropped,
optionally waiting, with or without a timeout, for the task to confirm its
exit.

Layout:

- `src/` is the verified library: the polling loop as a state machine
  (`poll_loop`), the owner's stop protocol and exit policies (`exit`), the
  millisecond interval arithmetic (`interval`), the builders of the `sync`,
  `sync2` and `tokio` flavours, the error types, and the tokio task checker
  over `tokio_util`'s cancellation token.
- `app/` runs those decisions with threads, locks, channels and the tokio
  runtime, and holds the handles (which implement `Drop`) and the error types
  with `Display`.
- `tests/` exercises the library on concrete values.
