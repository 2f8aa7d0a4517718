# fkactor

An actor runtime whose decision logic is verified with Verus.

- `src/` is the verified library: message envelopes and their order
  (`system`), change records and the collections they update (`change`),
  actor ids and their order and text (`aid`, `text`, `uuid_text`), a table
  keyed by actor identity (`table`), and the state machines of the runtime:
  the mailbox that merges an application channel with a system channel
  (`receiver`), the sink that feeds a handler (`run`), the executor's queue
  (`executor`), the fanout subscriber set (`fanout`), reference-counted
  processes (`process`), the monitor registry (`manager`), the builder
  settings (`builder`) and the outcome of a send (`sender`).
- `app/` is the asynchronous runtime around it: channels, tasks, the
  `Handler` trait and the actor system. It drives the library's state
  machines and performs the channel and task operations they ask for.
- `tests/` runs the library on concrete values.
