# prosody

The native layer of the Prosody Ruby gem, split in two.

- `src/` is a Verus-verified library: the decisions and translations the
  native layer makes between Ruby and the Prosody event-processing runtime.
  It covers configuration and keyed-state validation (`config`,
  `keyed_state`), translation of scan keywords into queries (`query`),
  buffered state scans (`scan`), handler validation, task naming and event
  outcomes (`handler`), error messages and retry classification (`errors`,
  `state`, `ruby_bridge`), timer-time conversion (`time`), log-line building
  (`logging`), the bridge's batching (`bridge`), one-time result delivery
  (`result`), the processor's lifecycle flag (`processor`), and the
  `Prosody::Client` method table (`client`). Public functions state their
  results in their contracts. Where a result depends on other threads — which
  caller claims a task's result channel, whether the receiver takes the
  result, what the bridge channel holds, what the processor's shared stop
  flag reads — the contract states what holds whatever the other threads did
  (for a result send: the value handed to the channel, and that nothing is
  taken without the claim), and the decision taken on what the call observed
  is a verified function of its own (`deliver`, `push_received`,
  `admission`, `first_stop`). Scans and log lines keep their invariants as
  type invariants. The `law_*` proof functions state properties that span
  calls.
- `app/` is the Ruby extension around it (magnus classes, the Tokio
  runtime, the thread that runs work on the Ruby VM, and calls into the
  runtime crate), which hands plain values to the library and turns its
  results back into Ruby objects and exceptions.
- `tests/` exercises the library on concrete values.
