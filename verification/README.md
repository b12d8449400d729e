# tokio-otp

Actor graphs for Tokio with a verified core: the decisions that the runtime
takes are functions in `src/` with contracts that Verus proves. A contract also
says what its function does to channels, tokens and permits; what other holders
of those do in the meantime is left open.

- `src/` holds the core: building and validating graphs, mailbox bindings and
  restart-stable refs, the run of a graph and of a single actor, blocking
  tasks, the registry, observability records, static topologies, typed graphs
  and the console's configuration, access rules and connection logic.
- `app/` holds what waits and talks to the outside: tasks and timers, tracing
  and metrics, the web server and the derive expansion.
- `tests/` runs the core with the real channels, tokens and semaphores.

Asynchronous work is split into state machines. A driver in `app/` waits for
something to happen, hands the event to the core's `step`, and does what the
returned action says. The contracts describe each machine by a `..._next`
function from state and event to state and action, and the laws about whole
runs are stated over sequences of events.

`src/sync.rs` declares the channels, watched values, tokens and permits that
the core uses, with what is relied on about each of them. What has happened to
one of them, and what was found when it was asked, is carried by a value that
only this module can make. The system's random bytes come in the same way,
through `src/console/random.rs`.
