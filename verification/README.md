# spark

The verified core of an application networking framework: clocks, buffers, routing, the
pipeline's routing handlers, runtime settings that are switched while the system runs,
transport rules, call switching, contract test suites, hosting, and tracing.

- `src/` is the library. Every function is verified with Verus against its contract. What it
  takes from other crates (`bytes`, `opentelemetry`, `opentelemetry_sdk`, `syn`) and from `std`
  beyond what `vstd` describes stands behind small trusted items, each with a doc comment that
  says what is believed of it.
- `tests/` runs the library on concrete values, with those crates linked.
- `app/` is ordinary Rust around the library: threads, locks, sockets, the tasks that carry out
  what handlers and the switch ask for, the process-wide tracing set-up, the driver of the
  contract tests, and the expansion of their attribute.

Work that has to wait for something (a socket, a service, a lock) is split: the library decides,
on plain values, what follows from each outcome, and `app/` waits and reports the outcome.
