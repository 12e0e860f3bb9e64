# smog

Asymmetric coroutines driven by hand. A coroutine is an `async` function that talks to the outside world
through a *portal*; a `Driver` advances it, hands out the portal's events and, at the end, the coroutine's
result.

## Layout

- `src/lib.rs`: `Driver`, `Storage`, `AsStorage`, `CoroPoll`, `PollError`, and `settle`, the decision a
  driver takes after it has polled the coroutine.
- `src/builder.rs`: building a driver in three steps.
- `src/portal.rs`: the `PortalFront` and `PortalBack` traits.
- `src/portal/input.rs`, `src/portal/output.rs`, `src/portal/inout.rs`: the portals. Each has a state
  machine (`InState`, `OutState`, `InOutState`) whose transitions are specified exactly and whose
  protocol laws are proved. The front keeps the state and lends it to the back side, through a shared
  cell, while the coroutine runs. `inout.rs` also holds the facade.
- `src/cell.rs`: the cell through which a front lends its state to the back side.
- `src/task.rs`: the few calls into std that the library makes (pinning a future, polling it once,
  turning a polling step into a future, sharing a pointer), and `FutureSlot`, a pinned future that has
  not completed, with the future it was made from and how often it was polled.

## What is proved

The state machines of the portals, the fronts that keep their state, the driver's decisions and the
facade are verified against their contracts. While the state is lent, it sits in a cell whose contents
the proofs do not see: what the coroutine does with it is known only through the state it hands back.
A coroutine's own code is ordinary Rust and is only run.
