# orchestrator

The platform side of a boot orchestrator: the driver that carries out a state
machine's effects on a board, the capabilities a board supplies, and the
start-up decisions of the boot orchestrator service. The library is verified
with Verus.

* `src/capabilities/`: the traits a board implements. Each carries relations
  between the state before a call, the answer and the state after. A board
  written in Verus may define them as tightly as it can prove; left alone, they
  promise nothing.
* `src/platform.rs`: component ids, events and effects.
* `src/driver/`: the executors (`platform_driver.rs`), the state they are
  specified over (`state.rs`), what each may do to it (`steps.rs`), and what
  holds over several calls (`laws/`).
* `src/boot_orchestrator/`: wire types, the request handler and the event
  loop's decisions.
* `app/`: the service around the library. `app/device.rs` binds it to the
  Pigweed kernel and to the state machine, and is built for the device only.
