# wasmrs_wasmtime

A wasmRS host provider for the Wasmtime runtime, with the test service
component that it runs, split into a verified library and its runtime glue.

- `src/` (verified with Verus): length-prefixed frame buffers and how they are
  written into a guest's receive buffer (`frame`, `guest_memory`), the
  initialization handshake with a guest as a state machine (`init_protocol`),
  lookups in a guest's operation list (`operations`), and the test service's
  operations and input rules (`service`, `inputs`).
- `app/` (ordinary Rust): the Wasmtime engine provider and call context, the
  store data and host imports, and the asynchronous guest-side wrappers that
  hand requests to the verified code.
- `tests/`: tests of the library on concrete values.
