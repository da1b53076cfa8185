# rustdv (verified core)

The verified core of a Rust hardware-verification framework, written in
Verus. `src/` holds the logic with its contracts and laws; `app/` holds the
simulator plumbing (C ABI calls into the simulator, callback trampolines,
futures and thread-locals) that acts on the library's decisions.

- `stream_model` — the stream-throughput benchmark model: the seeded
  schedule (`mix64`, payloads, sidebands, digests) and the cycle checker.
- `bench` — which drive signals change each cycle, how samples become model
  inputs, and how a step maps onto a cycle status.
- `cycle` — cycle statuses and their ABI numbers, the ABI description, the
  `CycleModel` trait, and the export context with its NUL-free error text.
- `gpi_sys`, `gpi` — interface codes, object classification, handle errors,
  four-state vector words, simulation-time words, callback registrations
  and their ownership state machine.
- `sim` — typed handles, the phase hub with its last-write-wins buffer,
  timers and edge triggers, and the trace host's requests and replies.
- `text` — decimal and hexadecimal rendering for the messages.
