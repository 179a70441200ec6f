# demo_synth

A demonstration speech-synthesizer engine for a UniMRCP server, written as a
Verus library (`src/`) with a thin C-facing plugin layer (`app/`).

- `src/protocol.rs`: MRCP synthesizer method and header identifiers, and the
  engine's fixed parameters.
- `src/header.rs`: header sections as presence flags, header allocation, C
  string lengths.
- `src/channel.rs`: the channel state machine: request dispatch (SET-PARAMS,
  GET-PARAMS, SPEAK, STOP, PAUSE, RESUME, BARGE-IN-OCCURRED), audio frames,
  SPEAK completion. Each operation is specified by a spec step function.
- `src/laws.rs`: properties over several steps (STOP answered at the next
  frame, pause/resume, the silence countdown of a SPEAK without speech source).
- `src/engine.rs`: the engine's consumer task, task messages, codec
  capabilities.
- `app/`: the plugin entry point, callback tables, APR/UniMRCP declarations,
  file reads and frame buffers.
