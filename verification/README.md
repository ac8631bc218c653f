# codex-cua-resume-assist

A conservative, screen-aware helper for the Codex CLI: it decides whether work
may resume after a usage limit has recovered, and by default only observes.

- `src/` is the verified library (Verus): argument and environment handling,
  planning of every external command, WSL/Windows path conversion, reading the
  model's replies (`Json`), the decision and execution rules, the prompt and
  request bodies, the run record, and the pure parts of the Windows capture
  helper. `src/laws.rs` states and proves the library-wide properties.
- `app/` is the program around it: environment, processes, files, HTTP,
  JSON text parsing, Win32 calls and the floating-point confidence.
- `tests/` exercises the library on concrete values.
