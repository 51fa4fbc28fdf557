# brush_embedded

The parts of the brush shell that let it live inside another program, as a verified library.

- `src/sys` turns terminal operations into scripts that a host evaluates, and the host's replies
  into results. `sys::wasm` waits for a call back, `sys::wasm_shim` watches for the reply; what
  both share (cookies, requests, scripts, replies) is in `sys::host`.
- `src/embedded` takes a run of the shell from its raw command line to its exit code, step by step:
  `session` gives the steps, `launch`, `options` and `run` the decisions behind them.
- The modules named `laws` state and prove what holds of several operations together.
- `app` does what the library decides: it reads and writes files, wakes tasks, parses arguments,
  drives the shell and resets the terminal.

Replies are parsed with `serde_json`: what a text parses to is named, not defined, and that the
name depends on the text alone is the one thing that the library takes on trust.
