# cargo-embed

Builds a Cargo project, flashes it onto an embedded target and attaches to that target, with GDB or
with a terminal on its RTT channels.

- `src/` decides: it reads the command line and the configuration, and says after each event what to
  do next, what to print and how to end. It is verified with Verus.
  - `run` states how a run goes on, `step` carries it out and `run_laws` proves what holds of every
    run.
  - `arguments`, `artifact`, `config`, `families`, `log_name`, `probe`, `progress`, `report` and
    `text` hold the parts.
- `app/` acts: it talks to Cargo, the probe, the target and the terminal.
- `tests/` holds the tests of `src/`.
