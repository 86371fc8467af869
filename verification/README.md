# mux

The verified core of a terminal multiplexer built around an embedded zellij
server.

- `src/` is the verified library:
  - `ids` — identifier counters (wrapping like an atomic `fetch_add`), with
    proofs that identifiers are distinct until the counter wraps and that it
    cycles after `usize::MAX + 1` allocations;
  - `error`, `text` — the errors and their messages, with decimal rendering
    of identifiers;
  - `search` — the first element of a sequence that satisfies a predicate;
  - `terminal` — terminal sizes;
  - `tab` — tabs, their panes and active pane, and the split types;
  - `domain`, `ssh` — domains and the steps of spawning and splitting;
  - `mux_tabs` — the registry of tabs in their windows, with `spawn` and
    `split_pane`;
  - `render_cache` — the per-pane render cache;
  - `zellij` — the state of a zellij-backed pane and the messages it sends;
  - `run_with_mux` — options of the GUI entry point.
- `app/` is the program around it: process-wide counters, the zellij wire
  format and channel, and the local terminal mirror.
- `tests/` exercises the library.
