# kanterm

The verified core of a local kanban board that people use from a terminal
screen and AI agents use through a tool server. Both front ends read and
write one card store; this crate holds what they decide, written in Verus
with its contracts proved:

- `src/` — the library. Parsers (`targets`, `hooks`, `plan`), the work
  queues and dependency graphs (`queue`, `graph`, `depgraph`), the texts the
  agent tools answer with (`render`, `read_text`, `listing`, `ranking`,
  `card_list`, `memory_text`, `workflow`, `watch_scan`), and the board
  screen as a state machine (`board_*`): every key press maps the screen's
  state to its next state and, where the card store must act, to an
  `Action` for the front end to carry out. Laws that span several
  operations are public proof functions (`board_laws` and the modules they
  concern).
- `tests/` — tests on concrete values.
- `app/` — a small command-line front end: it reads files, looks at
  processes and prints, and leaves every decision to the library.

Dates, priority badges, staleness and readiness come from the card store;
the library takes them as values.
