# session_core

The decisions of an agent session, verified with Verus: how submissions are dispatched, how input
is queued for a turn, how a turn is started, steered and rolled back, how work is injected from
outside, how saved persistence is restored, and how agents spawn, message and close each other.

- `src/` is the library. Work that waits on a lock, a channel or a store is split into steps: a
  step takes the state and what just came back, and says what to do next. A `*_next` function
  states the table of a machine, `*_run` what a sequence of events leads to, and `law_*` what
  holds of every run.
- `tests/` exercises the library from outside.
- `app/` is the asynchronous shell: it performs what the library asks for.
