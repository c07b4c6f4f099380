# bevymmo

The game rules of a small online action RPG as a Verus-verified library.

- `src/` — the library. Each module states its rules as spec functions and
  proves the executable functions against them; `law_*` proof functions state
  properties that span several calls (conservation of items and Gold, round
  trips through storage, monotone boss phases, and so on).
- `tests/` — ordinary Rust tests of the library on concrete values.
- `app/` — the process entry point: command-line parsing, environment and
  clock access, around the library's configuration rules.

Database access, networking, rendering and all floating-point geometry are
left to the host; the library receives the facts those layers measure
(booleans, ids, counts, strings) and returns decisions.
