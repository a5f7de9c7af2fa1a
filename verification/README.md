# ur_core — the Royal Game of Ur, verified

The rules of the Royal Game of Ur (Irving Finkel's reconstruction) and the
turn flow of a terminal front end for it, with their contracts proved by Verus.

- `src/` is the verified library.
  - `player`, `board`, `dice`: players, the board shape and paths, the dice.
  - `state`: game states, legal move generation and move application.
  - `laws`: the move rules in words, and the invariants that moves keep.
  - `app`, `gameplay`, `animation`, `input`, `navigation`, `panel`, `text`:
    the state of the terminal app and every decision it takes on a key press
    or a clock tick, down to the text it logs and the dice it shows.
  - `play_laws`: properties of the app that span several operations.
- `app/` is the terminal program: it reads keys, draws with `ratatui`, keeps
  the clock ticking and runs the AI opponent (an expectiminimax search whose
  evaluation is in floating point) in a background thread.
- `tests/` exercise the library on concrete games.
