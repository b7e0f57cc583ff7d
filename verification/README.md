# gambit

A chess board game against the Stockfish engine, with its game logic verified by Verus.

- `src/` is the library: squares and pieces, the board state and its invariant, the mouse
  selection state machine, move planning, captures and material advantage, the engine's command
  queue and reply parsing, the engine build plan, and the FEN editor. Every function there has a
  contract that Verus proves. The calls into the `chess` and `shell-escape` crates stand behind
  trusted wrappers in `src/chess_calls.rs` and `src/stockfish_build.rs`, each with a doc comment
  saying what its contract claims of the outside code.
- `app/` is a terminal front end: it reads moves and commands, runs the engine process, carries
  out the engine build steps (download, unzip, `make`), and prints the board.
- `tests/` runs the library on concrete positions.
