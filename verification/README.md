# board_con

The logic behind a chess board in a QML user interface, verified with Verus.

- `src/chess.rs` — squares, pieces, moves as plain numbers, and the move accessors.
- `src/position.rs` — the queries on a position (legal moves, playing a move,
  pieces, side to move), answered by the `shakmaty` crate on the position's FEN.
- `src/board.rs` — the current position and the queries the controller makes.
- `src/signals.rs`, `src/slots.rs` — what the controller sends to the interface,
  and the events it reacts to.
- `src/controller.rs` — the controller: each slot gives a new state and the
  signals to send, stated exactly by spec functions.
- `src/board_con.rs` — the interface object: its properties, how a signal
  changes them, and the slots it sends for mouse actions.
- `src/laws.rs` — properties over all inputs (only legal moves are played, a
  waiting promotion is abandoned by a click, the selection mark follows the
  controller, ...).
- `app/` — the Qt glue (cxx-qt object, threads and channels); not verified.
