# rustjslich

A Lichess playing assistant: it asks a UCI engine (Stockfish) for several
candidate moves, picks one of them with weighted variety and occasional
intentional inaccuracies, waits a human-like delay, and sends the move either
through a browser extension or through the Lichess game socket.

The decision logic is a Verus-verified library (`src/`); the program around it
(`app/`) does the input and output.

## Layout

- `src/board.rs` – positions (FEN text) and moves (`UciMove`), and the calls into
  the `chess` crate, each behind a specified wrapper.
- `src/chess_logic.rs` – `GameState`: applying moves, turn, captures, material draws.
- `src/engine/` – the engine interface, the engine manager, and the UCI text the
  program writes and reads (`info` lines, `go`, `setoption`, `position`).
- `src/timing.rs` – timing presets, human-like delays, lag compensation.
- `src/move_selector.rs` – varied move selection and its statistics.
- `src/game_manager.rs` – the game's decisions: socket events, browser messages,
  turns, how a move is sent; SAN replay of the browser's move list.
- `src/lichess/` – socket messages and events, the move request, the reconnection
  back-off.
- `src/ui/` – what the terminal shows and the hotkeys.
- `src/config.rs`, `src/cli.rs` – settings and command-line values.
- `src/text.rs`, `src/rng.rs` – string helpers and random draws.
- `app/` – `main`, the Stockfish process, the WebSocket server for the browser
  extension, the Lichess socket, the terminal, TOML and JSON forms of the
  library's types, and the loop that runs the game manager's decisions.
- `tests/` – tests of the library.
