# telegram_codex_bridge

A bridge between a private Telegram chat and a local `codex app-server`, with its decisions
verified in Verus.

- `src/` is the library: commands, configuration, session, JSON-RPC messages, turns, progress,
  polling and what is written to the chat. Each public function has a contract, and the laws that span
  functions are public proof functions whose names begin with `law_`.
- `app/` is the program around it. `main.rs` is the root of the program for the command line,
  `desktop.rs` that of the desktop program, which needs the `tauri` crates.
- `tests/` runs the library on examples.

The library calls `serde_json` to read and print JSON, `reqwest` for HTTP status codes, `tokio` and
`tokio-util` to answer and cancel tasks, `std::path` for the host's path syntax and `str::parse` for
the words of a bad integer. What it relies on of these is stated above each call, in `json.rs`,
`telegram.rs`, `handles.rs`, `workdir.rs` and `config.rs`.

## Commands of the chat

- `/new` creates a Codex thread and makes it active
- `/use <thread_id>` switches to an existing thread
- `/cwd [path|index]` shows or switches the working directory
- `/status` shows the thread, the turn, the working directory, the model and the approval policy
- `/stop` interrupts the running turn
- `/approve [session]` approves what Codex asks for, once or for the session
- `/deny` declines it

Any other text is a prompt for the active thread.

## Configuration

Environment variables count before `bridge.toml`, which has the same names in lower case.
`TELEGRAM_BOT_TOKEN` and `CODEX_CWD` are required. Optional are `TELEGRAM_ALLOWED_USER_ID`,
`CODEX_BINARY` (`codex`), `CODEX_MODEL`, `CODEX_APPROVAL_POLICY` (`never`), `CODEX_SANDBOX_MODE`,
`LOG_PATH` (`bridge.log`), `LOCK_PATH` (`bridge.lock`), `POLL_TIMEOUT_SECONDS` (`30`) and
`UPDATE_LIMIT` (`50`).
