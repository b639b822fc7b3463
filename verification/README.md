# ptimer

A pomodoro timer for the command line. `ptimer new 25` starts a daemon that
holds a 25-minute timer; `status`, `pause`, `resume` and `stop` talk to it
over gRPC on a Unix socket; finished timers are kept in a SQLite history
that `history` shows.

- `src/` is the verified library: the timer's state machine (`state`, and
  the variant in `command::start` whose status counts the seconds left), what
  the daemon does with requests and
  when it shuts down (`grpc`), the command line's decisions and the reading
  of a timer's length (`cli`), the file paths (`config`), the history
  listing (`history`, `db`), and the texts shown (`text`, `notification`).
  Laws about these stand beside them as proof functions.
- `app/` is the program around it: clap, the tokio runtime, the gRPC
  transport, the daemon, SQLite and `osascript`.
- `tests/` runs the library on concrete values.
