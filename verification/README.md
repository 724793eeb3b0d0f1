# srsly

A TUI serial console that separates kernel messages from application output, with
its logic verified in Verus.

- `src/` is the library. `filter` splits the serial stream; `terminal` is a pane with
  scrollback and incremental search; `app` and `input` are the application's state and
  its modal keys; `area` and `ui` lay the screen out and say what it shows; `tui`,
  `session` and `serial` hold the decisions of the event loop, of a connection and of
  the port's reader; `ports` lists and names the machine's ports.
- `app/` is the program around it: arguments, the serial port, the terminal, drawing.
- `tests/` runs the library on concrete values.

Functions whose names begin with `law_` state what holds of several operations
together: that no byte of the stream is lost, that a search finds every match and
shows one, that the panes tile the screen, that Insert mode needs a connection.

The crates `vt100`, `regex`, `ratatui`, `smallvec` and `tokio` are called through
items whose contracts are taken on trust; each says which function it calls and what
is claimed of it.
