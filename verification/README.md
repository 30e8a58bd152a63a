# discourse_tui

A terminal client for Discourse forums. The library (`src/`) holds the
client's logic, verified with Verus; `app/` is the program around it: the
terminal, the network, and the configuration file.

## Library

- `config`: the forums the user has set up and the current choice.
- `app`: the single-window client (forum picker, forum form, topic list, topic view).
- `app_simple`, `handlers`: the multi-screen client and what each key does on
  its screens; keys that need the disk or the network hand back a `Command`.
- `api`: the parts of the forum's replies that the client reads.
- `list_state`: list highlights and wrap-around movement.
- `color`: hex colours of categories.
- `images`: image addresses in a post's HTML (through the `regex` crate).
- `screens`, `ui`: the texts the screens show (wrapped chat messages, post
  text without HTML, notification lines, titles).
- `text`: string helpers shared by the above.

## Program

`app/main.rs` runs the event loop: it draws the screen with `ratatui`, reads a
key with `crossterm`, hands it to the library, and carries out the command
that comes back (saving `config.toml`, fetching from the forum with
`discourse-api-rs`).
