# kiri_tui

The terminal front-end of the Kiri coding agent: a composer with a slash-command menu, a streaming transcript with
markdown and highlighted code, approval and plan boxes, pickers, a provider wizard, and an event loop that drives one
agent turn at a time.

- `src/` is the library: everything the front-end decides, with contracts that Verus proves.
  - `domain/` holds the state: transcript, composer, history, pickers, the command menu, the wizard, and the model
    that ties them together.
  - `application/` is the reducer: messages go in, effects come out. `keymap/` is what each key does.
  - `infrastructure/render/` lays out the frame and turns the state into styled rows; `markdown/` parses and
    highlights.
  - `infrastructure/runtime/` is the event loop as decisions: how a turn steps and ends, what a session flush writes,
    what a provider change does. Whatever has to wait or to touch the outside is handed in as a result.
  - `conversation`, `kernel`, `clock`, `style` and `text` are the plain values that all of it is written in.
- `app/` is the terminal around it: drawing, input, the clipboard, the channels to the engine, and the traits that a
  host implements. The two colour animations live there too, since they blend in floating point.
- `tests/` runs the library, together with the crates it builds on.

A contract states what a function does over plain mathematical values (`Seq<char>` for text, views for the types).
The laws of the front-end are public proof functions beside the functions that they speak of: that a paste never
leaves an open wizard, that a cancelled turn keeps the session, that wrapping loses nothing but blanks, that a flush
writes each message once.
