# notes_tui

The core of a terminal client for a notes service, written and proved in Verus. The
client shows accounts, folders and notes, searches them, edits rich text, and keeps a
cache, a session and a draft of what is being edited.

## How it is laid out

- `src/` is the library. It does no input or output. `App` turns keys and arrivals into
  a new state and, where something outside is needed, into an `Effect` that the host
  performs and answers with `resume`. Work in the background is ordered through
  `take_orders` and handed in with `poll_periodic_refresh`.
- `app/` is the host: the terminal, the files, the threads and the notes service.
- `tests/` runs the library on concrete values.

## How the contracts read

Every state has a model (`AppModel`, `EditModel`, documents as sequences of blocks), and
each function says which model follows from the one before. The properties that relate
several functions are public proof functions whose names begin with `law_`; most stand in
`app_laws`, `client_laws`, `editor_laws`, `config_laws` and `returning_laws`.

What is taken on trust is small: four functions of the standard library in `text`, the
number that `serde_json` reads in `draft`, and the width that `unicode-width` gives a
text in `edit`.
