# legado_tauri

The verified core of a Tauri book-reader back end (a "legado"-style reader:
a bookshelf, book sources written in JavaScript, front-end extensions,
caches for comic pages and covers, user fonts, settings and key/value
storage for the front end).

- `src/` is the library, checked by Verus: every file-system location the
  commands use (and the proof that user-given names cannot leave their
  directory), the bookshelf records and their updates, plain-text export,
  directory listings and their order, the JSON text the commands read and
  write (through serde_json), the scripts injected into web views and the
  step-by-step decisions of the browser probe, the charset handling of the
  HTTP proxy (through encoding_rs), and the errors the front end receives.
- `tests/` runs the library on concrete values.
- `app/` is the Tauri application around it: state, file and network I/O,
  windows, and the command handlers, which read, call the library and
  write; serde reads and writes the stored records there, through copies
  of the library's types that carry the serde derives.
