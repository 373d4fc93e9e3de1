# klh

A small text editor and the messaging core that its plugins talk through,
with the editing, routing and plugin logic verified by Verus.

## Layout

- `src/` — the verified library.
  - `buffer`, `buffer_store`, `buffer_provider`: the line buffer, its
    invariant, and the laws of moving, appending and deleting
    (`buffer/buffer_laws.rs`).
  - `input_handler`, `command_executor`, `session`: how keystrokes become
    commands, what each command does to a buffer, and the editing
    session's lifecycle.
  - `content_editor`: the single-string editor, whose point indexes UTF-8
    bytes, and where its cursor is drawn.
  - `ui`: which window events become inputs.
  - `client_menu`: the entries of the interactive client's menu.
  - `klh_core`: message types, the routing table of plugins, the
    one-time channel ends, and the buffers, display and diagnostics
    plugins' request handling, with the laws that reading gives back what
    was written.
- `tests/` — tests of the library on concrete values.
- `app/` — the program around the library: the iced window, terminal
  input and output, files, the tokio runtime that carries messages to
  plugins, and the BSON encoding of message content. `app/main.rs` starts
  the editor; `app/test_client.rs` holds the interactive client, started
  by `test_client::run`.
