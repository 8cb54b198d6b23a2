# nyaterm

The core logic of the NyaTerm terminal, written in Verus: each function
states what it does in its contract, and Verus proves it.

## Layout

- `src/` — the verified library.
  - `text.rs` — character classes, trimming and string building blocks.
  - `dynamic_title.rs` — cleaning the titles that programs give terminal tabs.
  - `reconnect_cwd.rs` — the shell command that restores the working folder.
  - `quick_command.rs`, `quick_command_state.rs`, `command_catalog.rs`,
    `category_dialogs.rs`, `quick_command_delete.rs` — quick commands:
    editor drafts, dialogs, pickers, categories, deletions and use counts.
  - `command_suggestions.rs`, `suggestion_keys.rs`, `suggestion_refresh.rs`
    — the command suggestion popup: its selection, its keys, and when and
    what it searches for as the user types.
  - `context_menu.rs`, `ai_request.rs` — the terminal context menu.
  - `activity_bar.rs`, `activity_selection.rs`, `activity_moves.rs`,
    `panels.rs` — the side activity bars, the panels they open, and hiding,
    dragging and resetting their entries.
  - `header_status.rs`, `stats.rs` — title bar and resource monitor bits.
  - `text_editor.rs`, `editor_buffer.rs` — the remote file editor: cursor
    arithmetic over UTF-8 text, and the editing state with its history.
  - `settings/` — the settings document: reading it into a summary,
    normalising values, and storing each group of settings.
- `app/` — what the library leaves to its host: JSON text, floating-point
  settings, the clipboard and on-screen geometry.
- `tests/` — tests that run the library on concrete values.
