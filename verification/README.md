# yeet

The logic of a clipboard-history manager, verified with Verus.

- `src/text.rs` — character-level string operations (trim, search, join)
  with their specifications.
- `src/hashing.rs` — SHA-256 content hashes in lower-case hexadecimal.
- `src/classify.rs` — url / code / text classification and previews.
- `src/clipboard.rs` — pasteboard contents, the monitor of the last
  captured hash, legacy image contents, data URLs.
- `src/capture.rs` — the capture decision and the items it produces.
- `src/window.rs`, `src/hotkey.rs`, `src/watcher.rs`, `src/keyboard.rs` —
  hotkey-mode state and the decisions taken on key events.
- `src/version.rs` — version strings and their order.
- `src/github.rs` — device-flow sign-in and update-check decisions.
- `app/` — the Tauri application: windows, native pasteboard and keyboard
  calls, the SQLite store and network requests.
