# nomnom

The command-building core of a desktop front end for yt-dlp, written in
Verus: every function in `src/` carries a contract that Verus proves.

- `src/text.rs` — character-level string operations (trailing-slash trimming,
  white space, splitting into words, prefix and infix search).
- `src/download_mode.rs` — download type, source and quality, their labels,
  output templates and format selectors.
- `src/flags.rs` — the registry of yt-dlp flags and their categories.
- `src/presets.rs` — the eight built-in presets and their resolution into flags.
- `src/runner.rs` — command preview, yt-dlp and shell arguments, and the log
  and running state of a download or raw command.
- `src/selection.rs` — the user's current choices (preset, type, source,
  quality, flags).
- `src/style.rs` — inline CSS of the interface and the colour of log lines.

`app/` holds the desktop window (Dioxus) and the process handling (Tokio);
`tests/` exercises the library on concrete values.
