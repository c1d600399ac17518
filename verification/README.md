# bopen

A terminal browser launcher for Linux: it opens a URL in a chosen browser,
profile and Firefox container, with incognito and new-window options, and
opens it directly when one of the configured URL patterns matches.

## Layout

- `src/` — the library, verified with Verus. Each public function states in
  its contract what it returns or how it changes the state; the laws of the
  library are public proof functions named `lemma_*`.
  - `text.rs` — character-level string operations, and editing a text at a
    cursor that moves over whole characters.
  - `url_pattern.rs` — URL patterns, matching (through the `regex` crate) and
    validation.
  - `browser.rs` — `.desktop` entries, which of them are browsers, and
    removing browsers that run the same binary.
  - `profile.rs` — browser families, `profiles.ini` and the profile paths it
    gives, Firefox containers, Chromium profile directories.
  - `json.rs` — the JSON of Firefox's `containers.json` and of Chromium's
    `Preferences` (parsed through `serde_json`).
  - `launcher.rs` — the command line that starts a browser.
  - `app.rs`, `pattern_manager.rs` — the two screens as state machines; a step
    that needs the disk returns a request that the caller answers.
  - `screen.rs` — what each screen shows; `session.rs` — where key presses go.
  - `auto_launch.rs` — the choices made when a pattern matches on start-up.
- `app/` — the program: command line, configuration file, file system,
  clipboard, starting the browser, and drawing with ratatui.
- `tests/` — tests of the library.
