# mytypeless

The core of a voice-typing desktop app, verified with Verus: it builds the
system prompts for the polishing and audio-native models, prepares audio for
upload (silence collapsing, WAV wrapping, base64), reads the audio model's
JSON edit replies, decides how text reaches the focused application, keeps
the settings normalized, and detects a clean tap of the macOS Fn key.

Layout:

- `src/` — the verified library. `text` (character-level string helpers),
  `prompt`, `audio`, `doubao` (requests and replies of the audio model),
  `output`, `storage`, `sound`, `fn_tap`, and `outside` (the calls into
  `base64`, `serde_json` and the standard library that are trusted rather
  than proved). Each module ends with the laws it proves.
- `tests/` — executable tests of the library.
- `app/` — the desktop shell: Tauri commands, keyboard and clipboard I/O,
  SQLite stores, HTTP calls and audio playback.
