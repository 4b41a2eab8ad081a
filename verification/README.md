# rplayer

The logic of a small desktop music player, verified with Verus.

- `src/model.rs` — tabs, search modes, providers and online songs.
- `src/text.rs` — character-level text rules: white space, substring and suffix
  tests, decimal numerals.
- `src/json.rs` — the JSON documents that the online catalogues answer with.
- `src/catalog.rs` — search addresses, reading search answers, choosing the file
  of an Archive.org item, and where a downloaded song is fetched from and saved.
- `src/player.rs` — the player's state machine: `PlayerState::update` takes an
  event and returns the work to do (load a song, search, download, ...), as the
  spec function `step` describes.
- `src/screen.rs` — what the window shows: labels, the filtered song list and the
  time label.
- `src/laws.rs` — properties of the whole: round trips, invariants, limits.
- `app/` — the window, audio output, file system and network around the library.

Times are kept in milliseconds; the window converts the slider's seconds.
