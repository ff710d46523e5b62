# nanowave

The logic of the nanowave audio player for the LicheeRV board, written in
Verus. The functions in `src/` carry contracts that Verus proves, except a
few small wrappers around std, chrono and xxhash-rust calls (marked
`#[verifier::external_body]`), whose contracts are trusted as stated in their
doc comments.

- `src/` — the library: the player's decisions (chapters, "next", "previous",
  relative seeks, the tick), the input handler's click and hold rules, the
  display controller and its auto-off scheduler, the file scanner's extension
  filter, the metadata retriever (relative locations, chapters from chapter
  marks, picture cache entries), the mapping between database rows and media
  items, navigation history, and the text and time helpers they use.
- `tests/` — tests of the library on concrete values.
- `app/` — the program around it: the tokio services, device access (GPIO,
  evdev, sysfs, battery gauge), tag reading with lofty and mp4ameta, image
  resizing, the websocket client and the volume curve.

The program in `app/` runs without the original's Slint touch interface,
its SQLite database and its audio output (none of them is built here):
scanned items and the playback history are kept in memory, and playback
runs on a silent output that only keeps time. The `media_source` crate of
the original project is not available either; its types are defined in
`src/media_source.rs`.
