# planetside

Logic of a Planetside 2 kill-feed toolkit, verified with Verus.

- `src/json.rs` — the JSON values of the census push service, and reading a JSON text.
- `src/events.rs` — subscriptions, event records, and reading push messages.
- `src/character.rs` — character records and the outcome of a character lookup.
- `src/feed.rs` — the kill feed ring, with its laws (newest first, at most `size` lines).
- `src/overlay.rs` — factions, servers, the kill tally table, the match timer and state,
  and what a destroyed vehicle adds to the overlay.
- `src/ops.rs` — the ops bot's chat commands and channels.
- `src/text.rs` — decimal rendering and column padding.

`app/` holds the programs around the library: the overlay window, the push-service
listener, the census HTTP client, and the console and Discord tools.
