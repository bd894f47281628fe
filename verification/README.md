# escrow

Escrow watches accounts on YouTube and X, takes in what they publish, and
holds the media for a fixed number of days. Once the source has been seen
holding an item until the deadline, the copy is discarded; if the source
loses the item first, the copy is kept for good and handed over.

## Layout

- `src/` — the library, verified with Verus: the item state machine and its
  ledger replay, canonical URLs, the settings and where they point, the asset
  naming rule, the free-space check, the failure handling of a round and the
  passes a runner drives over the queues, the liveness verdict, the argument lists of the external tools and the reading
  of what they write, the handover, and the list the screen shows.
- `tests/` — tests of the library on concrete values.
- `app/` — the command line and the edges the library does not reach: the
  settings file (TOML), the user's directories, free space on disk, the media
  directory, running the tools, and decoding their JSON and the channel feed.
