# unit3d_announce

The logic of UNIT3D's BitTorrent tracker, verified with Verus.

- `src/` is the library. `handler` holds the announce itself: screening the
  request (`screen_announce`), updating the torrent and answering
  (`announce_on_torrent`), and settling the user and the records for the
  database (`settle_announce`). `announce` reads the query string, `peer_list`
  chooses and encodes the peers handed out, `response` writes the bencoded
  answer, `reap` expires stale peers, and `counts` proves that the announce
  and the expiry keep each torrent's seed and leech counts in step with its
  peers. `config` reads the settings from their text and `rate_limit`
  splits the text of the rate limits. The stores and queues of the tracker
  keep their data in `indexmap` collections, reached through the trusted
  items of `collections`.
- `app/` is the server around it: reading the environment, the
  database (`sqlx`), the HTTP routes (`axum`), the connectivity probe, the
  scheduler, and the floating point rates and statistics.
- `tests/` runs the library on concrete values.
