# spacegame2d

The verified core of a two-player, server-authoritative 2D space game: the
wire protocol and its framing, the handshake and session roster, canonical
world snapshots and their hashes, the objective (relay/core) rules, the
client's connection lifecycle, the UI bridge protocol and the HUD models.
Every function under `src/` carries a contract. Verus proves each one,
except six small wrappers that call the outside crates and `String::push`:
their contracts are believed, and each is stated next to the call it makes.

## Layout

- `src/` — the library, verified with Verus.
  - protocol: `wire`, `message`, `framing`, `handshake`, `session`, `error`,
    `command`, `tick`
  - simulation rules without geometry: `ids`, `config`, `combat`,
    `objective`, `structure`, `events`, `world_state`, `sim_snapshot`,
    `canonical`, `mirror`
  - server decisions: `server`, `server_step`, `roster`, `match_session`,
    `checksum`
  - client decisions: `client_net`, `session_lifecycle`, `ui_bridge`,
    `client_control`, `match_presenter`, `selection`, `input`, `actuator`,
    `presentation`, `hud`
  - UI protocol: `ui_protocol`, `identity`, `text`
- `tests/` — tests run against the compiled library.
- `app/` — a headless client: sockets, the clock, JSON and protobuf codecs,
  and standard output.

## Outside crates

`blake3` hashes canonical snapshots, `unicode-normalization`,
`unicode-segmentation` and `unicode-general-category` judge display names,
and `serde_json` tells whether a UI message is JSON at all; each call sits
behind a small wrapper whose contract is stated next to it. `prost` and
`serde` are used by `app/` only.

## Collections

Where the game keeps ordered maps, sets and queues (pending checksum
reports, the checksum history, the command schedule, the seated players,
the selection), the library keeps a `Vec` with its invariant stated next to
it: sorted by tick and then by arrival, without repeats, or capped. The keys
are ticks and player ids, structs whose `Ord` is derived; vstd's
specifications of `BTreeMap` and `BTreeSet` promise an order only for keys
whose comparison it has a specification for, and Verus does not read a
derived `Ord`, so the order these collections keep could not be stated
through them. The short queues hold at most a few dozen entries, and a
`Vec` lets one contract speak of the order, the cap and the contents at
once.
