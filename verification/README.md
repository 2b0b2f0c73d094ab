# multiplayer

The decision logic of a two-peer (host/guest) multiplayer layer for a
Bevy strategy game, verified with Verus.

- `src/` is the verified library. Every public function states in its
  `ensures` what it returns or changes; the properties that span several
  calls (a pause reaches the other peer, only its owner resumes it, a reset
  is idempotent, a snapshot makes the ghosts converge on the host's units,
  wire encodings round-trip, ...) are public proof functions named
  `lemma_*`.
  - `packets`: the one-byte framing of unreliable packets and the per-frame
    "latest packet of a kind" split.
  - `protocol`, `session`: the reliable messages and the session model.
  - `coop_pause`: the synchronized co-op pause protocol, paced by the
    countdown timers of `timer` (which tick through Bevy's `Timer`).
  - `loading`: the deterministic spawn queue, the one task run per frame and
    the "both peers loaded" handshake.
  - `scoring`, `coop`: match ends, scoreboards and the co-op lifecycle.
  - `flags`, `status`, `forwarding`, `dispel`, `obstacles`: the unit-flag and
    status wires and the routing of the peers' requests to the units they name;
    `status_apply`: the components a forwarded status puts on its unit.
  - `ghosts`: the guest's reconciliation of ghosts with the host's snapshot.
  - `layout`: where units start and which markers they carry.
  - `reset`: the single return to a cold-boot baseline.
- `app/` is the Bevy glue: ECS markers and resources, the systems that feed
  the library each frame (pause, loading, status forwarding and receipt, the
  guest's requests, match end, reset), the bincode wire and the
  floating-point edges.
- `tests/` runs the library on concrete values.

Floating-point payloads cross the library as their IEEE-754 bit patterns,
which the verified code copies and, where a status falls back to a default
for a non-positive magnitude, compares with zero by the pattern.
