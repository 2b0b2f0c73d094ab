//! Verified decision logic of the multiplayer layer: packet framing and
//! filtering, the synchronized co-op pause protocol, the loading queue and
//! peer handshake, match-end scoring, status/unit flag wire encodings, the
//! routing of peer requests (status effects, spell hits, raised corpses,
//! dispels, walls), ghost reconciliation with the host's snapshot, unit
//! placement, the countdown timer of the pause heartbeat, and the
//! per-session reset.

pub mod packets;
pub mod session;
pub mod protocol;
pub mod coop_pause;
pub mod scoring;
pub mod loading;
pub mod flags;
pub mod status;
pub mod ghosts;
pub mod coop;
pub mod reset;
pub mod layout;
pub mod forwarding;
pub mod dispel;
pub mod obstacles;
pub mod timer;
pub mod status_apply;
