//! The reliable peer messages whose handling this library decides. Every
//! message of another kind travels as `Other` and is re-queued untouched for
//! the system that owns it. Floating-point payloads travel as their IEEE-754
//! bit patterns (`f32::to_bits`), which the decisions only copy.

use vstd::prelude::*;
use crate::session::SessionMode;

verus! {

/// Outcome of a versus match as the host announces it.
#[derive(PartialEq, Eq, Structural, Clone, Copy, Debug)]
pub enum GameOverResult {
    HostWins,
    GuestWins,
}

/// The host's side-neutral end-of-match summary.
#[derive(PartialEq, Eq, Structural, Clone, Copy, Debug)]
pub struct HostMatchSummary {
    pub defenders_killed: u32,
    pub attackers_and_undead_killed: u32,
    /// Bit pattern of the host wizard's spell damage.
    pub host_spell_damage: u32,
    /// Bit pattern of the host wizard's spell healing.
    pub host_spell_healing: u32,
}

/// A rectangle by the bit patterns of its corners' coordinates.
#[derive(PartialEq, Eq, Structural, Clone, Copy, Debug)]
pub struct RectBits {
    pub x0: u32,
    pub y0: u32,
    pub x1: u32,
    pub y1: u32,
}

/// The authoritative co-op pause state as it is broadcast.
#[derive(PartialEq, Eq, Structural, Clone, Copy, Debug)]
pub struct PauseSync {
    pub paused: bool,
    pub initiator_is_host: bool,
}

/// A reliable message between the peers. `M` carries every message kind this
/// library does not handle.
#[derive(Debug, PartialEq, Eq)]
pub enum PeerMessage<M> {
    CoopPauseSync { paused: bool, initiator_is_host: bool },
    GameLoaded,
    Forfeit,
    GameOver { result: GameOverResult, summary: HostMatchSummary },
    /// Bit patterns of the guest wizard's spell damage and healing.
    WizardStatsReport { spell_damage: u32, spell_healing: u32 },
    CoopLevelOver {
        victory: bool,
        level: u32,
        defenders_killed: u32,
        attackers_killed: u32,
        undead_killed: u32,
        /// Bit pattern of the match clock in seconds.
        elapsed_time: u32,
        host_spell_damage: u32,
        host_spell_healing: u32,
    },
    CoopRunEnded { victory: bool },
    StartGame { seed: u64, coop_mode: SessionMode, level: u32, urgent: bool },
    /// Guest asks the host to raise one of its corpses as undead. `empowerment`
    /// is a bit pattern.
    RaiseCorpse { target_network_id: u32, flags: u32, empowerment: u32 },
    /// Guest asks the host to apply a status to one of its units; `kind` is
    /// the status ordinal, `duration` and `magnitude` are bit patterns.
    ApplyStatusEffect { target_network_id: u32, kind: u8, duration: u32, magnitude: u32, flags: u32 },
    /// A guest spell hit a host unit; carries only what the host needs to
    /// stack the right status (`damage` is a bit pattern).
    SpellHitUnit { target_network_id: u32, damage: u32, damage_type: u8 },
    /// Guest asks the host to teleport the units around `source` to `dest`
    /// (bit patterns of the ground coordinates and the radius).
    TeleportUnits { source_x: u32, source_z: u32, dest_x: u32, dest_z: u32, radius: u32 },
    /// A wall was placed (or removed) on the sender's side.
    WallPlaced { bounds: RectBits, placed: bool },
    /// Despawn the receiver's spell effect with this (resolved) id.
    DispelSpellEffect { target_network_id: u32 },
    /// Strip the spell shield from the receiver's unit with this id.
    DispelShield { target_network_id: u32 },
    Other(M),
}

} // verus!
