//! Who is who in a match: peer roles, session modes, the wizard archetypes the
//! multiplayer rules single out, and the connection / game state machines the
//! decisions read.

use vstd::prelude::*;

verus! {

/// Which side of the peer-to-peer link this process is.
#[derive(PartialEq, Eq, Structural, Clone, Copy, Debug)]
pub enum PeerRole {
    Host,
    Guest,
}

/// The kind of match a session plays.
#[derive(PartialEq, Eq, Structural, Clone, Copy, Debug)]
pub enum SessionMode {
    /// Head-to-head: host commands the Defenders, guest the Attackers.
    Versus,
    /// Co-op on the endless battlefield.
    CoopEndless,
    /// Co-op on the roguelite battlefield.
    CoopRoguelite,
}

/// Wizard archetypes. The ones the multiplayer rules treat specially are
/// named; every other archetype is `Other`.
#[derive(PartialEq, Eq, Structural, Clone, Copy, Debug)]
pub enum WizardType {
    BoringOleMage,
    Excremage,
    Warglock,
    Randomancer,
    Shepherd,
    Arcanorouter,
    Other,
}

/// The side a unit fights for.
#[derive(PartialEq, Eq, Structural, Clone, Copy, Debug)]
pub enum Team {
    Defenders,
    Attackers,
    Undead,
}

/// The negotiated multiplayer session.
#[derive(Clone, Copy, Debug)]
pub struct MultiplayerSession {
    pub role: PeerRole,
    pub mode: SessionMode,
    pub host_wizard: WizardType,
    pub guest_wizard: WizardType,
    /// The Urgent roguelite toggle: in co-op the simulation keeps running
    /// while menus are open, so pause stays local.
    pub coop_urgent: bool,
}

/// Transport-level connection state.
#[derive(PartialEq, Eq, Structural, Clone, Copy, Debug)]
pub enum ConnectionState {
    Disconnected,
    Connecting,
    Connected,
    Failed,
}

/// Gameplay state of the single-player state machine (the co-op host plays
/// its match here).
#[derive(PartialEq, Eq, Structural, Clone, Copy, Debug)]
pub enum InGameState {
    Running,
    Paused,
    ScoreScreen,
}

/// Gameplay state of the multiplayer state machine (versus peers and every
/// guest play here).
#[derive(PartialEq, Eq, Structural, Clone, Copy, Debug)]
pub enum MultiplayerGameState {
    Running,
    Paused,
    ScoreScreen,
    Disconnected,
}

pub open spec fn spec_is_coop(mode: SessionMode) -> bool {
    mode == SessionMode::CoopEndless || mode == SessionMode::CoopRoguelite
}

impl MultiplayerSession {
    /// True for either co-op mode.
    pub fn is_coop(&self) -> (r: bool)
        ensures
            r == spec_is_coop(self.mode),
    {
        match self.mode {
            SessionMode::Versus => false,
            _ => true,
        }
    }

    /// Synchronized pause applies to co-op matches without the Urgent toggle.
    pub fn coop_pause_synced(&self) -> (r: bool)
        ensures
            r == (spec_is_coop(self.mode) && !self.coop_urgent),
    {
        self.is_coop() && !self.coop_urgent
    }

    /// The opponent's (or partner's) wizard as seen from this peer.
    pub fn remote_wizard(&self) -> (w: WizardType)
        ensures
            w == (if self.role == PeerRole::Host { self.guest_wizard } else { self.host_wizard }),
    {
        match self.role {
            PeerRole::Host => self.guest_wizard,
            PeerRole::Guest => self.host_wizard,
        }
    }
}

/// True when this peer is the co-op host.
pub fn is_coop_host(session: Option<&MultiplayerSession>) -> (r: bool)
    ensures
        r == match session {
            Some(s) => spec_is_coop(s.mode) && s.role == PeerRole::Host,
            None => false,
        },
{
    match session {
        Some(s) => s.is_coop() && s.role == PeerRole::Host,
        None => false,
    }
}

/// True when the opponent plays the Excremage (their spell ghosts get the
/// browned theme on this machine).
pub fn is_remote_excremage(session: Option<&MultiplayerSession>) -> (r: bool)
    ensures
        r == match session {
            Some(s) => (if s.role == PeerRole::Host { s.guest_wizard } else { s.host_wizard })
                == WizardType::Excremage,
            None => false,
        },
{
    match session {
        Some(s) => s.remote_wizard() == WizardType::Excremage,
        None => false,
    }
}

} // verus!
