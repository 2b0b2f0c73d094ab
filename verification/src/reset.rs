//! The one canonical return of the multiplayer stack to its cold-boot
//! baseline. Every teardown path funnels through
//! [`reset_multiplayer_to_baseline`], so there is exactly one list of
//! per-session state to keep correct.
//!
//! Signalling the transport and shutting down the Steam session happen at
//! the edge, before this state reset runs.

use vstd::prelude::*;
use crate::session::{ConnectionState, PeerRole, MultiplayerSession};
use crate::coop::{
    CoopPendingSession, CoopGuestLevel, CoopGuestConnected, CoopLoadingSync, CoopPeerInfo,
};
use crate::coop_pause::{CoopPauseState, fresh_pause_state};

verus! {

/// Which transport the connection runs over.
#[derive(PartialEq, Eq, Structural, Clone, Copy, Debug)]
pub enum ConnectionMode {
    Online,
    Steam,
}

/// The live connection's bookkeeping.
#[derive(Debug, PartialEq, Eq)]
pub struct NetworkConnection {
    pub state: ConnectionState,
    pub role: Option<PeerRole>,
    pub mode: ConnectionMode,
    pub local_code: Option<String>,
    pub error: Option<String>,
}

/// A piece of text, read as its characters.
pub open spec fn text_of(s: Option<String>) -> Option<Seq<char>> {
    match s {
        Some(t) => Some(t@),
        None => None,
    }
}

/// What a connection holds, with its texts as characters.
pub struct ConnectionModel {
    pub state: ConnectionState,
    pub role: Option<PeerRole>,
    pub mode: ConnectionMode,
    pub local_code: Option<Seq<char>>,
    pub error: Option<Seq<char>>,
}

impl View for NetworkConnection {
    type V = ConnectionModel;

    open spec fn view(&self) -> ConnectionModel {
        ConnectionModel {
            state: self.state,
            role: self.role,
            mode: self.mode,
            local_code: text_of(self.local_code),
            error: text_of(self.error),
        }
    }
}

/// A connection that was never opened: disconnected, no role, online mode,
/// no local code and no error.
pub open spec fn connection_baseline() -> ConnectionModel {
    ConnectionModel {
        state: ConnectionState::Disconnected,
        role: None,
        mode: ConnectionMode::Online,
        local_code: None,
        error: None,
    }
}

impl NetworkConnection {
    /// Zeroes the connection back to its never-opened state.
    pub fn reset(&mut self)
        ensures
            final(self)@ == connection_baseline(),
    {
        self.state = ConnectionState::Disconnected;
        self.role = None;
        self.mode = ConnectionMode::Online;
        self.local_code = None;
        self.error = None;
    }
}

impl Default for NetworkConnection {
    fn default() -> (c: Self)
        ensures
            c@ == connection_baseline(),
    {
        NetworkConnection {
            state: ConnectionState::Disconnected,
            role: None,
            mode: ConnectionMode::Online,
            local_code: None,
            error: None,
        }
    }
}

/// Where the lobby UI stands.
#[derive(Debug, PartialEq, Eq)]
pub enum LobbyPhase {
    Connect,
    Handshake,
    Failed { reason: String },
}

/// A lobby phase, with a failure reason as characters.
pub enum PhaseModel {
    Connect,
    Handshake,
    Failed(Seq<char>),
}

impl View for LobbyPhase {
    type V = PhaseModel;

    open spec fn view(&self) -> PhaseModel {
        match self {
            LobbyPhase::Connect => PhaseModel::Connect,
            LobbyPhase::Handshake => PhaseModel::Handshake,
            LobbyPhase::Failed { reason } => PhaseModel::Failed(reason@),
        }
    }
}

/// The multiplayer lobby UI's state.
#[derive(Debug, PartialEq, Eq)]
pub struct MultiplayerLobby {
    pub phase: LobbyPhase,
    /// The peer's protocol version once its handshake arrived.
    pub peer_protocol_version: Option<u32>,
    pub join_code_input: String,
    /// The player's relay preference, kept across sessions.
    pub use_relay: bool,
}

pub struct LobbyModel {
    pub phase: PhaseModel,
    pub peer_protocol_version: Option<u32>,
    pub join_code_input: Seq<char>,
    pub use_relay: bool,
}

impl View for MultiplayerLobby {
    type V = LobbyModel;

    open spec fn view(&self) -> LobbyModel {
        LobbyModel {
            phase: self.phase@,
            peer_protocol_version: self.peer_protocol_version,
            join_code_input: self.join_code_input@,
            use_relay: self.use_relay,
        }
    }
}

/// A fresh lobby: at the connect screen, no peer version, an empty join
/// code, relay on.
pub open spec fn lobby_fresh() -> LobbyModel {
    LobbyModel {
        phase: PhaseModel::Connect,
        peer_protocol_version: None,
        join_code_input: Seq::empty(),
        use_relay: true,
    }
}

/// A reset lobby: fresh, except that the relay preference is carried over.
pub open spec fn lobby_after_reset(before: LobbyModel) -> LobbyModel {
    LobbyModel { use_relay: before.use_relay, ..lobby_fresh() }
}

impl MultiplayerLobby {
    pub fn new() -> (l: Self)
        ensures
            l@ == lobby_fresh(),
    {
        MultiplayerLobby {
            phase: LobbyPhase::Connect,
            peer_protocol_version: None,
            join_code_input: String::new(),
            use_relay: true,
        }
    }
}

/// The host's co-op level choice in the wizard tower.
#[derive(PartialEq, Eq, Structural, Clone, Copy, Debug)]
pub struct CoopHostSelection {
    pub level: u32,
}

pub open spec fn host_selection_default() -> CoopHostSelection {
    CoopHostSelection { level: 0 }
}

impl Default for CoopHostSelection {
    fn default() -> (s: Self)
        ensures
            s == host_selection_default(),
    {
        CoopHostSelection { level: 0 }
    }
}

/// The per-session resources; `None` (or `false`) is an absent resource.
pub struct SessionResources {
    pub session: Option<MultiplayerSession>,
    pub pending_rematch: bool,
    pub coop_pending: Option<CoopPendingSession>,
    pub coop_guest_level: Option<CoopGuestLevel>,
    pub coop_guest_connected: Option<CoopGuestConnected>,
    pub coop_loading_sync: Option<CoopLoadingSync>,
    /// The seeded game RNG, when one is installed.
    pub has_game_rng: bool,
    pub game_seed: Option<u64>,
    pub peer_info: Option<CoopPeerInfo>,
    pub pause: Option<CoopPauseState>,
}

pub struct ResourcesModel {
    pub session: Option<MultiplayerSession>,
    pub pending_rematch: bool,
    pub coop_pending: Option<CoopPendingSession>,
    pub coop_guest_level: Option<CoopGuestLevel>,
    pub coop_guest_connected: Option<CoopGuestConnected>,
    pub coop_loading_sync: Option<CoopLoadingSync>,
    pub has_game_rng: bool,
    pub game_seed: Option<u64>,
    /// The partner's name, when the peer-info resource exists.
    pub peer_name: Option<Option<Seq<char>>>,
    pub pause: Option<CoopPauseState>,
}

impl View for SessionResources {
    type V = ResourcesModel;

    open spec fn view(&self) -> ResourcesModel {
        ResourcesModel {
            session: self.session,
            pending_rematch: self.pending_rematch,
            coop_pending: self.coop_pending,
            coop_guest_level: self.coop_guest_level,
            coop_guest_connected: self.coop_guest_connected,
            coop_loading_sync: self.coop_loading_sync,
            has_game_rng: self.has_game_rng,
            game_seed: self.game_seed,
            peer_name: match self.peer_info {
                Some(p) => Some(text_of(p.name)),
                None => None,
            },
            pause: self.pause,
        }
    }
}

/// No session, rematch, pending co-op start, guest level, guest link,
/// loading handshake, RNG or seed; an empty peer-info and a fresh pause
/// state (unpaused, ownerless, fresh heartbeat, closed grace window).
pub open spec fn resources_baseline() -> ResourcesModel {
    ResourcesModel {
        session: None,
        pending_rematch: false,
        coop_pending: None,
        coop_guest_level: None,
        coop_guest_connected: None,
        coop_loading_sync: None,
        has_game_rng: false,
        game_seed: None,
        peer_name: Some(None),
        pause: Some(fresh_pause_state()),
    }
}

/// Returns the multiplayer state to its cold-boot baseline: the connection
/// zeroed, the lobby fresh but for the relay preference, the host's level
/// choice defaulted and every per-session resource removed (the peer info
/// and the pause state, which always exist, reset to their defaults).
pub fn reset_multiplayer_to_baseline(
    connection: &mut NetworkConnection,
    lobby: &mut MultiplayerLobby,
    host_selection: &mut CoopHostSelection,
    resources: &mut SessionResources,
)
    ensures
        final(connection)@ == connection_baseline(),
        final(lobby)@ == lobby_after_reset(old(lobby)@),
        *final(host_selection) == host_selection_default(),
        final(resources)@ == resources_baseline(),
{
    connection.reset();

    let use_relay = lobby.use_relay;
    *lobby = MultiplayerLobby::new();
    lobby.use_relay = use_relay;

    *host_selection = CoopHostSelection::default();

    resources.session = None;
    resources.pending_rematch = false;
    resources.coop_pending = None;
    resources.coop_guest_level = None;
    resources.coop_guest_connected = None;
    resources.coop_loading_sync = None;
    resources.has_game_rng = false;
    resources.game_seed = None;
    resources.peer_info = Some(CoopPeerInfo::default());
    resources.pause = Some(CoopPauseState::default());
}

/// Resetting twice is resetting once: the second reset changes nothing, and a
/// fresh lobby is left exactly as it was.
pub proof fn lemma_reset_idempotent(lobby: LobbyModel)
    ensures
        lobby_after_reset(lobby_after_reset(lobby)) == lobby_after_reset(lobby),
        lobby_after_reset(lobby_fresh()) == lobby_fresh(),
        lobby_after_reset(lobby).use_relay == lobby.use_relay,
{
}

} // verus!
