use multiplayer::coop::{CoopGuestConnected, CoopGuestLevel, CoopLoadingSync, CoopPeerInfo};
use multiplayer::coop_pause::CoopPauseState;
use multiplayer::reset::{
    reset_multiplayer_to_baseline, ConnectionMode, CoopHostSelection, LobbyPhase, MultiplayerLobby,
    NetworkConnection, SessionResources,
};
use multiplayer::session::{ConnectionState, MultiplayerSession, PeerRole, SessionMode, WizardType};

fn empty_resources() -> SessionResources {
    SessionResources {
        session: None,
        pending_rematch: false,
        coop_pending: None,
        coop_guest_level: None,
        coop_guest_connected: None,
        coop_loading_sync: None,
        has_game_rng: false,
        game_seed: None,
        peer_info: None,
        pause: None,
    }
}

/// Deliberately dirty every piece of state a session can leave behind, run the
/// reset, and check that everything is back at a cold-boot baseline.
#[test]
fn resets_every_per_session_resource() {
    let mut connection = NetworkConnection {
        state: ConnectionState::Connected,
        role: Some(PeerRole::Guest),
        mode: ConnectionMode::Steam,
        local_code: Some("stale".to_string()),
        error: Some("stale error".to_string()),
    };

    let mut lobby = MultiplayerLobby {
        phase: LobbyPhase::Failed { reason: "stale".to_string() },
        peer_protocol_version: Some(13),
        join_code_input: "stale-code".to_string(),
        // A non-default preference, to prove it survives the reset.
        use_relay: false,
    };

    let mut host_selection = CoopHostSelection { level: 7 };

    let mut resources = empty_resources();
    resources.session = Some(MultiplayerSession {
        role: PeerRole::Guest,
        mode: SessionMode::CoopEndless,
        host_wizard: WizardType::BoringOleMage,
        guest_wizard: WizardType::BoringOleMage,
        coop_urgent: false,
    });
    resources.pending_rematch = true;
    resources.coop_guest_level = Some(CoopGuestLevel(4));
    resources.coop_guest_connected = Some(CoopGuestConnected(true));
    resources.coop_loading_sync = Some(CoopLoadingSync { my_loaded: true, peer_loaded: true });

    reset_multiplayer_to_baseline(&mut connection, &mut lobby, &mut host_selection, &mut resources);

    assert_eq!(connection.state, ConnectionState::Disconnected);
    assert_eq!(connection.role, None);
    assert_eq!(connection.mode, ConnectionMode::Online);
    assert_eq!(connection.local_code, None);
    assert_eq!(connection.error, None);

    assert_eq!(lobby.phase, LobbyPhase::Connect);
    assert_eq!(lobby.peer_protocol_version, None);
    assert!(lobby.join_code_input.is_empty());
    assert!(!lobby.use_relay, "use_relay is a preference, not session state");

    assert_eq!(host_selection, CoopHostSelection::default());

    assert!(resources.session.is_none());
    assert!(!resources.pending_rematch);
    assert!(resources.coop_pending.is_none());
    assert!(resources.coop_guest_level.is_none());
    assert!(resources.coop_guest_connected.is_none());
    assert!(resources.coop_loading_sync.is_none());
    assert!(!resources.pause.as_ref().unwrap().active);
    assert!(resources.peer_info.as_ref().unwrap().name.is_none());
}

/// Calling the reset on already-clean state must not panic or resurrect
/// anything; several call sites can fire twice in quick succession.
#[test]
fn is_idempotent() {
    let mut connection = NetworkConnection::default();
    let mut lobby = MultiplayerLobby::new();
    let mut host_selection = CoopHostSelection::default();
    let mut resources = empty_resources();

    for _ in 0..2 {
        reset_multiplayer_to_baseline(&mut connection, &mut lobby, &mut host_selection, &mut resources);
    }

    assert_eq!(lobby, MultiplayerLobby::new());
}

#[test]
fn reset_twice_equals_reset_once() {
    let mut connection = NetworkConnection {
        state: ConnectionState::Connecting,
        role: Some(PeerRole::Host),
        mode: ConnectionMode::Steam,
        local_code: Some("abc".to_string()),
        error: None,
    };
    let mut lobby = MultiplayerLobby {
        phase: LobbyPhase::Handshake,
        peer_protocol_version: Some(2),
        join_code_input: "x".to_string(),
        use_relay: false,
    };
    let mut selection = CoopHostSelection { level: 3 };
    let mut resources = empty_resources();
    resources.game_seed = Some(99);
    resources.has_game_rng = true;
    resources.peer_info = Some(CoopPeerInfo { name: Some("friend".to_string()) });

    reset_multiplayer_to_baseline(&mut connection, &mut lobby, &mut selection, &mut resources);
    let once_lobby = lobby.clone_fields();
    let once_connection = (connection.state, connection.role, connection.mode);
    reset_multiplayer_to_baseline(&mut connection, &mut lobby, &mut selection, &mut resources);

    assert_eq!(lobby.clone_fields(), once_lobby);
    assert_eq!((connection.state, connection.role, connection.mode), once_connection);
    assert_eq!(resources.game_seed, None);
    assert!(!resources.has_game_rng);
    assert_eq!(resources.peer_info.as_ref().unwrap().name, None);
    assert_eq!(selection.level, 0);
}

trait LobbyFields {
    fn clone_fields(&self) -> (String, Option<u32>, String, bool);
}

impl LobbyFields for MultiplayerLobby {
    fn clone_fields(&self) -> (String, Option<u32>, String, bool) {
        (format!("{:?}", self.phase), self.peer_protocol_version, self.join_code_input.clone(), self.use_relay)
    }
}

#[test]
fn fresh_lobby_and_connection_defaults() {
    let lobby = MultiplayerLobby::new();
    assert_eq!(lobby.phase, LobbyPhase::Connect);
    assert!(lobby.use_relay);
    assert!(lobby.join_code_input.is_empty());
    let c = NetworkConnection::default();
    assert_eq!(c.state, ConnectionState::Disconnected);
    assert_eq!(c.mode, ConnectionMode::Online);
    let p = CoopPauseState::default();
    assert!(!p.active);
    assert!(p.initiator.is_none());
}
