use multiplayer::coop::{
    coop_buff_active, coop_level_over_message, coop_start_with_seed, init_coop_host, notify_guest_run_ended,
    receive_coop_lifecycle, records_endless, start_coop_host, CoopConfig, CoopLevelResult, CoopPendingSession,
};
use multiplayer::layout::{
    archer_cell, archer_row, cell_for_unit, defender_cells, infantry_cell, king_spawn_plan, mp_placement,
    pre_activated, unit_spawn_plan, wizard_spawn_plan, AuraFilter, Spot,
};
use multiplayer::loading::{prepare_loading_config, LoadingConfig, TerrainCounts};
use multiplayer::protocol::PeerMessage;
use multiplayer::scoring::{GameOutcome, KillStats};
use multiplayer::session::{
    is_coop_host, is_remote_excremage, ConnectionState, MultiplayerSession, PeerRole, SessionMode, Team,
    WizardType,
};

fn session(role: PeerRole, mode: SessionMode) -> MultiplayerSession {
    MultiplayerSession {
        role,
        mode,
        host_wizard: WizardType::Warglock,
        guest_wizard: WizardType::Excremage,
        coop_urgent: false,
    }
}

#[test]
fn defender_cells_fill_from_the_back_row() {
    assert_eq!(defender_cells(3, 2, 3), vec![(2, 0), (2, 1), (1, 0)]);
    // At least one cell, even for an empty squad.
    assert_eq!(defender_cells(3, 2, 0), vec![(2, 0)]);
    // Never more cells than the grid holds.
    assert_eq!(defender_cells(2, 2, 9).len(), 4);
    assert!(defender_cells(0, 5, 3).is_empty());
    assert!(defender_cells(5, 0, 3).is_empty());
}

#[test]
fn units_land_in_their_cells() {
    let per_cell = vec![2, 3, 1];
    assert_eq!(cell_for_unit(&per_cell, 3, 0), Some(0));
    assert_eq!(cell_for_unit(&per_cell, 3, 1), Some(0));
    assert_eq!(cell_for_unit(&per_cell, 3, 2), Some(1));
    assert_eq!(cell_for_unit(&per_cell, 3, 4), Some(1));
    assert_eq!(cell_for_unit(&per_cell, 3, 5), Some(2));
    assert_eq!(cell_for_unit(&per_cell, 3, 6), None);
    assert_eq!(cell_for_unit(&per_cell, 2, 5), None);
    assert_eq!(infantry_cell(4, 2, 3, &per_cell, 5), Some((2, 0)));
    assert_eq!(infantry_cell(4, 2, 3, &per_cell, 0), Some((3, 0)));
    assert_eq!(infantry_cell(4, 2, 3, &per_cell, 7), None);
}

#[test]
fn archers_stand_one_row_ahead() {
    // 5 infantry cells over 2 columns fill 3 rows: rows 9, 8, 7; archers on 6.
    assert_eq!(archer_row(10, 2, 5), 6);
    assert_eq!(archer_row(10, 2, 4), 7);
    // Floors at the front row.
    assert_eq!(archer_row(2, 1, 5), 0);
    assert_eq!(archer_row(1, 3, 0), 0);
    let per_cell = vec![1, 1, 1];
    assert_eq!(archer_cell(10, 2, 4, 3, &per_cell, 1), Some((7, 1)));
    // Only one row of archer cells: three needed, two columns.
    assert_eq!(archer_cell(10, 2, 4, 3, &per_cell, 2), None);
}

#[test]
fn wizard_markers() {
    let host_own = wizard_spawn_plan(WizardType::BoringOleMage, PeerRole::Host, true, false);
    assert!(host_own.local);
    assert!(host_own.no_snapshot);
    assert!(!host_own.guest_proxy);
    assert!(host_own.primed_missile);
    assert!(host_own.versus_range_buff);
    assert!(!host_own.guest_sprite);

    let proxy = wizard_spawn_plan(WizardType::Shepherd, PeerRole::Host, false, true);
    assert!(!proxy.local);
    assert!(proxy.guest_proxy);
    assert!(!proxy.primed_missile);
    assert!(proxy.guest_sprite);
    assert!(!proxy.versus_range_buff);

    let guest_own = wizard_spawn_plan(WizardType::Arcanorouter, PeerRole::Guest, false, false);
    assert!(guest_own.local);
    assert!(!guest_own.guest_proxy);
    assert!(guest_own.arcanorouter_bonuses);
    assert!(!wizard_spawn_plan(WizardType::Warglock, PeerRole::Guest, true, false).primed_missile);
    assert!(!wizard_spawn_plan(WizardType::Randomancer, PeerRole::Guest, true, false).local);
}

#[test]
fn king_and_activation_rules() {
    let mut spawned = false;
    let a = king_spawn_plan(Team::Attackers, &mut spawned);
    assert!(spawned);
    assert_eq!(a.aura, AuraFilter::Attackers);
    assert!(a.pre_activated);
    assert!(!a.holds_ground);
    assert!(!a.teleportable);
    let d = king_spawn_plan(Team::Defenders, &mut spawned);
    assert_eq!(d.aura, AuraFilter::Defenders);
    assert!(d.holds_ground);
    assert_eq!(king_spawn_plan(Team::Undead, &mut spawned).aura, AuraFilter::Defenders);
    let u = unit_spawn_plan(Team::Attackers, false);
    assert!(u.pre_activated && u.teleportable && u.staggered_attack && u.full_health && !u.holds_ground);
    let h = unit_spawn_plan(Team::Defenders, true);
    assert!(h.holds_ground && !h.pre_activated);
    assert_eq!(h.team, Team::Defenders);
    assert!(pre_activated(Team::Attackers));
    assert!(!pre_activated(Team::Undead));
}

#[test]
fn placement_per_role() {
    let vg = mp_placement(PeerRole::Guest, false);
    assert!(vg.mirror_world);
    assert_eq!(vg.guest_wizard, Spot::OppositeCorner);
    assert_eq!(vg.cauldron, Spot::OppositeCorner);
    let cg = mp_placement(PeerRole::Guest, true);
    assert!(!cg.mirror_world);
    assert_eq!(cg.cauldron, Spot::BesideHome);
    let vh = mp_placement(PeerRole::Host, false);
    assert!(!vh.mirror_world);
    assert_eq!(vh.cauldron, Spot::Home);
}

#[test]
fn session_predicates() {
    let h = session(PeerRole::Host, SessionMode::CoopEndless);
    let g = session(PeerRole::Guest, SessionMode::CoopRoguelite);
    let v = session(PeerRole::Host, SessionMode::Versus);
    assert!(h.is_coop());
    assert!(!v.is_coop());
    assert!(is_coop_host(Some(&h)));
    assert!(!is_coop_host(Some(&g)));
    assert!(!is_coop_host(Some(&v)));
    assert!(!is_coop_host(None));
    assert_eq!(h.remote_wizard(), WizardType::Excremage);
    assert_eq!(g.remote_wizard(), WizardType::Warglock);
    assert!(is_remote_excremage(Some(&h)));
    assert!(!is_remote_excremage(Some(&g)));
    assert!(records_endless(&h));
    assert!(!records_endless(&g));
}

#[test]
fn coop_start_shares_seed_and_level() {
    let mut config = CoopConfig { seed: None, current_level: 6 };
    let (pending, msg): (CoopPendingSession, PeerMessage<u8>) =
        coop_start_with_seed(&mut config, 42, WizardType::Shepherd, SessionMode::CoopEndless, true);
    assert_eq!(config.seed, Some(42));
    assert_eq!(pending, CoopPendingSession { guest_wizard: WizardType::Shepherd, mode: SessionMode::CoopEndless });
    assert_eq!(msg, PeerMessage::StartGame { seed: 42, coop_mode: SessionMode::CoopEndless, level: 6, urgent: true });

    let mut config = CoopConfig { seed: Some(1), current_level: 2 };
    let (_, msg): (CoopPendingSession, PeerMessage<u8>) =
        start_coop_host(&mut config, WizardType::Warglock, SessionMode::CoopRoguelite, false);
    match msg {
        PeerMessage::StartGame { seed, level, .. } => {
            assert_eq!(Some(seed), config.seed);
            assert_eq!(level, 2);
        }
        other => panic!("unexpected {:?}", other),
    }
}

#[test]
fn coop_host_init_and_buff() {
    let h = session(PeerRole::Host, SessionMode::CoopEndless);
    assert_eq!(init_coop_host(Some(&h), ConnectionState::Connected), Some(true));
    assert_eq!(init_coop_host(Some(&h), ConnectionState::Failed), Some(false));
    assert_eq!(init_coop_host(Some(&session(PeerRole::Guest, SessionMode::CoopEndless)), ConnectionState::Connected), None);
    assert_eq!(init_coop_host(None, ConnectionState::Connected), None);
    assert!(coop_buff_active(Some(true)));
    assert!(!coop_buff_active(Some(false)));
    assert!(!coop_buff_active(None));
}

#[test]
fn run_end_and_level_over_messages() {
    let mut out: Vec<PeerMessage<u8>> = Vec::new();
    notify_guest_run_ended(false, true, &mut out);
    assert!(out.is_empty());
    notify_guest_run_ended(true, true, &mut out);
    assert_eq!(out, vec![PeerMessage::CoopRunEnded { victory: true }]);

    let m: PeerMessage<u8> = coop_level_over_message(
        GameOutcome::Victory,
        3,
        KillStats { defenders_killed: 1, attackers_killed: 2, undead_killed: 3 },
        99,
    );
    assert_eq!(
        m,
        PeerMessage::CoopLevelOver {
            victory: true,
            level: 3,
            defenders_killed: 1,
            attackers_killed: 2,
            undead_killed: 3,
            elapsed_time: 99,
            host_spell_damage: 0,
            host_spell_healing: 0,
        }
    );
}

#[test]
fn guest_returns_to_tower_on_lifecycle_messages() {
    let mut incoming: Vec<PeerMessage<u8>> = vec![
        PeerMessage::CoopLevelOver {
            victory: false,
            level: 1,
            defenders_killed: 1,
            attackers_killed: 1,
            undead_killed: 1,
            elapsed_time: 1,
            host_spell_damage: 0,
            host_spell_healing: 0,
        },
        PeerMessage::Other(4),
        PeerMessage::CoopLevelOver {
            victory: true,
            level: 2,
            defenders_killed: 5,
            attackers_killed: 6,
            undead_killed: 7,
            elapsed_time: 8,
            host_spell_damage: 0,
            host_spell_healing: 0,
        },
    ];
    let r = receive_coop_lifecycle(&mut incoming);
    assert!(r.return_to_tower);
    assert_eq!(
        r.level_result,
        Some(CoopLevelResult {
            victory: true,
            level: 2,
            defenders_killed: 5,
            attackers_killed: 6,
            undead_killed: 7,
            elapsed_time: 8
        })
    );
    assert_eq!(incoming, vec![PeerMessage::Other(4)]);

    let mut ended: Vec<PeerMessage<u8>> = vec![PeerMessage::CoopRunEnded { victory: false }];
    let r = receive_coop_lifecycle(&mut ended);
    assert!(r.return_to_tower);
    assert_eq!(r.level_result, None);

    let mut quiet: Vec<PeerMessage<u8>> = vec![PeerMessage::GameLoaded];
    let r = receive_coop_lifecycle(&mut quiet);
    assert!(!r.return_to_tower);
}

#[test]
fn guest_seeds_terrain_like_host() {
    let mut host = CoopConfig { seed: None, current_level: 11 };
    let (_, msg): (CoopPendingSession, PeerMessage<u8>) =
        coop_start_with_seed(&mut host, 1234, WizardType::Excremage, SessionMode::CoopEndless, false);
    let (seed, level) = match msg {
        PeerMessage::StartGame { seed, level, .. } => (seed, level),
        other => panic!("unexpected {:?}", other),
    };
    let none = TerrainCounts { boulders: 0, trees: 0, ponds: 0, bushes: 0, flora: 0 };
    let mut guest = LoadingConfig { seed: Some(9), current_level: 2, saved_terrain: none };
    prepare_loading_config(&mut guest, seed, true, Some(level), 1);
    assert_eq!(guest.seed, host.seed);
    assert_eq!(guest.current_level, host.current_level);
}
