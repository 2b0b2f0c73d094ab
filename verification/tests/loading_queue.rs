use multiplayer::loading::{
    build_spawn_plan, loading_handshake, prepare_loading_config, process_mp_spawn_queue, restore_loading_config,
    take_frame_task, ArmyCounts, LoadingConfig, MpLoadingSync, MpSpawnQueue, MpSpawnTask, TerrainCounts,
};
use multiplayer::protocol::PeerMessage;
use multiplayer::session::{ConnectionState, PeerRole};

fn terrain(n: u32) -> TerrainCounts {
    TerrainCounts { boulders: n, trees: n, ponds: n, bushes: n, flora: n }
}

#[test]
fn queue_new_pop_complete() {
    let mut q = MpSpawnQueue::new();
    assert!(q.is_complete());
    assert_eq!(q.pop_next(), None);
    q.tasks.push(MpSpawnTask::Battlefield);
    q.tasks.push(MpSpawnTask::Cauldron);
    assert_eq!(q.pop_next(), Some(MpSpawnTask::Battlefield));
    assert!(!q.is_complete());
    assert_eq!(q.pop_next(), Some(MpSpawnTask::Cauldron));
    assert!(q.is_complete());
}

#[test]
fn flush_and_deferred_flags() {
    assert!(MpSpawnTask::HostWizard.needs_command_flush());
    assert!(MpSpawnTask::Cauldron.needs_command_flush());
    assert!(!MpSpawnTask::Battlefield.needs_command_flush());
    assert!(MpSpawnTask::LoadWizardAssets.creates_deferred_state());
    assert!(MpSpawnTask::LoadCauldronAssets.creates_deferred_state());
    assert!(!MpSpawnTask::HostWizard.creates_deferred_state());
}

#[test]
fn guest_versus_plan_has_no_armies() {
    let q = build_spawn_plan(false, PeerRole::Guest, terrain(1), ArmyCounts { kings_guards: 2, infantry: 3, archers: 1 });
    assert_eq!(
        q.tasks,
        vec![
            MpSpawnTask::Battlefield,
            MpSpawnTask::Castle2,
            MpSpawnTask::PathfindingGrid,
            MpSpawnTask::TerrainBoulder { index: 0 },
            MpSpawnTask::TerrainTree { index: 0 },
            MpSpawnTask::TerrainPond { index: 0 },
            MpSpawnTask::TerrainBush { index: 0 },
            MpSpawnTask::Flora { index: 0 },
            MpSpawnTask::LoadWizardAssets,
            MpSpawnTask::HostWizard,
            MpSpawnTask::GuestWizard,
            MpSpawnTask::LoadCauldronAssets,
            MpSpawnTask::Cauldron,
        ]
    );
}

#[test]
fn host_coop_plan_has_armies_and_no_second_castle() {
    let q = build_spawn_plan(true, PeerRole::Host, terrain(0), ArmyCounts { kings_guards: 1, infantry: 2, archers: 1 });
    assert_eq!(
        q.tasks,
        vec![
            MpSpawnTask::Battlefield,
            MpSpawnTask::PathfindingGrid,
            MpSpawnTask::HostKing,
            MpSpawnTask::HostKingsGuard { guard_index: 0 },
            MpSpawnTask::GuestKing,
            MpSpawnTask::GuestKingsGuard { guard_index: 0 },
            MpSpawnTask::HostInfantry { unit_index: 0 },
            MpSpawnTask::HostInfantry { unit_index: 1 },
            MpSpawnTask::HostArcher { unit_index: 0 },
            MpSpawnTask::GuestInfantry { unit_index: 0 },
            MpSpawnTask::GuestInfantry { unit_index: 1 },
            MpSpawnTask::GuestArcher { unit_index: 0 },
            MpSpawnTask::LoadWizardAssets,
            MpSpawnTask::HostWizard,
            MpSpawnTask::GuestWizard,
            MpSpawnTask::LoadCauldronAssets,
            MpSpawnTask::Cauldron,
        ]
    );
}

#[test]
fn one_task_per_frame() {
    let mut q = build_spawn_plan(true, PeerRole::Guest, terrain(0), ArmyCounts { kings_guards: 0, infantry: 0, archers: 0 });
    assert_eq!(take_frame_task(&mut q, false, false), Some(MpSpawnTask::Battlefield));
    assert_eq!(q.tasks.len(), 6);
    assert_eq!(take_frame_task(&mut q, false, false), Some(MpSpawnTask::PathfindingGrid));
    assert_eq!(take_frame_task(&mut q, false, false), Some(MpSpawnTask::LoadWizardAssets));
    // The wizard waits for its assets and stays at the front.
    assert_eq!(take_frame_task(&mut q, false, false), None);
    assert_eq!(q.tasks[0], MpSpawnTask::HostWizard);
    assert_eq!(take_frame_task(&mut q, true, false), Some(MpSpawnTask::HostWizard));
    assert_eq!(take_frame_task(&mut q, true, false), Some(MpSpawnTask::GuestWizard));
    assert_eq!(take_frame_task(&mut q, true, false), Some(MpSpawnTask::LoadCauldronAssets));
    assert_eq!(take_frame_task(&mut q, true, false), None);
    assert_eq!(take_frame_task(&mut q, true, true), Some(MpSpawnTask::Cauldron));
    assert!(q.is_complete());
    assert_eq!(take_frame_task(&mut q, true, true), None);
}

#[test]
fn two_plain_tasks_take_two_frames() {
    let mut q = MpSpawnQueue::new();
    q.tasks.push(MpSpawnTask::TerrainTree { index: 0 });
    q.tasks.push(MpSpawnTask::Flora { index: 0 });
    let mut sync = MpLoadingSync { my_loaded: false, peer_loaded: false };
    let mut incoming: Vec<PeerMessage<u8>> = Vec::new();
    let mut outgoing: Vec<PeerMessage<u8>> = Vec::new();
    let (t, start) =
        process_mp_spawn_queue(&mut q, &mut sync, &mut incoming, &mut outgoing, ConnectionState::Connected, true, true);
    assert_eq!(t, Some(MpSpawnTask::TerrainTree { index: 0 }));
    assert!(!start);
    assert_eq!(q.tasks, vec![MpSpawnTask::Flora { index: 0 }]);
    assert!(outgoing.is_empty());
}

#[test]
fn front_task_waits_for_missing_assets() {
    let mut q = MpSpawnQueue::new();
    q.tasks.push(MpSpawnTask::HostWizard);
    assert_eq!(take_frame_task(&mut q, false, true), None);
    assert_eq!(q.tasks, vec![MpSpawnTask::HostWizard]);
}

#[test]
fn handshake_announces_once_and_starts_when_both_loaded() {
    let mut sync = MpLoadingSync { my_loaded: false, peer_loaded: false };
    let mut incoming: Vec<PeerMessage<u8>> = vec![PeerMessage::Other(1)];
    let mut outgoing: Vec<PeerMessage<u8>> = Vec::new();
    let start = loading_handshake(true, &mut sync, &mut incoming, &mut outgoing, ConnectionState::Connected);
    assert!(!start);
    assert_eq!(outgoing, vec![PeerMessage::GameLoaded]);
    assert!(sync.my_loaded);

    incoming.push(PeerMessage::GameLoaded);
    let start = loading_handshake(true, &mut sync, &mut incoming, &mut outgoing, ConnectionState::Connected);
    assert!(start);
    // Announced once only.
    assert_eq!(outgoing, vec![PeerMessage::GameLoaded]);
    assert_eq!(incoming, vec![PeerMessage::Other(1)]);
}

#[test]
fn handshake_does_not_start_on_dead_connection() {
    let mut sync = MpLoadingSync { my_loaded: true, peer_loaded: true };
    let mut incoming: Vec<PeerMessage<u8>> = Vec::new();
    let mut outgoing: Vec<PeerMessage<u8>> = Vec::new();
    assert!(!loading_handshake(true, &mut sync, &mut incoming, &mut outgoing, ConnectionState::Disconnected));
    assert!(outgoing.is_empty());
}

#[test]
fn one_loading_frame() {
    let mut q = MpSpawnQueue::new();
    q.tasks.push(MpSpawnTask::Battlefield);
    let mut sync = MpLoadingSync { my_loaded: false, peer_loaded: true };
    let mut incoming: Vec<PeerMessage<u8>> = Vec::new();
    let mut outgoing: Vec<PeerMessage<u8>> = Vec::new();
    let (task, start) =
        process_mp_spawn_queue(&mut q, &mut sync, &mut incoming, &mut outgoing, ConnectionState::Connected, true, true);
    assert_eq!(task, Some(MpSpawnTask::Battlefield));
    assert!(start);
    assert_eq!(outgoing, vec![PeerMessage::GameLoaded]);
}

#[test]
fn loading_config_round_trip() {
    let cached = TerrainCounts { boulders: 3, trees: 2, ponds: 1, bushes: 0, flora: 9 };
    let none = terrain(0);
    let mut c = LoadingConfig { seed: Some(5), current_level: 12, saved_terrain: cached };
    let (backup, level) = prepare_loading_config(&mut c, 777, true, Some(4), 1);
    assert_eq!(level, 4);
    assert_eq!(c, LoadingConfig { seed: Some(777), current_level: 4, saved_terrain: none });
    // The generators fill the cache during loading.
    c.saved_terrain = cached;
    restore_loading_config(&mut c, Some(backup));
    assert_eq!(c, LoadingConfig { seed: Some(5), current_level: 12, saved_terrain: none });

    let mut v = LoadingConfig { seed: None, current_level: 3, saved_terrain: none };
    let (_, level) = prepare_loading_config(&mut v, 1, false, Some(9), 2);
    assert_eq!(level, 2);
    let (_, level) = prepare_loading_config(&mut v, 1, true, None, 2);
    assert_eq!(level, 2);
    v.saved_terrain = cached;
    restore_loading_config(&mut v, None);
    assert_eq!(v, LoadingConfig { seed: Some(1), current_level: 2, saved_terrain: none });
}

#[test]
fn host_and_guest_plan_the_same_world() {
    let t = TerrainCounts { boulders: 2, trees: 1, ponds: 0, bushes: 1, flora: 3 };
    let a = ArmyCounts { kings_guards: 1, infantry: 1, archers: 1 };
    let host = build_spawn_plan(false, PeerRole::Host, t, a);
    let guest = build_spawn_plan(false, PeerRole::Guest, t, a);
    let world = 3 + 2 + 1 + 0 + 1 + 3;
    assert_eq!(host.tasks[..world], guest.tasks[..world]);
    assert_eq!(host.tasks[host.tasks.len() - 5..], guest.tasks[guest.tasks.len() - 5..]);
    assert_eq!(guest.tasks.len(), world + 5);
}
