use multiplayer::flags::UnitStatus;
use multiplayer::forwarding::{
    cleanup_forwarded_marker, forward_knockbacks, forward_status_effects_to_host, StatusCarrier, StatusEffectForwarded,
};
use multiplayer::protocol::PeerMessage;
use multiplayer::status::{pack_knockback_direction, StatusEffectKind};
use multiplayer::ghosts::{
    boulder_material_index, marker_edit, melee_opponent, pick_material, plan_ghost_spawn, plan_ghost_update, plan_snapshot, stale_ghost_ids,
    CombatStart, CrdtBits, PositionBits, SnapshotUnit, CorpseTransition, GhostAction, GhostMarkerState, GhostMaterial, HitboxKind, MarkerEdit,
    SpellEffectEntityMap, SpriteSheet,
};
use multiplayer::session::Team;

fn status() -> UnitStatus {
    UnitStatus {
        corpse: false,
        king: false,
        archer: false,
        kings_guard: false,
        fire: false,
        frost: false,
        electric: false,
        spell_shield: false,
        combat: false,
        mark: false,
        poison: false,
        polymorph: false,
        smelly: false,
        swordcerer_avatar: false,
        in_melee: false,
        rage: false,
        battle_hymn: false,
        temp_hp: false,
        haste: false,
        healing: false,
    }
}

fn unit(id: u32, team: Team, s: UnitStatus) -> SnapshotUnit {
    SnapshotUnit {
        id,
        team,
        position: PositionBits { x: 1, y: 2, z: 3 },
        crdt: CrdtBits { max_hp: 100, damage: 7, healing: 2 },
        status: s,
    }
}

fn markers() -> GhostMarkerState {
    GhostMarkerState {
        fire: false,
        frost: false,
        electric: false,
        spell_shield: false,
        corpse: false,
        combat: false,
        poison: false,
        mark: false,
        polymorph: false,
        smelly: false,
        in_melee: false,
    }
}

#[test]
fn marker_edits_follow_flag_edges() {
    assert_eq!(marker_edit(false, true), MarkerEdit::Insert);
    assert_eq!(marker_edit(true, false), MarkerEdit::Remove);
    assert_eq!(marker_edit(true, true), MarkerEdit::Keep);
    assert_eq!(marker_edit(false, false), MarkerEdit::Keep);
}

#[test]
fn materials_by_unit_kind() {
    assert_eq!(pick_material(Team::Undead, false, true, false, false, 3), GhostMaterial::UndeadSprite);
    assert_eq!(pick_material(Team::Defenders, false, true, false, false, 3), GhostMaterial::KingSprite);
    assert_eq!(
        pick_material(Team::Attackers, false, false, true, false, 3),
        GhostMaterial::ArcherSprite { team: Team::Attackers }
    );
    assert_eq!(pick_material(Team::Defenders, false, false, false, true, 3), GhostMaterial::KingsGuardSprite);
    assert_eq!(
        pick_material(Team::Defenders, false, false, false, false, 1),
        GhostMaterial::InfantrySprite { team: Team::Defenders }
    );
}

#[test]
fn corpse_material_draws_a_valid_variant() {
    for _ in 0..50 {
        match pick_material(Team::Attackers, true, false, true, false, 4) {
            GhostMaterial::ArcherCorpse { team, variant } => {
                assert_eq!(team, Team::Attackers);
                assert!(variant < 4);
            }
            other => panic!("unexpected {:?}", other),
        }
        match pick_material(Team::Defenders, true, true, false, false, 2) {
            GhostMaterial::KingCorpse { variant } => assert!(variant < 2),
            other => panic!("unexpected {:?}", other),
        }
    }
    assert_eq!(
        pick_material(Team::Defenders, true, false, false, false, 1),
        GhostMaterial::InfantryCorpse { team: Team::Defenders, variant: 0 }
    );
}

#[test]
fn melee_opponents() {
    assert_eq!(melee_opponent(Team::Defenders), Team::Attackers);
    assert_eq!(melee_opponent(Team::Attackers), Team::Defenders);
    assert_eq!(melee_opponent(Team::Undead), Team::Defenders);
}

#[test]
fn spawn_plan_for_attacking_archer() {
    let mut s = status();
    s.archer = true;
    s.combat = true;
    s.fire = true;
    let p = plan_ghost_spawn(&unit(42, Team::Attackers, s));
    assert_eq!(p.network_id, 42);
    assert_eq!(p.team, Team::Attackers);
    assert_eq!(p.position, PositionBits { x: 1, y: 2, z: 3 });
    assert_eq!(p.crdt, CrdtBits { max_hp: 100, damage: 7, healing: 2 });
    assert_eq!(p.health_max, 100);
    assert_eq!(p.hitbox, HitboxKind::Archer);
    assert_eq!(p.mesh, SpriteSheet::Archer);
    assert!(p.fire);
    assert_eq!(p.combat, Some(CombatStart::Shooting));
    assert!(!p.king_marker);

    let mut k = status();
    k.king = true;
    k.combat = true;
    let p = plan_ghost_spawn(&unit(1, Team::Defenders, k));
    assert_eq!(p.hitbox, HitboxKind::King);
    assert!(p.king_marker);
    assert_eq!(p.combat, None);
}

#[test]
fn update_plan_on_death_and_raise() {
    let mut s = status();
    s.corpse = true;
    let p = plan_ghost_update(&s, &markers());
    assert_eq!(p.corpse, CorpseTransition::Died { dying_sheet: Some(SpriteSheet::Infantry) });
    assert!(p.clear_saved_material);
    assert!(!p.swap_material);

    let mut g = markers();
    g.corpse = true;
    let p = plan_ghost_update(&status(), &g);
    assert_eq!(p.corpse, CorpseTransition::Raised);
    assert!(p.swap_material);
    assert!(p.clear_dying);
}

#[test]
fn update_then_spawn_state_is_stable() {
    let mut s = status();
    s.frost = true;
    s.poison = true;
    let spawned = plan_ghost_spawn(&unit(3, Team::Defenders, s));
    let mut g = markers();
    g.frost = spawned.frost;
    g.poison = spawned.poison;
    let p = plan_ghost_update(&s, &g);
    assert_eq!(p.frost, MarkerEdit::Keep);
    assert_eq!(p.poison, MarkerEdit::Keep);
    assert_eq!(p.corpse, CorpseTransition::Unchanged);
    assert_eq!(p.combat, None);
}

#[test]
fn stale_ghosts_are_those_not_listed() {
    assert_eq!(stale_ghost_ids(&vec![1, 2, 3, 4], &vec![2, 4, 9]), vec![1, 3]);
    assert!(stale_ghost_ids(&vec![], &vec![1]).is_empty());
}

#[test]
fn snapshot_plan_spawns_new_updates_known() {
    let (actions, stale) = plan_snapshot(&vec![1, 2, 3], &vec![2, 5, 5, 1]);
    assert_eq!(
        actions,
        vec![
            GhostAction::Update { id: 2 },
            GhostAction::Spawn { id: 5 },
            GhostAction::Update { id: 5 },
            GhostAction::Update { id: 1 },
        ]
    );
    assert_eq!(stale, vec![3]);
}

#[test]
fn snapshot_converges_to_host_units() {
    let mut mapped: Vec<u32> = vec![10, 11, 12];
    let units: Vec<u32> = vec![12, 13, 14];
    let (actions, stale) = plan_snapshot(&mapped, &units);
    for a in &actions {
        if let GhostAction::Spawn { id } = a {
            mapped.push(*id);
        }
    }
    mapped.retain(|id| !stale.contains(id));
    mapped.sort();
    assert_eq!(mapped, vec![12, 13, 14]);
}

#[test]
fn effect_map_insert_then_remove() {
    let mut m = SpellEffectEntityMap::new();
    m.insert(7, 700);
    m.insert(8, 800);
    assert_eq!(m.remove_by_remote(7), Some(700));
    assert_eq!(m.remove_by_remote(7), None);
    assert!(!m.local_to_remote.contains_key(&700));
    assert_eq!(m.local_to_remote.get(&800), Some(&8));
}

fn carrier(id: u32) -> StatusCarrier {
    StatusCarrier { network_id: id, duration: 10, magnitude: 20, flags: 0 }
}

#[test]
fn status_forwarded_once_and_again_after_removal() {
    let mut markers = StatusEffectForwarded::new();
    let mut out: Vec<PeerMessage<u8>> = Vec::new();
    forward_status_effects_to_host(&mut markers, StatusEffectKind::Root, &vec![carrier(3), carrier(4)], &mut out);
    assert_eq!(
        out,
        vec![
            PeerMessage::ApplyStatusEffect { target_network_id: 3, kind: 1, duration: 10, magnitude: 20, flags: 0 },
            PeerMessage::ApplyStatusEffect { target_network_id: 4, kind: 1, duration: 10, magnitude: 20, flags: 0 },
        ]
    );
    assert!(markers.is_marked(3));
    // Still carrying the status: nothing new goes out.
    out.clear();
    forward_status_effects_to_host(&mut markers, StatusEffectKind::Root, &vec![carrier(3), carrier(4)], &mut out);
    assert!(out.is_empty());
    // Ghost 3 loses the status; its marker is cleaned up.
    cleanup_forwarded_marker(&mut markers, &vec![4]);
    assert!(!markers.is_marked(3));
    assert!(markers.is_marked(4));
    // Re-applied: forwarded again.
    forward_status_effects_to_host(&mut markers, StatusEffectKind::Root, &vec![carrier(4), carrier(3)], &mut out);
    assert_eq!(
        out,
        vec![PeerMessage::ApplyStatusEffect { target_network_id: 3, kind: 1, duration: 10, magnitude: 20, flags: 0 }]
    );
}

#[test]
fn ghost_forwarded_once_among_other_carriers() {
    let mut markers = StatusEffectForwarded::new();
    let mut out: Vec<PeerMessage<u8>> = Vec::new();
    forward_status_effects_to_host(&mut markers, StatusEffectKind::Root, &vec![carrier(9)], &mut out);
    assert_eq!(
        out,
        vec![PeerMessage::ApplyStatusEffect { target_network_id: 9, kind: 1, duration: 10, magnitude: 20, flags: 0 }]
    );
    // A second pass in which new ghosts also carry the status: only those go out.
    out.clear();
    forward_status_effects_to_host(
        &mut markers,
        StatusEffectKind::Root,
        &vec![carrier(7), carrier(9), carrier(8)],
        &mut out,
    );
    assert_eq!(
        out,
        vec![
            PeerMessage::ApplyStatusEffect { target_network_id: 7, kind: 1, duration: 10, magnitude: 20, flags: 0 },
            PeerMessage::ApplyStatusEffect { target_network_id: 8, kind: 1, duration: 10, magnitude: 20, flags: 0 },
        ]
    );
}

#[test]
fn knockbacks_always_forwarded_and_dropped() {
    let flags = pack_knockback_direction(-600, 800);
    assert_eq!(flags, 0x0320_FDA8);
    let k = StatusCarrier { network_id: 5, duration: 1, magnitude: 2, flags };
    let mut out: Vec<PeerMessage<u8>> = Vec::new();
    let drop = forward_knockbacks(&vec![k], &mut out);
    assert_eq!(drop, vec![5]);
    assert_eq!(
        out,
        vec![PeerMessage::ApplyStatusEffect {
            target_network_id: 5,
            kind: StatusEffectKind::Knockback.to_u8(),
            duration: 1,
            magnitude: 2,
            flags: 0x0320_FDA8,
        }]
    );
}

#[test]
fn boulder_material_index_is_held_to_the_last_material() {
    assert_eq!(boulder_material_index(1, 3), 1);
    assert_eq!(boulder_material_index(2, 3), 2);
    assert_eq!(boulder_material_index(7, 3), 2);
    assert_eq!(boulder_material_index(4, 0), 0);
}
