use multiplayer::dispel::{receive_dispel_messages, DispelAction, NetworkedEffect};
use multiplayer::obstacles::{receive_teleport_message, receive_wall_placement, ObstacleChanged, TeleportOrder};
use multiplayer::protocol::{PeerMessage, RectBits};
use multiplayer::session::Team;
use multiplayer::status::{
    decode_polymorph_flags, decode_raise_flags, forward_spell_hits_to_host, PendingHit, decode_sleep_flags, find_first, pack_knockback_direction,
    pack_polymorph_flags, pack_ratio_flags, pack_sleep_flags, receive_apply_status_effect,
    receive_raise_corpse_messages, receive_spell_hit_messages, unpack_knockback_direction, unpack_ratio_flags,
    PolymorphTalents, RaiseOrder, RaiseTalents, SleepTalents, SpellHitOrder, StatusEffectKind, StatusOrder,
    StatusTarget, F32_ONE_BITS, RAISE_EMPOWERED_UNDEAD, RAISE_UNDEAD_DETONATION, SLEEP_COMATOSE, SLEEP_DREAMWALKER,
    STATUS_KIND_COUNT,
};

type Msg = PeerMessage<u32>;

#[test]
fn status_kind_ordinals_round_trip() {
    for v in 0..STATUS_KIND_COUNT {
        let k = StatusEffectKind::from_u8(v).unwrap();
        assert_eq!(k.to_u8(), v);
    }
    assert_eq!(StatusEffectKind::from_u8(STATUS_KIND_COUNT), None);
    assert_eq!(StatusEffectKind::from_u8(255), None);
    assert_eq!(StatusEffectKind::Polymorph.to_u8(), 2);
    assert_eq!(StatusEffectKind::FogEvasion.to_u8(), 13);
}

#[test]
fn sleep_and_polymorph_talents_round_trip() {
    let t = SleepTalents { night_terrors: false, comatose: true, narcoleptic_wave: false, dreamwalker: true };
    let f = pack_sleep_flags(t);
    assert_eq!(f, SLEEP_COMATOSE | SLEEP_DREAMWALKER);
    assert_eq!(decode_sleep_flags(f), t);
    let p = PolymorphTalents { explosive: true, contagious: false, pig: true, permanent: false, dire: true };
    assert_eq!(pack_polymorph_flags(p), 0x1 | 0x4 | 0x10);
    assert_eq!(decode_polymorph_flags(pack_polymorph_flags(p)), p);
}

#[test]
fn raise_talents_decode() {
    let t = decode_raise_flags(RAISE_EMPOWERED_UNDEAD | RAISE_UNDEAD_DETONATION);
    assert_eq!(
        t,
        RaiseTalents {
            empowered_undead: true,
            revenant_lord: false,
            plague_bearer: false,
            perpetual_unrest: false,
            undead_detonation: true,
        }
    );
}

#[test]
fn knockback_direction_round_trip() {
    let f = pack_knockback_direction(-1000, 707);
    assert_eq!(f, 0xFC18 | (707u32 << 16));
    assert_eq!(unpack_knockback_direction(f), (-1000, 707));
    assert_eq!(unpack_knockback_direction(pack_knockback_direction(0, -1)), (0, -1));
}

#[test]
fn ratio_flags_keep_low_sixteen_bits() {
    assert_eq!(pack_ratio_flags(15000), 15000);
    assert_eq!(unpack_ratio_flags(pack_ratio_flags(65535)), 65535);
    assert_eq!(pack_ratio_flags(0x1_0005), 5);
}

#[test]
fn find_first_takes_earliest() {
    assert_eq!(find_first(&vec![4, 7, 7], 7), Some(1));
    assert_eq!(find_first(&vec![4, 7, 7], 9), None);
    assert_eq!(find_first(&vec![], 0), None);
}

#[test]
fn raise_requests_route_to_corpses() {
    let mut incoming: Vec<Msg> = vec![
        PeerMessage::RaiseCorpse { target_network_id: 20, flags: RAISE_EMPOWERED_UNDEAD, empowerment: 7 },
        PeerMessage::Other(1),
        PeerMessage::RaiseCorpse { target_network_id: 99, flags: 0, empowerment: 0 },
        PeerMessage::GameLoaded,
        PeerMessage::RaiseCorpse { target_network_id: 10, flags: 0, empowerment: 3 },
    ];
    let corpses = vec![10, 20, 20];
    let orders = receive_raise_corpse_messages(&mut incoming, &corpses, true);
    assert_eq!(
        orders,
        vec![
            RaiseOrder { corpse: 1, talents: decode_raise_flags(RAISE_EMPOWERED_UNDEAD), empowerment: 7 },
            RaiseOrder { corpse: 0, talents: decode_raise_flags(0), empowerment: 3 },
        ]
    );
    assert_eq!(incoming, vec![PeerMessage::Other(1), PeerMessage::GameLoaded]);
}

#[test]
fn raise_requests_wait_for_assets() {
    let mut incoming: Vec<Msg> =
        vec![PeerMessage::RaiseCorpse { target_network_id: 1, flags: 0, empowerment: 0 }, PeerMessage::Other(5)];
    let orders = receive_raise_corpse_messages(&mut incoming, &vec![1], false);
    assert!(orders.is_empty());
    assert_eq!(incoming.len(), 2);
}

#[test]
fn status_requests_route_skip_and_fall_back() {
    let units = vec![
        StatusTarget { network_id: 5, polymorphed: false, defender: true },
        StatusTarget { network_id: 6, polymorphed: true, defender: false },
    ];
    let mut incoming: Vec<Msg> = vec![
        // Mind control on a defender rallies it home.
        PeerMessage::ApplyStatusEffect { target_network_id: 5, kind: 3, duration: 11, magnitude: 12, flags: 0 },
        // Unknown ordinal: skipped.
        PeerMessage::ApplyStatusEffect { target_network_id: 5, kind: 200, duration: 0, magnitude: 0, flags: 0 },
        // Second polymorph on a sheep: it sleeps instead.
        PeerMessage::ApplyStatusEffect { target_network_id: 6, kind: 2, duration: 1, magnitude: 1, flags: 1 },
        // Unknown target: skipped.
        PeerMessage::ApplyStatusEffect { target_network_id: 7, kind: 0, duration: 1, magnitude: 1, flags: 0 },
        PeerMessage::Other(9),
        PeerMessage::ApplyStatusEffect { target_network_id: 6, kind: 12, duration: 4, magnitude: 0, flags: 0 },
    ];
    let orders = receive_apply_status_effect(&mut incoming, &units);
    assert_eq!(
        orders,
        vec![
            StatusOrder {
                unit: 0,
                kind: StatusEffectKind::MindControl,
                duration: 11,
                magnitude: 12,
                flags: 0,
                rally_home: true,
            },
            StatusOrder {
                unit: 1,
                kind: StatusEffectKind::Sleep,
                duration: 1,
                magnitude: F32_ONE_BITS,
                flags: 0,
                rally_home: false,
            },
            StatusOrder {
                unit: 1,
                kind: StatusEffectKind::Stun,
                duration: 4,
                magnitude: 0,
                flags: 0,
                rally_home: false,
            },
        ]
    );
    assert_eq!(incoming, vec![PeerMessage::Other(9)]);
}

#[test]
fn polymorph_applies_to_unpolymorphed_unit() {
    let units = vec![StatusTarget { network_id: 1, polymorphed: false, defender: false }];
    let mut incoming: Vec<Msg> =
        vec![PeerMessage::ApplyStatusEffect { target_network_id: 1, kind: 2, duration: 5, magnitude: 6, flags: 3 }];
    let orders = receive_apply_status_effect(&mut incoming, &units);
    assert_eq!(orders.len(), 1);
    assert_eq!(orders[0].kind, StatusEffectKind::Polymorph);
    assert!(!orders[0].rally_home);
}

#[test]
fn spell_hits_are_attributed_to_attackers() {
    let mut incoming: Vec<Msg> = vec![
        PeerMessage::SpellHitUnit { target_network_id: 3, damage: 40, damage_type: 2 },
        PeerMessage::Forfeit,
        PeerMessage::SpellHitUnit { target_network_id: 8, damage: 1, damage_type: 1 },
    ];
    let orders = receive_spell_hit_messages(&mut incoming, &vec![8, 3]);
    assert_eq!(orders[0], SpellHitOrder { unit: 1, damage: 40, damage_type: 2, source_team: Team::Attackers });
    assert_eq!(orders[1], SpellHitOrder { unit: 0, damage: 1, damage_type: 1, source_team: Team::Attackers });
    assert_eq!(incoming, vec![PeerMessage::Forfeit]);
}

#[test]
fn dispel_requests_decide_per_effect() {
    let effects = vec![
        NetworkedEffect { network_id: Some(100), entity_index: 1, is_arcane_crystal: true, dispellable: false },
        NetworkedEffect { network_id: None, entity_index: 42, is_arcane_crystal: false, dispellable: true },
        NetworkedEffect { network_id: Some(7), entity_index: 2, is_arcane_crystal: false, dispellable: false },
    ];
    let mut incoming: Vec<Msg> = vec![
        PeerMessage::DispelSpellEffect { target_network_id: 100 },
        PeerMessage::DispelSpellEffect { target_network_id: 42 },
        PeerMessage::DispelSpellEffect { target_network_id: 7 },
        PeerMessage::DispelSpellEffect { target_network_id: 1 },
        PeerMessage::Other(3),
        PeerMessage::DispelShield { target_network_id: 55 },
        PeerMessage::DispelShield { target_network_id: 56 },
    ];
    let actions = receive_dispel_messages(&mut incoming, &effects, &vec![50, 55]);
    assert_eq!(
        actions,
        vec![
            DispelAction::Shatter { effect: 0 },
            DispelAction::Despawn { effect: 1 },
            DispelAction::StripShield { unit: 1 },
        ]
    );
    assert_eq!(incoming, vec![PeerMessage::Other(3)]);
}

#[test]
fn wall_messages_become_obstacle_changes() {
    let r = RectBits { x0: 1, y0: 2, x1: 3, y1: 4 };
    let mut incoming: Vec<Msg> = vec![
        PeerMessage::WallPlaced { bounds: r, placed: true },
        PeerMessage::Other(0),
        PeerMessage::WallPlaced { bounds: r, placed: false },
    ];
    let changes = receive_wall_placement(&mut incoming);
    assert_eq!(
        changes,
        vec![ObstacleChanged { bounds: r, blocked: true }, ObstacleChanged { bounds: r, blocked: false }]
    );
    assert_eq!(incoming, vec![PeerMessage::Other(0)]);
}

#[test]
fn teleports_are_taken_in_order() {
    let mut incoming: Vec<Msg> = vec![
        PeerMessage::TeleportUnits { source_x: 1, source_z: 2, dest_x: 3, dest_z: 4, radius: 5 },
        PeerMessage::Other(8),
        PeerMessage::TeleportUnits { source_x: 6, source_z: 7, dest_x: 8, dest_z: 9, radius: 10 },
    ];
    let orders = receive_teleport_message(&mut incoming);
    assert_eq!(
        orders,
        vec![
            TeleportOrder { source_x: 1, source_z: 2, dest_x: 3, dest_z: 4, radius: 5 },
            TeleportOrder { source_x: 6, source_z: 7, dest_x: 8, dest_z: 9, radius: 10 },
        ]
    );
    assert_eq!(incoming, vec![PeerMessage::Other(8)]);
}

#[test]
fn excremage_hits_become_poop() {
    let hits = vec![
        PendingHit { target_network_id: 1, damage: 10, damage_type: 3 },
        PendingHit { target_network_id: 2, damage: 20, damage_type: 4 },
    ];
    let mut out: Vec<Msg> = vec![PeerMessage::Other(0)];
    forward_spell_hits_to_host(&mut out, &hits, true, 9);
    assert_eq!(
        out,
        vec![
            PeerMessage::Other(0),
            PeerMessage::SpellHitUnit { target_network_id: 1, damage: 10, damage_type: 9 },
            PeerMessage::SpellHitUnit { target_network_id: 2, damage: 20, damage_type: 9 },
        ]
    );
    let mut plain: Vec<Msg> = Vec::new();
    forward_spell_hits_to_host(&mut plain, &hits, false, 9);
    assert_eq!(plain[1], PeerMessage::SpellHitUnit { target_network_id: 2, damage: 20, damage_type: 4 });
}

#[test]
fn forwarded_hits_are_recorded_by_host() {
    let hits = vec![
        PendingHit { target_network_id: 30, damage: 5, damage_type: 1 },
        PendingHit { target_network_id: 10, damage: 6, damage_type: 2 },
    ];
    let mut wire: Vec<Msg> = Vec::new();
    forward_spell_hits_to_host(&mut wire, &hits, false, 0);
    let orders = receive_spell_hit_messages(&mut wire, &vec![10, 20, 30]);
    assert_eq!(
        orders,
        vec![
            SpellHitOrder { unit: 2, damage: 5, damage_type: 1, source_team: Team::Attackers },
            SpellHitOrder { unit: 0, damage: 6, damage_type: 2, source_team: Team::Attackers },
        ]
    );
    assert!(wire.is_empty());
}

#[test]
fn sleep_fallback_magnitude_is_one() {
    assert_eq!(F32_ONE_BITS, 1.0f32.to_bits());
}
