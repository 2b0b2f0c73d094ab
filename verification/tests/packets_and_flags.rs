use multiplayer::flags::{
    crdt_effects, decode_crdt_effects, decode_unit_flags, pack_unit_flags, RemoteEffectFlags, UnitStatus,
    FLAG_COMBAT_ANIMATION, FLAG_CORPSE, FLAG_ELECTRIC_EFFECT, FLAG_FIRE_EFFECT, FLAG_FROST_EFFECT, FLAG_HEALING,
    FLAG_KING,
};
use multiplayer::packets::{filter_latest_game_snapshot, filter_latest_packet, frame_packet, UNRELIABLE_GAME_SNAPSHOT};

fn no_status() -> UnitStatus {
    UnitStatus {
        corpse: false,
        king: false,
        archer: false,
        kings_guard: false,
        fire: false,
        frost: false,
        electric: false,
        spell_shield: false,
        combat: false,
        mark: false,
        poison: false,
        polymorph: false,
        smelly: false,
        swordcerer_avatar: false,
        in_melee: false,
        rage: false,
        battle_hymn: false,
        temp_hp: false,
        haste: false,
        healing: false,
    }
}

#[test]
fn frame_packet_puts_prefix_first() {
    let p = frame_packet(7, &vec![1, 2, 3]);
    assert_eq!(p, vec![7, 1, 2, 3]);
    assert_eq!(frame_packet(0, &vec![]), vec![0]);
}

#[test]
fn framed_game_snapshot_round_trips() {
    let framed = frame_packet(UNRELIABLE_GAME_SNAPSHOT, &vec![9, 8, 7]);
    let mut queue = vec![vec![5, 1], framed];
    let latest = filter_latest_game_snapshot(&mut queue);
    assert_eq!(latest, Some(vec![9, 8, 7]));
    assert_eq!(queue, vec![vec![5, 1]]);
}

#[test]
fn latest_snapshot_wins_and_others_requeued_in_order() {
    let mut queue = vec![
        vec![0, 1],
        vec![3, 10],
        vec![],
        vec![0, 2, 2],
        vec![4],
        vec![3, 11],
    ];
    let latest = filter_latest_packet(&mut queue, 0);
    assert_eq!(latest, Some(vec![2, 2]));
    // Empty packets are dropped; others keep their order.
    assert_eq!(queue, vec![vec![3, 10], vec![4], vec![3, 11]]);
}

#[test]
fn no_snapshot_this_frame() {
    let mut queue = vec![vec![2, 1], vec![]];
    assert_eq!(filter_latest_game_snapshot(&mut queue), None);
    assert_eq!(queue, vec![vec![2, 1]]);
    let mut empty: Vec<Vec<u8>> = Vec::new();
    assert_eq!(filter_latest_packet(&mut empty, 1), None);
    assert!(empty.is_empty());
}

#[test]
fn prefix_only_packet_has_empty_payload() {
    let mut queue = vec![vec![0]];
    assert_eq!(filter_latest_game_snapshot(&mut queue), Some(vec![]));
}

#[test]
fn unit_flags_pack_exact_bits() {
    let mut s = no_status();
    assert_eq!(pack_unit_flags(&s), 0);
    s.corpse = true;
    s.king = true;
    s.combat = true;
    s.healing = true;
    assert_eq!(pack_unit_flags(&s), FLAG_CORPSE | FLAG_KING | FLAG_COMBAT_ANIMATION | FLAG_HEALING);
    assert_eq!(FLAG_COMBAT_ANIMATION, 0x100);
}

#[test]
fn unit_flags_round_trip() {
    let mut s = no_status();
    s.archer = true;
    s.frost = true;
    s.polymorph = true;
    s.haste = true;
    s.in_melee = true;
    assert_eq!(decode_unit_flags(pack_unit_flags(&s)), s);
    let mut all = no_status();
    all.corpse = true;
    all.king = true;
    all.archer = true;
    all.kings_guard = true;
    all.fire = true;
    all.frost = true;
    all.electric = true;
    all.spell_shield = true;
    all.combat = true;
    all.mark = true;
    all.poison = true;
    all.polymorph = true;
    all.smelly = true;
    all.swordcerer_avatar = true;
    all.in_melee = true;
    all.rage = true;
    all.battle_hymn = true;
    all.temp_hp = true;
    all.haste = true;
    all.healing = true;
    assert_eq!(pack_unit_flags(&all), 0xFFFFF);
    assert_eq!(decode_unit_flags(0xFFFFF), all);
}

#[test]
fn remote_effects_read_snapshot_bits() {
    let r = RemoteEffectFlags::from_flags(FLAG_FIRE_EFFECT | FLAG_HEALING);
    assert!(r.fire);
    assert!(r.healing);
    assert!(!r.frost);
    assert!(!r.combat);
}

#[test]
fn crdt_effect_byte_round_trip() {
    let b = crdt_effects(true, false, true);
    assert_eq!(b as u32, FLAG_FIRE_EFFECT | FLAG_ELECTRIC_EFFECT);
    assert_eq!(decode_crdt_effects(b), (true, false, true));
    assert_eq!(decode_crdt_effects(crdt_effects(false, true, false)), (false, true, false));
    assert_eq!(crdt_effects(false, false, false), 0);
    assert_eq!(FLAG_FROST_EFFECT, 0x20);
}
