//! Wire encodings of per-unit state: the snapshot's unit flag word, the
//! one-byte effect mask of a CRDT update, and the `flags` word of a forwarded
//! status effect (talent bits, a packed knockback direction, a packed ratio).

use vstd::prelude::*;

verus! {

pub const FLAG_CORPSE: u32 = 0x1;
pub const FLAG_KING: u32 = 0x2;
pub const FLAG_ARCHER: u32 = 0x4;
pub const FLAG_KINGS_GUARD: u32 = 0x8;
pub const FLAG_FIRE_EFFECT: u32 = 0x10;
pub const FLAG_FROST_EFFECT: u32 = 0x20;
pub const FLAG_ELECTRIC_EFFECT: u32 = 0x40;
pub const FLAG_SPELL_SHIELD: u32 = 0x80;
pub const FLAG_COMBAT_ANIMATION: u32 = 0x100;
pub const FLAG_MARK_EFFECT: u32 = 0x200;
pub const FLAG_POISON_EFFECT: u32 = 0x400;
pub const FLAG_POLYMORPH: u32 = 0x800;
pub const FLAG_SMELLY: u32 = 0x1000;
pub const FLAG_SWORDCERER_AVATAR: u32 = 0x2000;
pub const FLAG_IN_MELEE: u32 = 0x4000;
pub const FLAG_BERSERKER_RAGE: u32 = 0x8000;
pub const FLAG_BATTLE_HYMN: u32 = 0x10000;
pub const FLAG_TEMP_HP: u32 = 0x20000;
pub const FLAG_HASTE: u32 = 0x40000;
pub const FLAG_HEALING: u32 = 0x80000;

/// Everything the host reports about one unit, one boolean per flag bit.
#[derive(PartialEq, Eq, Structural, Clone, Copy, Debug)]
pub struct UnitStatus {
    pub corpse: bool,
    pub king: bool,
    pub archer: bool,
    pub kings_guard: bool,
    pub fire: bool,
    pub frost: bool,
    pub electric: bool,
    pub spell_shield: bool,
    pub combat: bool,
    pub mark: bool,
    pub poison: bool,
    pub polymorph: bool,
    pub smelly: bool,
    pub swordcerer_avatar: bool,
    pub in_melee: bool,
    pub rage: bool,
    pub battle_hymn: bool,
    pub temp_hp: bool,
    pub haste: bool,
    pub healing: bool,
}

/// `mask` when `b` holds, else no bit.
pub open spec fn bit(b: bool, mask: u32) -> u32 {
    if b { mask } else { 0 }
}

fn bit_of(b: bool, mask: u32) -> (r: u32)
    ensures
        r == bit(b, mask),
{
    if b { mask } else { 0 }
}

/// The bits of the first ten statuses.
#[verifier::opaque]
pub open spec fn pack_low(s: UnitStatus) -> u32 {
    bit(s.corpse, FLAG_CORPSE) | bit(s.king, FLAG_KING) | bit(s.archer, FLAG_ARCHER) | bit(s.kings_guard, FLAG_KINGS_GUARD) | bit(s.fire, FLAG_FIRE_EFFECT) | bit(s.frost, FLAG_FROST_EFFECT) | bit(s.electric, FLAG_ELECTRIC_EFFECT) | bit(s.spell_shield, FLAG_SPELL_SHIELD) | bit(s.combat, FLAG_COMBAT_ANIMATION) | bit(s.mark, FLAG_MARK_EFFECT)
}

/// The bits of the last ten statuses.
#[verifier::opaque]
pub open spec fn pack_high(s: UnitStatus) -> u32 {
    bit(s.poison, FLAG_POISON_EFFECT) | bit(s.polymorph, FLAG_POLYMORPH) | bit(s.smelly, FLAG_SMELLY) | bit(s.swordcerer_avatar, FLAG_SWORDCERER_AVATAR) | bit(s.in_melee, FLAG_IN_MELEE) | bit(s.rage, FLAG_BERSERKER_RAGE) | bit(s.battle_hymn, FLAG_BATTLE_HYMN) | bit(s.temp_hp, FLAG_TEMP_HP) | bit(s.haste, FLAG_HASTE) | bit(s.healing, FLAG_HEALING)
}

/// The flag word: the bit of every set status.
pub open spec fn spec_pack_unit_flags(s: UnitStatus) -> u32 {
    pack_low(s) | pack_high(s)
}

/// Host: packs a unit's status into the snapshot flag word.
pub fn pack_unit_flags(s: &UnitStatus) -> (flags: u32)
    ensures
        flags == spec_pack_unit_flags(*s),
{
    proof {
        reveal(pack_low);
        reveal(pack_high);
    }
    let low = bit_of(s.corpse, FLAG_CORPSE) | bit_of(s.king, FLAG_KING) | bit_of(s.archer, FLAG_ARCHER) | bit_of(s.kings_guard, FLAG_KINGS_GUARD) | bit_of(s.fire, FLAG_FIRE_EFFECT) | bit_of(s.frost, FLAG_FROST_EFFECT) | bit_of(s.electric, FLAG_ELECTRIC_EFFECT) | bit_of(s.spell_shield, FLAG_SPELL_SHIELD) | bit_of(s.combat, FLAG_COMBAT_ANIMATION) | bit_of(s.mark, FLAG_MARK_EFFECT);
    let high = bit_of(s.poison, FLAG_POISON_EFFECT) | bit_of(s.polymorph, FLAG_POLYMORPH) | bit_of(s.smelly, FLAG_SMELLY) | bit_of(s.swordcerer_avatar, FLAG_SWORDCERER_AVATAR) | bit_of(s.in_melee, FLAG_IN_MELEE) | bit_of(s.rage, FLAG_BERSERKER_RAGE) | bit_of(s.battle_hymn, FLAG_BATTLE_HYMN) | bit_of(s.temp_hp, FLAG_TEMP_HP) | bit_of(s.haste, FLAG_HASTE) | bit_of(s.healing, FLAG_HEALING);
    low | high
}

/// Whether `mask` is set in `flags`.
pub open spec fn flag_set(flags: u32, mask: u32) -> bool {
    flags & mask != 0
}

pub open spec fn spec_decode_unit_flags(flags: u32) -> UnitStatus {
    UnitStatus {
        corpse: flag_set(flags, FLAG_CORPSE),
        king: flag_set(flags, FLAG_KING),
        archer: flag_set(flags, FLAG_ARCHER),
        kings_guard: flag_set(flags, FLAG_KINGS_GUARD),
        fire: flag_set(flags, FLAG_FIRE_EFFECT),
        frost: flag_set(flags, FLAG_FROST_EFFECT),
        electric: flag_set(flags, FLAG_ELECTRIC_EFFECT),
        spell_shield: flag_set(flags, FLAG_SPELL_SHIELD),
        combat: flag_set(flags, FLAG_COMBAT_ANIMATION),
        mark: flag_set(flags, FLAG_MARK_EFFECT),
        poison: flag_set(flags, FLAG_POISON_EFFECT),
        polymorph: flag_set(flags, FLAG_POLYMORPH),
        smelly: flag_set(flags, FLAG_SMELLY),
        swordcerer_avatar: flag_set(flags, FLAG_SWORDCERER_AVATAR),
        in_melee: flag_set(flags, FLAG_IN_MELEE),
        rage: flag_set(flags, FLAG_BERSERKER_RAGE),
        battle_hymn: flag_set(flags, FLAG_BATTLE_HYMN),
        temp_hp: flag_set(flags, FLAG_TEMP_HP),
        haste: flag_set(flags, FLAG_HASTE),
        healing: flag_set(flags, FLAG_HEALING),
    }
}

/// Guest: decodes a snapshot flag word.
pub fn decode_unit_flags(flags: u32) -> (s: UnitStatus)
    ensures
        s == spec_decode_unit_flags(flags),
{
    UnitStatus {
        corpse: flags & FLAG_CORPSE != 0,
        king: flags & FLAG_KING != 0,
        archer: flags & FLAG_ARCHER != 0,
        kings_guard: flags & FLAG_KINGS_GUARD != 0,
        fire: flags & FLAG_FIRE_EFFECT != 0,
        frost: flags & FLAG_FROST_EFFECT != 0,
        electric: flags & FLAG_ELECTRIC_EFFECT != 0,
        spell_shield: flags & FLAG_SPELL_SHIELD != 0,
        combat: flags & FLAG_COMBAT_ANIMATION != 0,
        mark: flags & FLAG_MARK_EFFECT != 0,
        poison: flags & FLAG_POISON_EFFECT != 0,
        polymorph: flags & FLAG_POLYMORPH != 0,
        smelly: flags & FLAG_SMELLY != 0,
        swordcerer_avatar: flags & FLAG_SWORDCERER_AVATAR != 0,
        in_melee: flags & FLAG_IN_MELEE != 0,
        rage: flags & FLAG_BERSERKER_RAGE != 0,
        battle_hymn: flags & FLAG_BATTLE_HYMN != 0,
        temp_hp: flags & FLAG_TEMP_HP != 0,
        haste: flags & FLAG_HASTE != 0,
        healing: flags & FLAG_HEALING != 0,
    }
}

proof fn lemma_low_bits(p: u32, corpse: bool, king: bool, archer: bool, kings_guard: bool, fire: bool, frost: bool, electric: bool, spell_shield: bool, combat: bool, mark: bool)
    by (bit_vector)
    requires
        p == bit(corpse, FLAG_CORPSE) | bit(king, FLAG_KING) | bit(archer, FLAG_ARCHER) | bit(kings_guard, FLAG_KINGS_GUARD) | bit(fire, FLAG_FIRE_EFFECT) | bit(frost, FLAG_FROST_EFFECT) | bit(electric, FLAG_ELECTRIC_EFFECT) | bit(spell_shield, FLAG_SPELL_SHIELD) | bit(combat, FLAG_COMBAT_ANIMATION) | bit(mark, FLAG_MARK_EFFECT),
    ensures
        flag_set(p, FLAG_CORPSE) == corpse,
        flag_set(p, FLAG_KING) == king,
        flag_set(p, FLAG_ARCHER) == archer,
        flag_set(p, FLAG_KINGS_GUARD) == kings_guard,
        flag_set(p, FLAG_FIRE_EFFECT) == fire,
        flag_set(p, FLAG_FROST_EFFECT) == frost,
        flag_set(p, FLAG_ELECTRIC_EFFECT) == electric,
        flag_set(p, FLAG_SPELL_SHIELD) == spell_shield,
        flag_set(p, FLAG_COMBAT_ANIMATION) == combat,
        flag_set(p, FLAG_MARK_EFFECT) == mark,
        !flag_set(p, FLAG_POISON_EFFECT),
        !flag_set(p, FLAG_POLYMORPH),
        !flag_set(p, FLAG_SMELLY),
        !flag_set(p, FLAG_SWORDCERER_AVATAR),
        !flag_set(p, FLAG_IN_MELEE),
        !flag_set(p, FLAG_BERSERKER_RAGE),
        !flag_set(p, FLAG_BATTLE_HYMN),
        !flag_set(p, FLAG_TEMP_HP),
        !flag_set(p, FLAG_HASTE),
        !flag_set(p, FLAG_HEALING),
{
}

proof fn lemma_high_bits(p: u32, poison: bool, polymorph: bool, smelly: bool, swordcerer_avatar: bool, in_melee: bool, rage: bool, battle_hymn: bool, temp_hp: bool, haste: bool, healing: bool)
    by (bit_vector)
    requires
        p == bit(poison, FLAG_POISON_EFFECT) | bit(polymorph, FLAG_POLYMORPH) | bit(smelly, FLAG_SMELLY) | bit(swordcerer_avatar, FLAG_SWORDCERER_AVATAR) | bit(in_melee, FLAG_IN_MELEE) | bit(rage, FLAG_BERSERKER_RAGE) | bit(battle_hymn, FLAG_BATTLE_HYMN) | bit(temp_hp, FLAG_TEMP_HP) | bit(haste, FLAG_HASTE) | bit(healing, FLAG_HEALING),
    ensures
        flag_set(p, FLAG_POISON_EFFECT) == poison,
        flag_set(p, FLAG_POLYMORPH) == polymorph,
        flag_set(p, FLAG_SMELLY) == smelly,
        flag_set(p, FLAG_SWORDCERER_AVATAR) == swordcerer_avatar,
        flag_set(p, FLAG_IN_MELEE) == in_melee,
        flag_set(p, FLAG_BERSERKER_RAGE) == rage,
        flag_set(p, FLAG_BATTLE_HYMN) == battle_hymn,
        flag_set(p, FLAG_TEMP_HP) == temp_hp,
        flag_set(p, FLAG_HASTE) == haste,
        flag_set(p, FLAG_HEALING) == healing,
        !flag_set(p, FLAG_CORPSE),
        !flag_set(p, FLAG_KING),
        !flag_set(p, FLAG_ARCHER),
        !flag_set(p, FLAG_KINGS_GUARD),
        !flag_set(p, FLAG_FIRE_EFFECT),
        !flag_set(p, FLAG_FROST_EFFECT),
        !flag_set(p, FLAG_ELECTRIC_EFFECT),
        !flag_set(p, FLAG_SPELL_SHIELD),
        !flag_set(p, FLAG_COMBAT_ANIMATION),
        !flag_set(p, FLAG_MARK_EFFECT),
{
}

proof fn lemma_or_has(x: u32, y: u32, m: u32)
    by (bit_vector)
    ensures
        flag_set(x | y, m) == (flag_set(x, m) || flag_set(y, m)),
{
}

/// The guest reads back exactly what the host packed: decoding a packed flag
/// word gives the unit status it was packed from.
pub proof fn lemma_unit_flags_round_trip(s: UnitStatus)
    ensures
        spec_decode_unit_flags(spec_pack_unit_flags(s)) == s,
{
    let l = pack_low(s);
    let h = pack_high(s);
    assert({
        &&& flag_set(l, FLAG_CORPSE) == s.corpse
        &&& flag_set(l, FLAG_KING) == s.king
        &&& flag_set(l, FLAG_ARCHER) == s.archer
        &&& flag_set(l, FLAG_KINGS_GUARD) == s.kings_guard
        &&& flag_set(l, FLAG_FIRE_EFFECT) == s.fire
        &&& flag_set(l, FLAG_FROST_EFFECT) == s.frost
        &&& flag_set(l, FLAG_ELECTRIC_EFFECT) == s.electric
        &&& flag_set(l, FLAG_SPELL_SHIELD) == s.spell_shield
        &&& flag_set(l, FLAG_COMBAT_ANIMATION) == s.combat
        &&& flag_set(l, FLAG_MARK_EFFECT) == s.mark
        &&& !flag_set(l, FLAG_POISON_EFFECT)
        &&& !flag_set(l, FLAG_POLYMORPH)
        &&& !flag_set(l, FLAG_SMELLY)
        &&& !flag_set(l, FLAG_SWORDCERER_AVATAR)
        &&& !flag_set(l, FLAG_IN_MELEE)
        &&& !flag_set(l, FLAG_BERSERKER_RAGE)
        &&& !flag_set(l, FLAG_BATTLE_HYMN)
        &&& !flag_set(l, FLAG_TEMP_HP)
        &&& !flag_set(l, FLAG_HASTE)
        &&& !flag_set(l, FLAG_HEALING)
    }) by {
        reveal(pack_low);
        lemma_low_bits(l, s.corpse, s.king, s.archer, s.kings_guard, s.fire, s.frost, s.electric, s.spell_shield, s.combat, s.mark);
    }
    assert({
        &&& flag_set(h, FLAG_POISON_EFFECT) == s.poison
        &&& flag_set(h, FLAG_POLYMORPH) == s.polymorph
        &&& flag_set(h, FLAG_SMELLY) == s.smelly
        &&& flag_set(h, FLAG_SWORDCERER_AVATAR) == s.swordcerer_avatar
        &&& flag_set(h, FLAG_IN_MELEE) == s.in_melee
        &&& flag_set(h, FLAG_BERSERKER_RAGE) == s.rage
        &&& flag_set(h, FLAG_BATTLE_HYMN) == s.battle_hymn
        &&& flag_set(h, FLAG_TEMP_HP) == s.temp_hp
        &&& flag_set(h, FLAG_HASTE) == s.haste
        &&& flag_set(h, FLAG_HEALING) == s.healing
        &&& !flag_set(h, FLAG_CORPSE)
        &&& !flag_set(h, FLAG_KING)
        &&& !flag_set(h, FLAG_ARCHER)
        &&& !flag_set(h, FLAG_KINGS_GUARD)
        &&& !flag_set(h, FLAG_FIRE_EFFECT)
        &&& !flag_set(h, FLAG_FROST_EFFECT)
        &&& !flag_set(h, FLAG_ELECTRIC_EFFECT)
        &&& !flag_set(h, FLAG_SPELL_SHIELD)
        &&& !flag_set(h, FLAG_COMBAT_ANIMATION)
        &&& !flag_set(h, FLAG_MARK_EFFECT)
    }) by {
        reveal(pack_high);
        lemma_high_bits(h, s.poison, s.polymorph, s.smelly, s.swordcerer_avatar, s.in_melee, s.rage, s.battle_hymn, s.temp_hp, s.haste, s.healing);
    }
    lemma_or_has(l, h, FLAG_CORPSE);
    lemma_or_has(l, h, FLAG_KING);
    lemma_or_has(l, h, FLAG_ARCHER);
    lemma_or_has(l, h, FLAG_KINGS_GUARD);
    lemma_or_has(l, h, FLAG_FIRE_EFFECT);
    lemma_or_has(l, h, FLAG_FROST_EFFECT);
    lemma_or_has(l, h, FLAG_ELECTRIC_EFFECT);
    lemma_or_has(l, h, FLAG_SPELL_SHIELD);
    lemma_or_has(l, h, FLAG_COMBAT_ANIMATION);
    lemma_or_has(l, h, FLAG_MARK_EFFECT);
    lemma_or_has(l, h, FLAG_POISON_EFFECT);
    lemma_or_has(l, h, FLAG_POLYMORPH);
    lemma_or_has(l, h, FLAG_SMELLY);
    lemma_or_has(l, h, FLAG_SWORDCERER_AVATAR);
    lemma_or_has(l, h, FLAG_IN_MELEE);
    lemma_or_has(l, h, FLAG_BERSERKER_RAGE);
    lemma_or_has(l, h, FLAG_BATTLE_HYMN);
    lemma_or_has(l, h, FLAG_TEMP_HP);
    lemma_or_has(l, h, FLAG_HASTE);
    lemma_or_has(l, h, FLAG_HEALING);
}


/// The status-effect bits of a snapshot flag word: what the host says the
/// ghost *should* show.
#[derive(PartialEq, Eq, Structural, Clone, Copy, Debug)]
pub struct RemoteEffectFlags {
    pub fire: bool,
    pub frost: bool,
    pub electric: bool,
    pub spell_shield: bool,
    pub combat: bool,
    pub poison: bool,
    pub mark: bool,
    pub polymorph: bool,
    pub smelly: bool,
    pub in_melee: bool,
    pub rage: bool,
    pub battle_hymn: bool,
    pub temp_hp: bool,
    pub haste: bool,
    pub healing: bool,
}

pub open spec fn spec_remote_effects(flags: u32) -> RemoteEffectFlags {
    RemoteEffectFlags {
        fire: flag_set(flags, FLAG_FIRE_EFFECT),
        frost: flag_set(flags, FLAG_FROST_EFFECT),
        electric: flag_set(flags, FLAG_ELECTRIC_EFFECT),
        spell_shield: flag_set(flags, FLAG_SPELL_SHIELD),
        combat: flag_set(flags, FLAG_COMBAT_ANIMATION),
        poison: flag_set(flags, FLAG_POISON_EFFECT),
        mark: flag_set(flags, FLAG_MARK_EFFECT),
        polymorph: flag_set(flags, FLAG_POLYMORPH),
        smelly: flag_set(flags, FLAG_SMELLY),
        in_melee: flag_set(flags, FLAG_IN_MELEE),
        rage: flag_set(flags, FLAG_BERSERKER_RAGE),
        battle_hymn: flag_set(flags, FLAG_BATTLE_HYMN),
        temp_hp: flag_set(flags, FLAG_TEMP_HP),
        haste: flag_set(flags, FLAG_HASTE),
        healing: flag_set(flags, FLAG_HEALING),
    }
}

impl RemoteEffectFlags {
    /// Decodes the status-effect bits of a snapshot flag word.
    pub fn from_flags(flags: u32) -> (r: Self)
        ensures
            r == spec_remote_effects(flags),
    {
        RemoteEffectFlags {
            fire: flags & FLAG_FIRE_EFFECT != 0,
            frost: flags & FLAG_FROST_EFFECT != 0,
            electric: flags & FLAG_ELECTRIC_EFFECT != 0,
            spell_shield: flags & FLAG_SPELL_SHIELD != 0,
            combat: flags & FLAG_COMBAT_ANIMATION != 0,
            poison: flags & FLAG_POISON_EFFECT != 0,
            mark: flags & FLAG_MARK_EFFECT != 0,
            polymorph: flags & FLAG_POLYMORPH != 0,
            smelly: flags & FLAG_SMELLY != 0,
            in_melee: flags & FLAG_IN_MELEE != 0,
            rage: flags & FLAG_BERSERKER_RAGE != 0,
            battle_hymn: flags & FLAG_BATTLE_HYMN != 0,
            temp_hp: flags & FLAG_TEMP_HP != 0,
            haste: flags & FLAG_HASTE != 0,
            healing: flags & FLAG_HEALING != 0,
        }
    }
}

/// The effects the guest decodes are the effects the host packed.
pub proof fn lemma_remote_effects_match_status(s: UnitStatus)
    ensures
        spec_remote_effects(spec_pack_unit_flags(s)).fire == s.fire,
        spec_remote_effects(spec_pack_unit_flags(s)).frost == s.frost,
        spec_remote_effects(spec_pack_unit_flags(s)).electric == s.electric,
        spec_remote_effects(spec_pack_unit_flags(s)).spell_shield == s.spell_shield,
        spec_remote_effects(spec_pack_unit_flags(s)).combat == s.combat,
        spec_remote_effects(spec_pack_unit_flags(s)).poison == s.poison,
        spec_remote_effects(spec_pack_unit_flags(s)).mark == s.mark,
        spec_remote_effects(spec_pack_unit_flags(s)).polymorph == s.polymorph,
        spec_remote_effects(spec_pack_unit_flags(s)).smelly == s.smelly,
        spec_remote_effects(spec_pack_unit_flags(s)).in_melee == s.in_melee,
        spec_remote_effects(spec_pack_unit_flags(s)).rage == s.rage,
        spec_remote_effects(spec_pack_unit_flags(s)).battle_hymn == s.battle_hymn,
        spec_remote_effects(spec_pack_unit_flags(s)).temp_hp == s.temp_hp,
        spec_remote_effects(spec_pack_unit_flags(s)).haste == s.haste,
        spec_remote_effects(spec_pack_unit_flags(s)).healing == s.healing,
{
    lemma_unit_flags_round_trip(s);
}

/// The CRDT update's effect byte carries fire, frost and electric in the low
/// byte of the unit flag layout.
pub open spec fn spec_crdt_effects(fire: bool, frost: bool, electric: bool) -> u8 {
    (if fire { 0x10u8 } else { 0u8 }) | (if frost { 0x20u8 } else { 0u8 }) | (if electric {
        0x40u8
    } else {
        0u8
    })
}

/// Guest: the effect byte of a CRDT update from the ghost's local DoT markers.
pub fn crdt_effects(fire: bool, frost: bool, electric: bool) -> (effects: u8)
    ensures
        effects == spec_crdt_effects(fire, frost, electric),
{
    let f: u8 = if fire { 0x10u8 } else { 0u8 };
    let c: u8 = if frost { 0x20u8 } else { 0u8 };
    let e: u8 = if electric { 0x40u8 } else { 0u8 };
    f | c | e
}

/// Host: which effects a CRDT update's byte carries (fire, frost, electric).
pub fn decode_crdt_effects(effects: u8) -> (r: (bool, bool, bool))
    ensures
        r == (effects & 0x10u8 != 0, effects & 0x20u8 != 0, effects & 0x40u8 != 0),
{
    (effects & 0x10u8 != 0, effects & 0x20u8 != 0, effects & 0x40u8 != 0)
}

/// The effect byte loses nothing: the host decodes the effects the guest
/// encoded, and the three flags fit the byte unchanged.
pub proof fn lemma_crdt_effects_round_trip(fire: bool, frost: bool, electric: bool)
    ensures
        ({
            let e = spec_crdt_effects(fire, frost, electric);
            (e & 0x10u8 != 0, e & 0x20u8 != 0, e & 0x40u8 != 0) == (fire, frost, electric)
        }),
        FLAG_FIRE_EFFECT == 0x10u8 as u32,
        FLAG_FROST_EFFECT == 0x20u8 as u32,
        FLAG_ELECTRIC_EFFECT == 0x40u8 as u32,
{
    let e = spec_crdt_effects(fire, frost, electric);
    assert((e & 0x10u8 != 0) == fire && (e & 0x20u8 != 0) == frost && (e & 0x40u8 != 0) == electric)
        by (bit_vector)
        requires
            e == (if fire { 0x10u8 } else { 0u8 }) | (if frost { 0x20u8 } else { 0u8 }) | (if electric {
                0x40u8
            } else {
                0u8
            }),
    ;
}

} // verus!
