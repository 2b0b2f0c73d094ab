//! Guest-side reconciliation of ghost entities with the host's snapshot: which
//! material a ghost wears, which markers to add or remove on a flag's on/off
//! edge, what a newly seen unit is spawned with, which ghosts went stale, and
//! the two-way map between remote spell-effect ids and local entities.

use vstd::prelude::*;
use std::collections::HashMap;
use crate::session::Team;
use crate::flags::UnitStatus;

verus! {

broadcast use vstd::std_specs::hash::group_hash_axioms;

/// `rand::random_range(0..n)`: some index below `n`.
#[verifier::external_body]
fn random_index_below(n: usize) -> (r: usize)
    requires
        n > 0,
    ensures
        r < n,
{
    rand::random_range(0..n)
}

/// What to do with a marker component so it agrees with a snapshot flag.
#[derive(PartialEq, Eq, Structural, Clone, Copy, Debug)]
pub enum MarkerEdit {
    Insert,
    Remove,
    Keep,
}

pub open spec fn spec_marker_edit(has_marker: bool, flag_set: bool) -> MarkerEdit {
    if flag_set && !has_marker {
        MarkerEdit::Insert
    } else if !flag_set && has_marker {
        MarkerEdit::Remove
    } else {
        MarkerEdit::Keep
    }
}

/// Inserts the marker on the flag's off-to-on edge and removes it on the
/// on-to-off edge; keeps it while flag and marker agree.
pub fn marker_edit(has_marker: bool, flag_set: bool) -> (e: MarkerEdit)
    ensures
        e == spec_marker_edit(has_marker, flag_set),
{
    if flag_set && !has_marker {
        MarkerEdit::Insert
    } else if !flag_set && has_marker {
        MarkerEdit::Remove
    } else {
        MarkerEdit::Keep
    }
}

/// Whether the marker is present after the edit.
pub open spec fn after_edit(has_marker: bool, e: MarkerEdit) -> bool {
    match e {
        MarkerEdit::Insert => true,
        MarkerEdit::Remove => false,
        MarkerEdit::Keep => has_marker,
    }
}

/// The ghost converges on the host: after its edit a marker agrees with the
/// snapshot flag, and a second pass with the same flag changes nothing.
pub proof fn lemma_marker_edit_converges(has_marker: bool, flag_set: bool)
    ensures
        after_edit(has_marker, spec_marker_edit(has_marker, flag_set)) == flag_set,
        spec_marker_edit(after_edit(has_marker, spec_marker_edit(has_marker, flag_set)), flag_set)
            == MarkerEdit::Keep,
{
}

/// Which material a ghost wears.
#[derive(PartialEq, Eq, Structural, Clone, Copy, Debug)]
pub enum GhostMaterial {
    KingCorpse { variant: usize },
    ArcherCorpse { team: Team, variant: usize },
    InfantryCorpse { team: Team, variant: usize },
    /// Raised undead, whatever unit they were raised from.
    UndeadSprite,
    KingSprite,
    ArcherSprite { team: Team },
    KingsGuardSprite,
    InfantrySprite { team: Team },
}

/// The material rule, given the corpse variant that was drawn.
pub open spec fn spec_material(
    team: Team,
    is_corpse: bool,
    is_king: bool,
    is_archer: bool,
    is_guard: bool,
    variant: usize,
) -> GhostMaterial {
    if is_corpse {
        if is_king {
            GhostMaterial::KingCorpse { variant }
        } else if is_archer {
            GhostMaterial::ArcherCorpse { team, variant }
        } else {
            GhostMaterial::InfantryCorpse { team, variant }
        }
    } else if team == Team::Undead {
        GhostMaterial::UndeadSprite
    } else if is_king {
        GhostMaterial::KingSprite
    } else if is_archer {
        GhostMaterial::ArcherSprite { team }
    } else if is_guard {
        GhostMaterial::KingsGuardSprite
    } else {
        GhostMaterial::InfantrySprite { team }
    }
}

/// Picks a ghost's material: a random corpse variant of the unit's sheet for
/// corpses; otherwise the undead sprite for raised undead, then the king,
/// archer (team tint), king's-guard or infantry (team tint) sprite.
pub fn pick_material(
    team: Team,
    is_corpse: bool,
    is_king: bool,
    is_archer: bool,
    is_guard: bool,
    corpse_variants: usize,
) -> (m: GhostMaterial)
    requires
        corpse_variants > 0,
    ensures
        exists|v: usize|
            v < corpse_variants && m == #[trigger] spec_material(team, is_corpse, is_king, is_archer, is_guard, v),
        !is_corpse ==> m == spec_material(team, is_corpse, is_king, is_archer, is_guard, 0),
{
    if is_corpse {
        let variant = random_index_below(corpse_variants);
        let m = if is_king {
            GhostMaterial::KingCorpse { variant }
        } else if is_archer {
            GhostMaterial::ArcherCorpse { team, variant }
        } else {
            GhostMaterial::InfantryCorpse { team, variant }
        };
        assert(m == spec_material(team, is_corpse, is_king, is_archer, is_guard, variant));
        m
    } else {
        let m = match team {
            Team::Undead => GhostMaterial::UndeadSprite,
            _ => {
                if is_king {
                    GhostMaterial::KingSprite
                } else if is_archer {
                    GhostMaterial::ArcherSprite { team }
                } else if is_guard {
                    GhostMaterial::KingsGuardSprite
                } else {
                    GhostMaterial::InfantrySprite { team }
                }
            },
        };
        assert(m == spec_material(team, is_corpse, is_king, is_archer, is_guard, 0));
        m
    }
}

/// The team a unit in melee is fighting: defenders fight attackers, everyone
/// else fights defenders.
pub open spec fn spec_melee_opponent(team: Team) -> Team {
    match team {
        Team::Defenders => Team::Attackers,
        _ => Team::Defenders,
    }
}

pub fn melee_opponent(team: Team) -> (t: Team)
    ensures
        t == spec_melee_opponent(team),
{
    match team {
        Team::Defenders => Team::Attackers,
        _ => Team::Defenders,
    }
}

/// Which markers a ghost currently carries.
#[derive(PartialEq, Eq, Structural, Clone, Copy, Debug)]
pub struct GhostMarkerState {
    pub fire: bool,
    pub frost: bool,
    pub electric: bool,
    pub spell_shield: bool,
    pub corpse: bool,
    pub combat: bool,
    pub poison: bool,
    pub mark: bool,
    pub polymorph: bool,
    pub smelly: bool,
    pub in_melee: bool,
}

/// The sprite sheet family of a unit.
#[derive(PartialEq, Eq, Structural, Clone, Copy, Debug)]
pub enum SpriteSheet {
    King,
    Archer,
    SwordcererAvatar,
    Infantry,
}

/// Which combat animation to start.
#[derive(PartialEq, Eq, Structural, Clone, Copy, Debug)]
pub enum CombatStart {
    /// The archer's shooting animation.
    Shooting,
    /// A melee swing on the given sheet (infantry and king's guard share the
    /// infantry sheet; the Swordcerer avatar has its own).
    Attack { sheet: SpriteSheet },
}

/// The ghost's corpse transition this snapshot.
#[derive(PartialEq, Eq, Structural, Clone, Copy, Debug)]
pub enum CorpseTransition {
    Unchanged,
    /// Became a corpse: insert `Corpse`, and for non-kings start the death
    /// animation on the given sheet.
    Died { dying_sheet: Option<SpriteSheet> },
    /// Corpse raised back to life: remove `Corpse`.
    Raised,
}

/// Everything one snapshot asks of an existing ghost besides position,
/// velocity and health.
#[derive(PartialEq, Eq, Structural, Clone, Copy, Debug)]
pub struct GhostUpdatePlan {
    /// Swap the material on an alive/corpse change: kings get the corpse or
    /// alive king sprite, other units get the alive sprite when raised.
    pub swap_material: bool,
    /// The material to swap to is chosen with `is_corpse` as given here.
    pub swap_to_corpse: bool,
    /// Clear a running death animation (corpse raised mid-animation).
    pub clear_dying: bool,
    /// Drop the saved pre-tint material on an alive/corpse change.
    pub clear_saved_material: bool,
    pub fire: MarkerEdit,
    pub frost: MarkerEdit,
    pub electric: MarkerEdit,
    pub poison: MarkerEdit,
    pub smelly: MarkerEdit,
    pub in_melee: MarkerEdit,
    pub mark: MarkerEdit,
    /// Off-to-on: render as a sheep. On-to-off: strip the sheep state.
    pub polymorph: MarkerEdit,
    /// On-to-off of polymorph while alive: restore the unit's own sprite.
    pub restore_sprite: bool,
    pub spell_shield: MarkerEdit,
    pub corpse: CorpseTransition,
    /// Start the host's attack animation (never force-stopped: the local
    /// animation finishes and removes itself).
    pub combat: Option<CombatStart>,
}

pub open spec fn spec_sheet(s: UnitStatus) -> SpriteSheet {
    if s.king {
        SpriteSheet::King
    } else if s.archer {
        SpriteSheet::Archer
    } else if s.swordcerer_avatar {
        SpriteSheet::SwordcererAvatar
    } else {
        SpriteSheet::Infantry
    }
}

/// The death animation sheet: archers have their own, others use infantry's.
pub open spec fn spec_dying_sheet(s: UnitStatus) -> SpriteSheet {
    if s.archer { SpriteSheet::Archer } else { SpriteSheet::Infantry }
}

pub open spec fn spec_combat_start(s: UnitStatus) -> CombatStart {
    if s.archer {
        CombatStart::Shooting
    } else if s.swordcerer_avatar {
        CombatStart::Attack { sheet: SpriteSheet::SwordcererAvatar }
    } else {
        CombatStart::Attack { sheet: SpriteSheet::Infantry }
    }
}

pub open spec fn spec_update_plan(s: UnitStatus, g: GhostMarkerState) -> GhostUpdatePlan {
    let changed = s.corpse != g.corpse;
    GhostUpdatePlan {
        swap_material: changed && (s.king || !s.corpse),
        swap_to_corpse: s.king && s.corpse,
        clear_dying: changed && !s.king && !s.corpse,
        clear_saved_material: changed,
        fire: spec_marker_edit(g.fire, s.fire),
        frost: spec_marker_edit(g.frost, s.frost),
        electric: spec_marker_edit(g.electric, s.electric),
        poison: spec_marker_edit(g.poison, s.poison),
        smelly: spec_marker_edit(g.smelly, s.smelly),
        in_melee: spec_marker_edit(g.in_melee, s.in_melee),
        mark: spec_marker_edit(g.mark, s.mark),
        polymorph: spec_marker_edit(g.polymorph, s.polymorph),
        restore_sprite: !s.polymorph && g.polymorph && !s.corpse,
        spell_shield: spec_marker_edit(g.spell_shield, s.spell_shield),
        corpse: if s.corpse && !g.corpse {
            CorpseTransition::Died {
                dying_sheet: if s.king { None } else { Some(spec_dying_sheet(s)) },
            }
        } else if !s.corpse && g.corpse {
            CorpseTransition::Raised
        } else {
            CorpseTransition::Unchanged
        },
        combat: if s.combat && !g.combat && !s.corpse && !s.king {
            Some(spec_combat_start(s))
        } else {
            None
        },
    }
}

fn combat_start(s: &UnitStatus) -> (c: CombatStart)
    ensures
        c == spec_combat_start(*s),
{
    if s.archer {
        CombatStart::Shooting
    } else if s.swordcerer_avatar {
        CombatStart::Attack { sheet: SpriteSheet::SwordcererAvatar }
    } else {
        CombatStart::Attack { sheet: SpriteSheet::Infantry }
    }
}

/// Plans how an existing ghost follows one snapshot of its unit.
pub fn plan_ghost_update(s: &UnitStatus, g: &GhostMarkerState) -> (p: GhostUpdatePlan)
    ensures
        p == spec_update_plan(*s, *g),
{
    let changed = s.corpse != g.corpse;
    let corpse = if s.corpse && !g.corpse {
        CorpseTransition::Died {
            dying_sheet: if s.king {
                None
            } else if s.archer {
                Some(SpriteSheet::Archer)
            } else {
                Some(SpriteSheet::Infantry)
            },
        }
    } else if !s.corpse && g.corpse {
        CorpseTransition::Raised
    } else {
        CorpseTransition::Unchanged
    };
    let combat = if s.combat && !g.combat && !s.corpse && !s.king {
        Some(combat_start(s))
    } else {
        None
    };
    GhostUpdatePlan {
        swap_material: changed && (s.king || !s.corpse),
        swap_to_corpse: s.king && s.corpse,
        clear_dying: changed && !s.king && !s.corpse,
        clear_saved_material: changed,
        fire: marker_edit(g.fire, s.fire),
        frost: marker_edit(g.frost, s.frost),
        electric: marker_edit(g.electric, s.electric),
        poison: marker_edit(g.poison, s.poison),
        smelly: marker_edit(g.smelly, s.smelly),
        in_melee: marker_edit(g.in_melee, s.in_melee),
        mark: marker_edit(g.mark, s.mark),
        polymorph: marker_edit(g.polymorph, s.polymorph),
        restore_sprite: !s.polymorph && g.polymorph && !s.corpse,
        spell_shield: marker_edit(g.spell_shield, s.spell_shield),
        corpse,
        combat,
    }
}

/// The hitbox family of a new ghost (the same hitbox the single-player unit
/// of that type has, so local spells can land on it).
#[derive(PartialEq, Eq, Structural, Clone, Copy, Debug)]
pub enum HitboxKind {
    King,
    Archer,
    SwordcererAvatar,
    /// Infantry and king's guard.
    Unit,
}

/// A unit's position, as the bit patterns of its coordinates.
#[derive(PartialEq, Eq, Structural, Clone, Copy, Debug)]
pub struct PositionBits {
    pub x: u32,
    pub y: u32,
    pub z: u32,
}

/// A unit's health counters, as bit patterns: its maximum, and the damage and
/// healing the host has recorded.
#[derive(PartialEq, Eq, Structural, Clone, Copy, Debug)]
pub struct CrdtBits {
    pub max_hp: u32,
    pub damage: u32,
    pub healing: u32,
}

/// The host's report of one unit in a snapshot.
#[derive(PartialEq, Eq, Structural, Clone, Copy, Debug)]
pub struct SnapshotUnit {
    pub id: u32,
    pub team: Team,
    pub position: PositionBits,
    pub crdt: CrdtBits,
    pub status: UnitStatus,
}

/// What a ghost for a newly seen unit is spawned with.
#[derive(PartialEq, Eq, Structural, Clone, Copy, Debug)]
pub struct GhostSpawnPlan {
    /// The host's network id, by which later snapshots find the ghost.
    pub network_id: u32,
    pub team: Team,
    pub position: PositionBits,
    /// The ghost's health counters start as the host's.
    pub crdt: CrdtBits,
    /// The ghost's health starts full at the host's maximum.
    pub health_max: u32,
    pub hitbox: HitboxKind,
    pub mesh: SpriteSheet,
    /// The Swordcerer avatar wears its own default sprite; every other unit
    /// wears `pick_material`'s choice.
    pub avatar_sprite: bool,
    pub swordcerer_marker: bool,
    /// Ghost kings carry the `King` marker and the aura visual.
    pub king_marker: bool,
    pub spell_shield: bool,
    pub corpse: bool,
    pub fire: bool,
    pub frost: bool,
    pub electric: bool,
    pub poison: bool,
    pub mark: bool,
    pub polymorph: bool,
    /// Start mid-attack when the host's unit is attacking (not for corpses or
    /// kings). No death animation is replayed for a unit seen already dead.
    pub combat: Option<CombatStart>,
}

pub open spec fn spec_spawn_plan(u: SnapshotUnit) -> GhostSpawnPlan {
    let s = u.status;
    GhostSpawnPlan {
        network_id: u.id,
        team: u.team,
        position: u.position,
        crdt: u.crdt,
        health_max: u.crdt.max_hp,
        hitbox: if s.king {
            HitboxKind::King
        } else if s.archer {
            HitboxKind::Archer
        } else if s.swordcerer_avatar {
            HitboxKind::SwordcererAvatar
        } else {
            HitboxKind::Unit
        },
        mesh: spec_sheet(s),
        avatar_sprite: s.swordcerer_avatar,
        swordcerer_marker: s.swordcerer_avatar,
        king_marker: s.king,
        spell_shield: s.spell_shield,
        corpse: s.corpse,
        fire: s.fire,
        frost: s.frost,
        electric: s.electric,
        poison: s.poison,
        mark: s.mark,
        polymorph: s.polymorph,
        combat: if s.combat && !s.corpse && !s.king {
            Some(spec_combat_start(s))
        } else {
            None
        },
    }
}

/// Plans the ghost of a unit the guest has not seen before: it carries the
/// unit's network id, team, position and health counters, and the markers of
/// its status.
pub fn plan_ghost_spawn(unit: &SnapshotUnit) -> (p: GhostSpawnPlan)
    ensures
        p == spec_spawn_plan(*unit),
{
    let s = &unit.status;
    let hitbox = if s.king {
        HitboxKind::King
    } else if s.archer {
        HitboxKind::Archer
    } else if s.swordcerer_avatar {
        HitboxKind::SwordcererAvatar
    } else {
        HitboxKind::Unit
    };
    let mesh = if s.king {
        SpriteSheet::King
    } else if s.archer {
        SpriteSheet::Archer
    } else if s.swordcerer_avatar {
        SpriteSheet::SwordcererAvatar
    } else {
        SpriteSheet::Infantry
    };
    let combat = if s.combat && !s.corpse && !s.king {
        Some(combat_start(s))
    } else {
        None
    };
    GhostSpawnPlan {
        network_id: unit.id,
        team: unit.team,
        position: unit.position,
        crdt: unit.crdt,
        health_max: unit.crdt.max_hp,
        hitbox,
        mesh,
        avatar_sprite: s.swordcerer_avatar,
        swordcerer_marker: s.swordcerer_avatar,
        king_marker: s.king,
        spell_shield: s.spell_shield,
        corpse: s.corpse,
        fire: s.fire,
        frost: s.frost,
        electric: s.electric,
        poison: s.poison,
        mark: s.mark,
        polymorph: s.polymorph,
        combat,
    }
}

/// A ghost spawned from a snapshot and then updated with the same snapshot
/// needs no marker edits: spawn already applied the snapshot's markers.
pub proof fn lemma_spawn_then_update_is_stable(u: SnapshotUnit, smelly: bool, in_melee: bool)
    requires
        smelly == u.status.smelly,
        in_melee == u.status.in_melee,
    ensures
        ({
            let s = u.status;
            let sp = spec_spawn_plan(u);
            let g = GhostMarkerState {
                fire: sp.fire,
                frost: sp.frost,
                electric: sp.electric,
                spell_shield: sp.spell_shield,
                corpse: sp.corpse,
                combat: sp.combat is Some,
                poison: sp.poison,
                mark: sp.mark,
                polymorph: sp.polymorph,
                smelly,
                in_melee,
            };
            let u = spec_update_plan(s, g);
            &&& u.fire == MarkerEdit::Keep
            &&& u.frost == MarkerEdit::Keep
            &&& u.electric == MarkerEdit::Keep
            &&& u.poison == MarkerEdit::Keep
            &&& u.mark == MarkerEdit::Keep
            &&& u.polymorph == MarkerEdit::Keep
            &&& u.spell_shield == MarkerEdit::Keep
            &&& u.smelly == MarkerEdit::Keep
            &&& u.in_melee == MarkerEdit::Keep
            &&& u.corpse == CorpseTransition::Unchanged
            &&& u.combat is None
            &&& !u.swap_material
        }),
{
}

/// The ids a snapshot no longer lists: every mapped id not seen, in order.
pub open spec fn not_seen(seen: Seq<u32>) -> spec_fn(u32) -> bool {
    |id: u32| !seen.contains(id)
}

fn contains_id(ids: &Vec<u32>, id: u32) -> (r: bool)
    ensures
        r == ids@.contains(id),
{
    let n = ids.len();
    let mut i: usize = 0;
    while i < n
        invariant
            n == ids@.len(),
            i <= n,
            forall|j: int| 0 <= j < i ==> ids@[j] != id,
        decreases n - i,
    {
        if ids[i] == id {
            assert(ids@[i as int] == id);
            return true;
        }
        i = i + 1;
    }
    false
}

/// The ghosts to despawn: the mapped ids that the latest snapshot did not list.
pub fn stale_ghost_ids(mapped: &Vec<u32>, seen: &Vec<u32>) -> (stale: Vec<u32>)
    ensures
        stale@ == mapped@.filter(not_seen(seen@)),
{
    let mut stale: Vec<u32> = Vec::new();
    let n = mapped.len();
    let mut i: usize = 0;
    assert(mapped@.take(0) =~= Seq::<u32>::empty());
    while i < n
        invariant
            n == mapped@.len(),
            i <= n,
            stale@ == mapped@.take(i as int).filter(not_seen(seen@)),
        decreases n - i,
    {
        let id = mapped[i];
        proof {
            assert(mapped@.take(i + 1) =~= mapped@.take(i as int).push(id));
            mapped@.take(i as int).lemma_filter_push(id, not_seen(seen@));
        }
        if !contains_id(seen, id) {
            stale.push(id);
        }
        i = i + 1;
    }
    assert(mapped@.take(n as int) =~= mapped@);
    stale
}

/// What a snapshot entry does to the ghosts.
#[derive(PartialEq, Eq, Structural, Clone, Copy, Debug)]
pub enum GhostAction {
    /// The unit already has a ghost: bring it up to date.
    Update { id: u32 },
    /// A unit seen for the first time: spawn its ghost and map it.
    Spawn { id: u32 },
}

/// The action for each snapshot entry, in order: an id already mapped, or
/// listed earlier in the same snapshot, is updated; any other is spawned.
pub open spec fn ghost_actions(mapped: Set<u32>, units: Seq<u32>) -> Seq<GhostAction>
    decreases units.len(),
{
    if units.len() == 0 {
        Seq::empty()
    } else {
        let prev = units.drop_last();
        let id = units.last();
        ghost_actions(mapped, prev).push(
            if mapped.contains(id) || prev.contains(id) {
                GhostAction::Update { id }
            } else {
                GhostAction::Spawn { id }
            },
        )
    }
}

/// The ids that the actions spawn.
pub open spec fn spawned_ids(actions: Seq<GhostAction>) -> Set<u32> {
    Set::new(|id: u32| actions.contains(GhostAction::Spawn { id }))
}

/// Whether `id` occurs among the first `n` entries of `v`.
fn occurs_before(v: &Vec<u32>, n: usize, id: u32) -> (r: bool)
    requires
        n <= v.len(),
    ensures
        r == v@.subrange(0, n as int).contains(id),
{
    let mut i: usize = 0;
    while i < n
        invariant
            i <= n,
            n <= v.len(),
            forall|k: int| 0 <= k < i ==> v@[k] != id,
        decreases n - i,
    {
        if v[i] == id {
            assert(v@.subrange(0, n as int)[i as int] == id);
            return true;
        }
        i = i + 1;
    }
    assert forall|k: int| 0 <= k < n implies v@.subrange(0, n as int)[k] != id by {}
    false
}

/// Reconciles the ghosts with one snapshot: an update or a spawn for each
/// listed unit, in order, and the mapped ids the snapshot no longer lists
/// (to despawn).
pub fn plan_snapshot(mapped: &Vec<u32>, units: &Vec<u32>) -> (r: (Vec<GhostAction>, Vec<u32>))
    ensures
        r.0@ == ghost_actions(crate::forwarding::id_set(mapped@), units@),
        r.1@ == mapped@.filter(not_seen(units@)),
{
    let ghost known = crate::forwarding::id_set(mapped@);
    let mut actions: Vec<GhostAction> = Vec::new();
    let mut i: usize = 0;
    while i < units.len()
        invariant
            i <= units.len(),
            known == crate::forwarding::id_set(mapped@),
            actions@ == ghost_actions(known, units@.subrange(0, i as int)),
        decreases units.len() - i,
    {
        let id = units[i];
        let before = contains_id(mapped, id) || occurs_before(units, i, id);
        proof {
            let next = units@.subrange(0, i + 1);
            assert(next.drop_last() =~= units@.subrange(0, i as int));
            assert(next.last() == id);
        }
        if before {
            actions.push(GhostAction::Update { id });
        } else {
            actions.push(GhostAction::Spawn { id });
        }
        i = i + 1;
    }
    assert(units@.subrange(0, units.len() as int) =~= units@);
    let stale = stale_ghost_ids(mapped, units);
    (actions, stale)
}

proof fn lemma_spawned_ids(mapped: Set<u32>, units: Seq<u32>)
    ensures
        forall|id: u32| #[trigger] spawned_ids(ghost_actions(mapped, units)).contains(id) ==> (
        units.contains(id) && !mapped.contains(id)),
        forall|id: u32| #[trigger] units.contains(id) && !mapped.contains(id) ==> spawned_ids(
            ghost_actions(mapped, units),
        ).contains(id),
    decreases units.len(),
{
    if units.len() > 0 {
        let prev = units.drop_last();
        let x = units.last();
        lemma_spawned_ids(mapped, prev);
        let acts = ghost_actions(mapped, units);
        let pacts = ghost_actions(mapped, prev);
        assert forall|id: u32| #[trigger] spawned_ids(acts).contains(id) implies (units.contains(id)
            && !mapped.contains(id)) by {
            let k = choose|k: int| 0 <= k < acts.len() && acts[k] == GhostAction::Spawn { id };
            if k < pacts.len() {
                assert(pacts[k] == acts[k]);
                assert(spawned_ids(pacts).contains(id));
                let j = choose|j: int| 0 <= j < prev.len() && prev[j] == id;
                assert(units[j] == id);
            } else {
                assert(units[units.len() - 1] == id);
            }
        }
        assert forall|id: u32| #[trigger] units.contains(id) && !mapped.contains(id) implies spawned_ids(
            acts,
        ).contains(id) by {
            let j = choose|j: int| 0 <= j < units.len() && units[j] == id;
            if prev.contains(id) {
                assert(spawned_ids(pacts).contains(id));
                let k = choose|k: int| 0 <= k < pacts.len() && pacts[k] == GhostAction::Spawn { id };
                assert(acts[k] == pacts[k]);
            } else {
                if j < prev.len() {
                    assert(prev[j] == id);
                }
                assert(x == id);
                assert(acts[acts.len() - 1] == GhostAction::Spawn { id });
            }
        }
    }
}

/// After one snapshot is applied (spawned ghosts mapped, stale ones
/// despawned) the guest has a ghost for exactly the units the host listed,
/// and no unit that already had a ghost is spawned again.
pub proof fn lemma_snapshot_converges(mapped: Seq<u32>, units: Seq<u32>)
    ensures
        ({
            let known = crate::forwarding::id_set(mapped);
            let acts = ghost_actions(known, units);
            let stale = crate::forwarding::id_set(mapped.filter(not_seen(units)));
            &&& known.union(spawned_ids(acts)).difference(stale) == crate::forwarding::id_set(units)
            &&& forall|id: u32| known.contains(id) ==> !#[trigger] spawned_ids(acts).contains(id)
        }),
{
    let known = crate::forwarding::id_set(mapped);
    let acts = ghost_actions(known, units);
    let stale = crate::forwarding::id_set(mapped.filter(not_seen(units)));
    lemma_spawned_ids(known, units);
    assert forall|id: u32| #[trigger] stale.contains(id) <==> (mapped.contains(id) && !units.contains(id)) by {
        let p = not_seen(units);
        if mapped.filter(p).contains(id) {
            mapped.lemma_filter_contains_rev(p, id);
            let k = choose|k: int| 0 <= k < mapped.filter(p).len() && mapped.filter(p)[k] == id;
            mapped.lemma_filter_pred(p, k);
        }
        if mapped.contains(id) && !units.contains(id) {
            let k = choose|k: int| 0 <= k < mapped.len() && mapped[k] == id;
            mapped.lemma_filter_contains(p, k);
        }
    }
    assert(known.union(spawned_ids(acts)).difference(stale) =~= crate::forwarding::id_set(units));
}

/// Maps remote spell-effect network ids to local entities (entity bits) and
/// back, on the guest. Separate from the unit map because units and spell
/// effects have independent id spaces.
pub struct SpellEffectEntityMap {
    pub remote_to_local: HashMap<u32, u64>,
    pub local_to_remote: HashMap<u64, u32>,
}

/// The two directions of the map.
pub struct EffectMapModel {
    pub remote_to_local: Map<u32, u64>,
    pub local_to_remote: Map<u64, u32>,
}

impl View for SpellEffectEntityMap {
    type V = EffectMapModel;

    open spec fn view(&self) -> EffectMapModel {
        EffectMapModel { remote_to_local: self.remote_to_local@, local_to_remote: self.local_to_remote@ }
    }
}

/// Recording `remote <-> local` in both directions.
pub open spec fn spec_effect_insert(m: EffectMapModel, remote: u32, local: u64) -> EffectMapModel {
    EffectMapModel {
        remote_to_local: m.remote_to_local.insert(remote, local),
        local_to_remote: m.local_to_remote.insert(local, remote),
    }
}

/// Forgetting `remote` and the entity it mapped to, in both directions.
pub open spec fn spec_effect_remove(m: EffectMapModel, remote: u32) -> EffectMapModel {
    if m.remote_to_local.contains_key(remote) {
        EffectMapModel {
            remote_to_local: m.remote_to_local.remove(remote),
            local_to_remote: m.local_to_remote.remove(m.remote_to_local[remote]),
        }
    } else {
        m
    }
}

impl SpellEffectEntityMap {
    pub fn new() -> (m: Self)
        ensures
            m@.remote_to_local == Map::<u32, u64>::empty(),
            m@.local_to_remote == Map::<u64, u32>::empty(),
    {
        SpellEffectEntityMap { remote_to_local: HashMap::new(), local_to_remote: HashMap::new() }
    }

    /// Records a remote effect id and its local entity in both directions.
    pub fn insert(&mut self, remote_id: u32, local_entity: u64)
        ensures
            final(self)@ == spec_effect_insert(old(self)@, remote_id, local_entity),
    {
        self.remote_to_local.insert(remote_id, local_entity);
        self.local_to_remote.insert(local_entity, remote_id);
    }

    /// Forgets a remote effect id; returns the local entity it mapped to.
    pub fn remove_by_remote(&mut self, remote_id: u32) -> (e: Option<u64>)
        ensures
            final(self)@ == spec_effect_remove(old(self)@, remote_id),
            old(self)@.remote_to_local.contains_key(remote_id) ==> e == Some(
                old(self)@.remote_to_local[remote_id],
            ),
            !old(self)@.remote_to_local.contains_key(remote_id) ==> e.is_none(),
    {
        let ghost before = self@;
        match self.remote_to_local.remove(&remote_id) {
            Some(entity) => {
                assert(self.remote_to_local@ =~= before.remote_to_local.remove(remote_id));
                self.local_to_remote.remove(&entity);
                assert(self.local_to_remote@ =~= before.local_to_remote.remove(entity));
                Some(entity)
            },
            None => {
                assert(self.remote_to_local@ =~= before.remote_to_local);
                None
            },
        }
    }
}

/// What was inserted is what removal hands back, and afterwards neither the
/// id nor its entity is mapped.
pub proof fn lemma_effect_map_insert_remove(m: EffectMapModel, remote: u32, local: u64)
    ensures
        ({
            let m1 = spec_effect_insert(m, remote, local);
            let m2 = spec_effect_remove(m1, remote);
            &&& m1.remote_to_local.contains_key(remote)
            &&& m1.remote_to_local[remote] == local
            &&& !m2.remote_to_local.contains_key(remote)
            &&& !m2.local_to_remote.contains_key(local)
        }),
{
}

/// The two directions stay inverse when fresh pairs are recorded and ids
/// are forgotten.
pub open spec fn effect_map_consistent(m: EffectMapModel) -> bool {
    &&& forall|r: u32| #[trigger] m.remote_to_local.contains_key(r) ==> m.local_to_remote.contains_key(
        m.remote_to_local[r],
    ) && m.local_to_remote[m.remote_to_local[r]] == r
    &&& forall|l: u64| #[trigger] m.local_to_remote.contains_key(l) ==> m.remote_to_local.contains_key(
        m.local_to_remote[l],
    ) && m.remote_to_local[m.local_to_remote[l]] == l
}

/// Consistency is kept by inserting a pair whose id and entity are both new,
/// and by removing any id.
pub proof fn lemma_effect_map_stays_consistent(m: EffectMapModel, remote: u32, local: u64, gone: u32)
    requires
        effect_map_consistent(m),
    ensures
        !m.remote_to_local.contains_key(remote) && !m.local_to_remote.contains_key(local)
            ==> effect_map_consistent(spec_effect_insert(m, remote, local)),
        effect_map_consistent(spec_effect_remove(m, gone)),
{
    let m1 = spec_effect_insert(m, remote, local);
    if !m.remote_to_local.contains_key(remote) && !m.local_to_remote.contains_key(local) {
        assert forall|r: u32| #[trigger] m1.remote_to_local.contains_key(r) implies m1.local_to_remote.contains_key(
            m1.remote_to_local[r],
        ) && m1.local_to_remote[m1.remote_to_local[r]] == r by {
            if r != remote {
                assert(m.remote_to_local.contains_key(r));
            }
        }
        assert forall|l: u64| #[trigger] m1.local_to_remote.contains_key(l) implies m1.remote_to_local.contains_key(
            m1.local_to_remote[l],
        ) && m1.remote_to_local[m1.local_to_remote[l]] == l by {
            if l != local {
                assert(m.local_to_remote.contains_key(l));
            }
        }
    }
    let m2 = spec_effect_remove(m, gone);
    if m.remote_to_local.contains_key(gone) {
        let e = m.remote_to_local[gone];
        assert forall|r: u32| #[trigger] m2.remote_to_local.contains_key(r) implies m2.local_to_remote.contains_key(
            m2.remote_to_local[r],
        ) && m2.local_to_remote[m2.remote_to_local[r]] == r by {
            assert(m.remote_to_local.contains_key(r));
            assert(m.local_to_remote[m.remote_to_local[r]] == r);
        }
        assert forall|l: u64| #[trigger] m2.local_to_remote.contains_key(l) implies m2.remote_to_local.contains_key(
            m2.local_to_remote[l],
        ) && m2.remote_to_local[m2.local_to_remote[l]] == l by {
            assert(m.local_to_remote.contains_key(l));
            assert(m.remote_to_local[m.local_to_remote[l]] == l);
        }
    }
}

/// The boulder material a replicated boulder uses: the host's sprite index,
/// held to the last of the guest's boulder materials.
pub open spec fn spec_boulder_material_index(sprite_index: usize, materials: usize) -> usize {
    let last: usize = if materials == 0 { 0 } else { (materials - 1) as usize };
    if sprite_index < last { sprite_index } else { last }
}

/// Picks the material of a ghost boulder (in flight or landed) from the sprite
/// index the host sent, so an index past the guest's materials falls on the
/// last one.
pub fn boulder_material_index(sprite_index: usize, materials: usize) -> (r: usize)
    ensures
        r == spec_boulder_material_index(sprite_index, materials),
        materials > 0 ==> r < materials,
{
    let last = materials.saturating_sub(1);
    if sprite_index < last {
        sprite_index
    } else {
        last
    }
}

/// A ghost that becomes a corpse plays the death animation of its own kind:
/// archers on the archer sheet, every other non-king on the infantry sheet;
/// a king has no death animation.
pub proof fn lemma_death_animation_matches_unit(s: UnitStatus, g: GhostMarkerState)
    requires
        s.corpse,
        !g.corpse,
    ensures
        s.king ==> spec_update_plan(s, g).corpse == (CorpseTransition::Died { dying_sheet: None }),
        !s.king && s.archer ==> spec_update_plan(s, g).corpse == (CorpseTransition::Died {
            dying_sheet: Some(SpriteSheet::Archer),
        }),
        !s.king && !s.archer ==> spec_update_plan(s, g).corpse == (CorpseTransition::Died {
            dying_sheet: Some(SpriteSheet::Infantry),
        }),
{
}

} // verus!
