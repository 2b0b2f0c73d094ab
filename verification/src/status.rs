//! The guest-to-host status-effect wire: the ordinal of each status kind, the
//! meaning of the message's `flags` word per kind (talent bits, a packed
//! knockback direction, a packed ratio), and the host's handling of the
//! guest's requests: statuses, spell hits and raised corpses, each routed to
//! the unit it names.

use vstd::prelude::*;
use crate::protocol::PeerMessage;
use crate::session::Team;

verus! {

/// The status effects a guest cast can forward to the host.
#[derive(PartialEq, Eq, Structural, Clone, Copy, Debug)]
pub enum StatusEffectKind {
    Sleep,
    Root,
    Polymorph,
    MindControl,
    Banish,
    Mark,
    Haste,
    BattleHymn,
    BerserkerRage,
    GuardianTempHp,
    Slow,
    Knockback,
    Stun,
    FogEvasion,
}

/// Number of status kinds; ordinals are `0 .. STATUS_KIND_COUNT`.
pub const STATUS_KIND_COUNT: u8 = 14;

pub open spec fn spec_ordinal(k: StatusEffectKind) -> u8 {
    match k {
        StatusEffectKind::Sleep => 0,
        StatusEffectKind::Root => 1,
        StatusEffectKind::Polymorph => 2,
        StatusEffectKind::MindControl => 3,
        StatusEffectKind::Banish => 4,
        StatusEffectKind::Mark => 5,
        StatusEffectKind::Haste => 6,
        StatusEffectKind::BattleHymn => 7,
        StatusEffectKind::BerserkerRage => 8,
        StatusEffectKind::GuardianTempHp => 9,
        StatusEffectKind::Slow => 10,
        StatusEffectKind::Knockback => 11,
        StatusEffectKind::Stun => 12,
        StatusEffectKind::FogEvasion => 13,
    }
}

/// The kind with ordinal `v`, if any.
pub open spec fn kind_of_ordinal(v: u8) -> Option<StatusEffectKind> {
    match v {
        0 => Some(StatusEffectKind::Sleep),
        1 => Some(StatusEffectKind::Root),
        2 => Some(StatusEffectKind::Polymorph),
        3 => Some(StatusEffectKind::MindControl),
        4 => Some(StatusEffectKind::Banish),
        5 => Some(StatusEffectKind::Mark),
        6 => Some(StatusEffectKind::Haste),
        7 => Some(StatusEffectKind::BattleHymn),
        8 => Some(StatusEffectKind::BerserkerRage),
        9 => Some(StatusEffectKind::GuardianTempHp),
        10 => Some(StatusEffectKind::Slow),
        11 => Some(StatusEffectKind::Knockback),
        12 => Some(StatusEffectKind::Stun),
        13 => Some(StatusEffectKind::FogEvasion),
        _ => None,
    }
}

impl StatusEffectKind {
    /// The kind's ordinal on the wire.
    pub fn to_u8(&self) -> (v: u8)
        ensures
            v == spec_ordinal(*self),
    {
        match self {
            StatusEffectKind::Sleep => 0,
            StatusEffectKind::Root => 1,
            StatusEffectKind::Polymorph => 2,
            StatusEffectKind::MindControl => 3,
            StatusEffectKind::Banish => 4,
            StatusEffectKind::Mark => 5,
            StatusEffectKind::Haste => 6,
            StatusEffectKind::BattleHymn => 7,
            StatusEffectKind::BerserkerRage => 8,
            StatusEffectKind::GuardianTempHp => 9,
            StatusEffectKind::Slow => 10,
            StatusEffectKind::Knockback => 11,
            StatusEffectKind::Stun => 12,
            StatusEffectKind::FogEvasion => 13,
        }
    }

    /// The kind with ordinal `v`; `None` for an unknown ordinal (the host
    /// skips such a message).
    pub fn from_u8(v: u8) -> (k: Option<Self>)
        ensures
            v < STATUS_KIND_COUNT ==> k is Some && spec_ordinal(k->0) == v,
            v >= STATUS_KIND_COUNT ==> k is None,
            k == kind_of_ordinal(v),
    {
        match v {
            0 => Some(StatusEffectKind::Sleep),
            1 => Some(StatusEffectKind::Root),
            2 => Some(StatusEffectKind::Polymorph),
            3 => Some(StatusEffectKind::MindControl),
            4 => Some(StatusEffectKind::Banish),
            5 => Some(StatusEffectKind::Mark),
            6 => Some(StatusEffectKind::Haste),
            7 => Some(StatusEffectKind::BattleHymn),
            8 => Some(StatusEffectKind::BerserkerRage),
            9 => Some(StatusEffectKind::GuardianTempHp),
            10 => Some(StatusEffectKind::Slow),
            11 => Some(StatusEffectKind::Knockback),
            12 => Some(StatusEffectKind::Stun),
            13 => Some(StatusEffectKind::FogEvasion),
            _ => None,
        }
    }
}

/// Every kind survives the wire: ordinals are distinct and below the count.
pub proof fn lemma_status_kind_round_trip(k: StatusEffectKind, j: StatusEffectKind)
    ensures
        spec_ordinal(k) < STATUS_KIND_COUNT,
        spec_ordinal(k) == spec_ordinal(j) ==> k == j,
{
}

pub const SLEEP_NIGHT_TERRORS: u32 = 0x1;
pub const SLEEP_COMATOSE: u32 = 0x2;
pub const SLEEP_NARCOLEPTIC_WAVE: u32 = 0x4;
pub const SLEEP_DREAMWALKER: u32 = 0x8;

pub const POLYMORPH_EXPLOSIVE: u32 = 0x1;
pub const POLYMORPH_CONTAGIOUS: u32 = 0x2;
pub const POLYMORPH_PIG: u32 = 0x4;
pub const POLYMORPH_PERMANENT: u32 = 0x8;
pub const POLYMORPH_DIRE: u32 = 0x10;

pub const RAISE_EMPOWERED_UNDEAD: u32 = 0x1;
pub const RAISE_REVENANT_LORD: u32 = 0x2;
pub const RAISE_PLAGUE_BEARER: u32 = 0x4;
pub const RAISE_PERPETUAL_UNREST: u32 = 0x8;
pub const RAISE_UNDEAD_DETONATION: u32 = 0x10;

/// Sleep talent companions present on the guest's sleeping ghost.
#[derive(PartialEq, Eq, Structural, Clone, Copy, Debug)]
pub struct SleepTalents {
    pub night_terrors: bool,
    pub comatose: bool,
    pub narcoleptic_wave: bool,
    pub dreamwalker: bool,
}

pub open spec fn b32(b: bool, mask: u32) -> u32 {
    if b { mask } else { 0 }
}

pub open spec fn spec_pack_sleep(t: SleepTalents) -> u32 {
    b32(t.night_terrors, SLEEP_NIGHT_TERRORS) | b32(t.comatose, SLEEP_COMATOSE) | b32(
        t.narcoleptic_wave,
        SLEEP_NARCOLEPTIC_WAVE,
    ) | b32(t.dreamwalker, SLEEP_DREAMWALKER)
}

pub open spec fn spec_decode_sleep(flags: u32) -> SleepTalents {
    SleepTalents {
        night_terrors: flags & SLEEP_NIGHT_TERRORS != 0,
        comatose: flags & SLEEP_COMATOSE != 0,
        narcoleptic_wave: flags & SLEEP_NARCOLEPTIC_WAVE != 0,
        dreamwalker: flags & SLEEP_DREAMWALKER != 0,
    }
}

fn b32_of(b: bool, mask: u32) -> (r: u32)
    ensures
        r == b32(b, mask),
{
    if b { mask } else { 0 }
}

/// Guest: the `flags` word of a forwarded Sleep.
pub fn pack_sleep_flags(t: SleepTalents) -> (flags: u32)
    ensures
        flags == spec_pack_sleep(t),
{
    b32_of(t.night_terrors, SLEEP_NIGHT_TERRORS) | b32_of(t.comatose, SLEEP_COMATOSE) | b32_of(
        t.narcoleptic_wave,
        SLEEP_NARCOLEPTIC_WAVE,
    ) | b32_of(t.dreamwalker, SLEEP_DREAMWALKER)
}

/// Host: the sleep companions to re-create from a forwarded Sleep.
pub fn decode_sleep_flags(flags: u32) -> (t: SleepTalents)
    ensures
        t == spec_decode_sleep(flags),
{
    SleepTalents {
        night_terrors: flags & SLEEP_NIGHT_TERRORS != 0,
        comatose: flags & SLEEP_COMATOSE != 0,
        narcoleptic_wave: flags & SLEEP_NARCOLEPTIC_WAVE != 0,
        dreamwalker: flags & SLEEP_DREAMWALKER != 0,
    }
}

proof fn lemma_four_bits(p: u32, a: bool, b: bool, c: bool, d: bool)
    by (bit_vector)
    requires
        p == b32(a, 0x1u32) | b32(b, 0x2u32) | b32(c, 0x4u32) | b32(d, 0x8u32),
    ensures
        (p & 0x1u32 != 0) == a,
        (p & 0x2u32 != 0) == b,
        (p & 0x4u32 != 0) == c,
        (p & 0x8u32 != 0) == d,
{
}

/// The host re-creates exactly the sleep companions the guest's ghost had.
pub proof fn lemma_sleep_flags_round_trip(t: SleepTalents)
    ensures
        spec_decode_sleep(spec_pack_sleep(t)) == t,
{
    lemma_four_bits(spec_pack_sleep(t), t.night_terrors, t.comatose, t.narcoleptic_wave, t.dreamwalker);
}

/// Polymorph talents of a sheep.
#[derive(PartialEq, Eq, Structural, Clone, Copy, Debug)]
pub struct PolymorphTalents {
    pub explosive: bool,
    pub contagious: bool,
    pub pig: bool,
    pub permanent: bool,
    pub dire: bool,
}

pub open spec fn spec_pack_polymorph(t: PolymorphTalents) -> u32 {
    b32(t.explosive, POLYMORPH_EXPLOSIVE) | b32(t.contagious, POLYMORPH_CONTAGIOUS) | b32(
        t.pig,
        POLYMORPH_PIG,
    ) | b32(t.permanent, POLYMORPH_PERMANENT) | b32(t.dire, POLYMORPH_DIRE)
}

pub open spec fn spec_decode_polymorph(flags: u32) -> PolymorphTalents {
    PolymorphTalents {
        explosive: flags & POLYMORPH_EXPLOSIVE != 0,
        contagious: flags & POLYMORPH_CONTAGIOUS != 0,
        pig: flags & POLYMORPH_PIG != 0,
        permanent: flags & POLYMORPH_PERMANENT != 0,
        dire: flags & POLYMORPH_DIRE != 0,
    }
}

/// Guest: the `flags` word of a forwarded Polymorph.
pub fn pack_polymorph_flags(t: PolymorphTalents) -> (flags: u32)
    ensures
        flags == spec_pack_polymorph(t),
{
    b32_of(t.explosive, POLYMORPH_EXPLOSIVE) | b32_of(t.contagious, POLYMORPH_CONTAGIOUS) | b32_of(
        t.pig,
        POLYMORPH_PIG,
    ) | b32_of(t.permanent, POLYMORPH_PERMANENT) | b32_of(t.dire, POLYMORPH_DIRE)
}

/// Host: the polymorph talents to re-create from a forwarded Polymorph.
pub fn decode_polymorph_flags(flags: u32) -> (t: PolymorphTalents)
    ensures
        t == spec_decode_polymorph(flags),
{
    PolymorphTalents {
        explosive: flags & POLYMORPH_EXPLOSIVE != 0,
        contagious: flags & POLYMORPH_CONTAGIOUS != 0,
        pig: flags & POLYMORPH_PIG != 0,
        permanent: flags & POLYMORPH_PERMANENT != 0,
        dire: flags & POLYMORPH_DIRE != 0,
    }
}

proof fn lemma_five_bits(p: u32, a: bool, b: bool, c: bool, d: bool, e: bool)
    by (bit_vector)
    requires
        p == b32(a, 0x1u32) | b32(b, 0x2u32) | b32(c, 0x4u32) | b32(d, 0x8u32) | b32(e, 0x10u32),
    ensures
        (p & 0x1u32 != 0) == a,
        (p & 0x2u32 != 0) == b,
        (p & 0x4u32 != 0) == c,
        (p & 0x8u32 != 0) == d,
        (p & 0x10u32 != 0) == e,
{
}

/// A guest-cast sheep behaves on the host with exactly its talents.
pub proof fn lemma_polymorph_flags_round_trip(t: PolymorphTalents)
    ensures
        spec_decode_polymorph(spec_pack_polymorph(t)) == t,
{
    lemma_five_bits(spec_pack_polymorph(t), t.explosive, t.contagious, t.pig, t.permanent, t.dire);
}

/// Raise-the-dead talents carried by a `RaiseCorpse` message.
#[derive(PartialEq, Eq, Structural, Clone, Copy, Debug)]
pub struct RaiseTalents {
    pub empowered_undead: bool,
    pub revenant_lord: bool,
    pub plague_bearer: bool,
    pub perpetual_unrest: bool,
    pub undead_detonation: bool,
}

pub open spec fn spec_raise_talents(flags: u32) -> RaiseTalents {
    RaiseTalents {
        empowered_undead: flags & RAISE_EMPOWERED_UNDEAD != 0,
        revenant_lord: flags & RAISE_REVENANT_LORD != 0,
        plague_bearer: flags & RAISE_PLAGUE_BEARER != 0,
        perpetual_unrest: flags & RAISE_PERPETUAL_UNREST != 0,
        undead_detonation: flags & RAISE_UNDEAD_DETONATION != 0,
    }
}

/// Host: the talents of a raised corpse.
pub fn decode_raise_flags(flags: u32) -> (t: RaiseTalents)
    ensures
        t == spec_raise_talents(flags),
{
    RaiseTalents {
        empowered_undead: flags & RAISE_EMPOWERED_UNDEAD != 0,
        revenant_lord: flags & RAISE_REVENANT_LORD != 0,
        plague_bearer: flags & RAISE_PLAGUE_BEARER != 0,
        perpetual_unrest: flags & RAISE_PERPETUAL_UNREST != 0,
        undead_detonation: flags & RAISE_UNDEAD_DETONATION != 0,
    }
}

/// One corpse the host is asked to raise.
#[derive(PartialEq, Eq, Structural, Clone, Copy, Debug)]
pub struct RaiseOrder {
    /// Position of the corpse in the host's corpse list.
    pub corpse: usize,
    pub talents: RaiseTalents,
    /// Bit pattern of the caster's empowerment.
    pub empowerment: u32,
}

/// `i` is the first position of `x` in `s`.
pub open spec fn is_first_match(s: Seq<u32>, x: u32, i: int) -> bool {
    &&& 0 <= i < s.len()
    &&& s[i] == x
    &&& forall|k: int| 0 <= k < i ==> s[k] != x
}

/// The first position of `x` in `s`, if it occurs.
pub open spec fn first_match(s: Seq<u32>, x: u32) -> Option<int> {
    if exists|i: int| is_first_match(s, x, i) {
        Some(choose|i: int| is_first_match(s, x, i))
    } else {
        None
    }
}

/// A position with no earlier occurrence is the first match.
pub proof fn lemma_first_match_found(s: Seq<u32>, x: u32, i: int)
    requires
        is_first_match(s, x, i),
    ensures
        first_match(s, x) == Some(i),
{
    let j = choose|j: int| is_first_match(s, x, j);
    if j < i {
        assert(s[j] != x);
    } else if i < j {
        assert(s[i] != x);
    }
}

/// An id that does not occur has no first match.
pub proof fn lemma_first_match_absent(s: Seq<u32>, x: u32)
    requires
        forall|k: int| 0 <= k < s.len() ==> s[k] != x,
    ensures
        first_match(s, x) is None,
{
}

pub open spec fn is_raise<M>(m: PeerMessage<M>) -> bool {
    m is RaiseCorpse
}

pub open spec fn not_raise<M>() -> spec_fn(PeerMessage<M>) -> bool {
    |m: PeerMessage<M>| !is_raise(m)
}

/// The raises that `msgs` ask for, in order: one per `RaiseCorpse` whose
/// target is among `corpses` (the first corpse with that id).
pub open spec fn raise_orders<M>(msgs: Seq<PeerMessage<M>>, corpses: Seq<u32>) -> Seq<RaiseOrder>
    decreases msgs.len(),
{
    if msgs.len() == 0 {
        Seq::empty()
    } else {
        let earlier = raise_orders(msgs.drop_last(), corpses);
        match msgs.last() {
            PeerMessage::RaiseCorpse { target_network_id, flags, empowerment } => match first_match(
                corpses,
                target_network_id,
            ) {
                Some(i) => earlier.push(
                    RaiseOrder {
                        corpse: i as usize,
                        talents: spec_raise_talents(flags),
                        empowerment,
                    },
                ),
                None => earlier,
            },
            _ => earlier,
        }
    }
}

/// The first position of `target` in `ids`.
pub fn find_first(ids: &Vec<u32>, target: u32) -> (r: Option<usize>)
    ensures
        match r {
            Some(i) => first_match(ids@, target) == Some(i as int),
            None => first_match(ids@, target) is None,
        },
{
    let mut i: usize = 0;
    while i < ids.len()
        invariant
            i <= ids.len(),
            forall|k: int| 0 <= k < i ==> ids@[k] != target,
        decreases ids.len() - i,
    {
        if ids[i] == target {
            proof {
                lemma_first_match_found(ids@, target, i as int);
            }
            return Some(i);
        }
        i = i + 1;
    }
    proof {
        lemma_first_match_absent(ids@, target);
    }
    None
}

/// Host: takes every `RaiseCorpse` off the queue and returns the raises to
/// perform, in order; a request for a corpse that is gone is dropped. Other
/// messages stay queued in order. Until the undead assets are loaded nothing
/// is taken, so the requests wait.
pub fn receive_raise_corpse_messages<M>(
    incoming: &mut Vec<PeerMessage<M>>,
    corpses: &Vec<u32>,
    assets_ready: bool,
) -> (r: Vec<RaiseOrder>)
    ensures
        !assets_ready ==> final(incoming)@ == old(incoming)@ && r@ == Seq::<RaiseOrder>::empty(),
        assets_ready ==> final(incoming)@ == old(incoming)@.filter(not_raise()) && r@ == raise_orders(
            old(incoming)@,
            corpses@,
        ),
{
    let mut orders: Vec<RaiseOrder> = Vec::new();
    if !assets_ready {
        return orders;
    }
    let ghost orig = incoming@;
    let mut raw: Vec<PeerMessage<M>> = Vec::new();
    std::mem::swap(&mut raw, incoming);
    let mut kept: Vec<PeerMessage<M>> = Vec::new();
    let ghost mut k: int = 0;
    assert(orig.skip(0) =~= orig);
    assert(orig.take(0) =~= Seq::<PeerMessage<M>>::empty());
    while raw.len() > 0
        invariant
            0 <= k <= orig.len(),
            raw@ == orig.skip(k),
            kept@ == orig.take(k).filter(not_raise()),
            orders@ == raise_orders(orig.take(k), corpses@),
        decreases raw.len(),
    {
        let msg = raw.remove(0);
        proof {
            assert(orig.skip(k)[0] == orig[k]);
            assert(orig.skip(k).remove(0) =~= orig.skip(k + 1));
            assert(orig.take(k + 1).drop_last() =~= orig.take(k));
            assert(orig.take(k + 1) =~= orig.take(k).push(orig[k]));
            orig.take(k).lemma_filter_push(orig[k], not_raise());
        }
        match msg {
            PeerMessage::RaiseCorpse { target_network_id, flags, empowerment } => {
                match find_first(corpses, target_network_id) {
                    Some(i) => {
                        orders.push(
                            RaiseOrder { corpse: i, talents: decode_raise_flags(flags), empowerment },
                        );
                    },
                    None => {},
                }
            },
            other => {
                kept.push(other);
            },
        }
        proof {
            k = k + 1;
        }
    }
    proof {
        assert(orig.take(k) =~= orig);
    }
    *incoming = kept;
    orders
}

/// One of the host's units that a forwarded status may target.
#[derive(PartialEq, Eq, Structural, Clone, Copy, Debug)]
pub struct StatusTarget {
    pub network_id: u32,
    /// Already a sheep: a second polymorph would capture the sheep as the
    /// form to restore, so the unit is put to sleep instead.
    pub polymorphed: bool,
    /// A defender, which has a spawn point to rally back to.
    pub defender: bool,
}

/// A status the host applies to one of its units.
#[derive(PartialEq, Eq, Structural, Clone, Copy, Debug)]
pub struct StatusOrder {
    /// Position of the unit in the host's unit list.
    pub unit: usize,
    pub kind: StatusEffectKind,
    /// Bit patterns of the duration and magnitude.
    pub duration: u32,
    pub magnitude: u32,
    pub flags: u32,
    /// Mind control over a defender rallies it home when it wears off.
    pub rally_home: bool,
}

pub open spec fn target_ids(units: Seq<StatusTarget>) -> Seq<u32> {
    units.map_values(|u: StatusTarget| u.network_id)
}

pub open spec fn is_apply_status<M>(m: PeerMessage<M>) -> bool {
    m is ApplyStatusEffect
}

pub open spec fn not_apply_status<M>() -> spec_fn(PeerMessage<M>) -> bool {
    |m: PeerMessage<M>| !is_apply_status(m)
}

/// The bit pattern of the single-precision 1.0.
pub const F32_ONE_BITS: u32 = 0x3F80_0000;

/// What one `ApplyStatusEffect` asks of unit `i`. A polymorph of a unit that
/// already is a sheep cannot capture the form to restore, so the unit is put
/// to sleep for the polymorph's duration instead (wake-up damage multiplier
/// 1.0, no sleep talents).
pub open spec fn status_order(
    units: Seq<StatusTarget>,
    i: int,
    kind: StatusEffectKind,
    duration: u32,
    magnitude: u32,
    flags: u32,
) -> StatusOrder {
    if kind == StatusEffectKind::Polymorph && units[i].polymorphed {
        StatusOrder {
            unit: i as usize,
            kind: StatusEffectKind::Sleep,
            duration,
            magnitude: F32_ONE_BITS,
            flags: 0,
            rally_home: false,
        }
    } else {
        StatusOrder {
            unit: i as usize,
            kind,
            duration,
            magnitude,
            flags,
            rally_home: kind == StatusEffectKind::MindControl && units[i].defender,
        }
    }
}

/// The statuses `msgs` ask the host to apply, in order. Unknown kinds and
/// targets that are gone are skipped.
pub open spec fn status_orders<M>(msgs: Seq<PeerMessage<M>>, units: Seq<StatusTarget>) -> Seq<StatusOrder>
    decreases msgs.len(),
{
    if msgs.len() == 0 {
        Seq::empty()
    } else {
        let earlier = status_orders(msgs.drop_last(), units);
        match msgs.last() {
            PeerMessage::ApplyStatusEffect { target_network_id, kind, duration, magnitude, flags } => {
                match (kind_of_ordinal(kind), first_match(target_ids(units), target_network_id)) {
                    (Some(k), Some(i)) => earlier.push(status_order(units, i, k, duration, magnitude, flags)),
                    _ => earlier,
                }
            },
            _ => earlier,
        }
    }
}

/// Host: takes every `ApplyStatusEffect` off the queue and returns the
/// statuses to apply, in order. Other messages stay queued in order.
pub fn receive_apply_status_effect<M>(
    incoming: &mut Vec<PeerMessage<M>>,
    units: &Vec<StatusTarget>,
) -> (r: Vec<StatusOrder>)
    ensures
        final(incoming)@ == old(incoming)@.filter(not_apply_status()),
        r@ == status_orders(old(incoming)@, units@),
{
    let mut ids: Vec<u32> = Vec::new();
    let mut j: usize = 0;
    while j < units.len()
        invariant
            j <= units.len(),
            ids@ == target_ids(units@.subrange(0, j as int)),
        decreases units.len() - j,
    {
        ids.push(units[j].network_id);
        proof {
            assert(target_ids(units@.subrange(0, j + 1)) =~= target_ids(units@.subrange(0, j as int)).push(
                units@[j as int].network_id,
            ));
        }
        j = j + 1;
    }
    assert(units@.subrange(0, units.len() as int) =~= units@);

    let mut orders: Vec<StatusOrder> = Vec::new();
    let ghost orig = incoming@;
    let mut raw: Vec<PeerMessage<M>> = Vec::new();
    std::mem::swap(&mut raw, incoming);
    let mut kept: Vec<PeerMessage<M>> = Vec::new();
    let ghost mut k: int = 0;
    assert(orig.skip(0) =~= orig);
    assert(orig.take(0) =~= Seq::<PeerMessage<M>>::empty());
    while raw.len() > 0
        invariant
            0 <= k <= orig.len(),
            raw@ == orig.skip(k),
            ids@ == target_ids(units@),
            kept@ == orig.take(k).filter(not_apply_status()),
            orders@ == status_orders(orig.take(k), units@),
        decreases raw.len(),
    {
        let msg = raw.remove(0);
        proof {
            assert(orig.skip(k)[0] == orig[k]);
            assert(orig.skip(k).remove(0) =~= orig.skip(k + 1));
            assert(orig.take(k + 1).drop_last() =~= orig.take(k));
            assert(orig.take(k + 1) =~= orig.take(k).push(orig[k]));
            orig.take(k).lemma_filter_push(orig[k], not_apply_status());
        }
        match msg {
            PeerMessage::ApplyStatusEffect { target_network_id, kind, duration, magnitude, flags } => {
                match StatusEffectKind::from_u8(kind) {
                    Some(kd) => match find_first(&ids, target_network_id) {
                        Some(i) => {
                            let u = units[i];
                            let is_poly = match kd {
                                StatusEffectKind::Polymorph => true,
                                _ => false,
                            };
                            let is_mind = match kd {
                                StatusEffectKind::MindControl => true,
                                _ => false,
                            };
                            if is_poly && u.polymorphed {
                                orders.push(
                                    StatusOrder {
                                        unit: i,
                                        kind: StatusEffectKind::Sleep,
                                        duration,
                                        magnitude: F32_ONE_BITS,
                                        flags: 0,
                                        rally_home: false,
                                    },
                                );
                            } else {
                                orders.push(
                                    StatusOrder {
                                        unit: i,
                                        kind: kd,
                                        duration,
                                        magnitude,
                                        flags,
                                        rally_home: is_mind && u.defender,
                                    },
                                );
                            }
                        },
                        None => {},
                    },
                    None => {},
                }
            },
            other => {
                kept.push(other);
            },
        }
        proof {
            k = k + 1;
        }
    }
    proof {
        assert(orig.take(k) =~= orig);
    }
    *incoming = kept;
    orders
}

/// A guest spell hit the host records on one of its units.
#[derive(PartialEq, Eq, Structural, Clone, Copy, Debug)]
pub struct SpellHitOrder {
    /// Position of the unit in the host's unit list.
    pub unit: usize,
    /// Bit pattern of the damage.
    pub damage: u32,
    pub damage_type: u8,
    /// Forwarded hits always come from the guest, who commands the attackers.
    pub source_team: Team,
}

pub open spec fn not_spell_hit<M>() -> spec_fn(PeerMessage<M>) -> bool {
    |m: PeerMessage<M>| !(m is SpellHitUnit)
}

/// The hits `msgs` report, in order, on units still present (by the first
/// unit with the target's id).
pub open spec fn spell_hit_orders<M>(msgs: Seq<PeerMessage<M>>, units: Seq<u32>) -> Seq<SpellHitOrder>
    decreases msgs.len(),
{
    if msgs.len() == 0 {
        Seq::empty()
    } else {
        let earlier = spell_hit_orders(msgs.drop_last(), units);
        match msgs.last() {
            PeerMessage::SpellHitUnit { target_network_id, damage, damage_type } => match first_match(
                units,
                target_network_id,
            ) {
                Some(i) => earlier.push(
                    SpellHitOrder { unit: i as usize, damage, damage_type, source_team: Team::Attackers },
                ),
                None => earlier,
            },
            _ => earlier,
        }
    }
}

/// Host: takes every `SpellHitUnit` off the queue and returns the pending
/// damage effects to record, in order, attributed to the attackers. Hits on
/// units that are gone are dropped; other messages stay queued in order.
pub fn receive_spell_hit_messages<M>(incoming: &mut Vec<PeerMessage<M>>, units: &Vec<u32>) -> (r: Vec<
    SpellHitOrder,
>)
    ensures
        final(incoming)@ == old(incoming)@.filter(not_spell_hit()),
        r@ == spell_hit_orders(old(incoming)@, units@),
{
    let mut orders: Vec<SpellHitOrder> = Vec::new();
    let ghost orig = incoming@;
    let mut raw: Vec<PeerMessage<M>> = Vec::new();
    std::mem::swap(&mut raw, incoming);
    let mut kept: Vec<PeerMessage<M>> = Vec::new();
    let ghost mut k: int = 0;
    assert(orig.skip(0) =~= orig);
    assert(orig.take(0) =~= Seq::<PeerMessage<M>>::empty());
    while raw.len() > 0
        invariant
            0 <= k <= orig.len(),
            raw@ == orig.skip(k),
            kept@ == orig.take(k).filter(not_spell_hit()),
            orders@ == spell_hit_orders(orig.take(k), units@),
        decreases raw.len(),
    {
        let msg = raw.remove(0);
        proof {
            assert(orig.skip(k)[0] == orig[k]);
            assert(orig.skip(k).remove(0) =~= orig.skip(k + 1));
            assert(orig.take(k + 1).drop_last() =~= orig.take(k));
            assert(orig.take(k + 1) =~= orig.take(k).push(orig[k]));
            orig.take(k).lemma_filter_push(orig[k], not_spell_hit());
        }
        match msg {
            PeerMessage::SpellHitUnit { target_network_id, damage, damage_type } => {
                match find_first(units, target_network_id) {
                    Some(i) => {
                        orders.push(
                            SpellHitOrder { unit: i, damage, damage_type, source_team: Team::Attackers },
                        );
                    },
                    None => {},
                }
            },
            other => {
                kept.push(other);
            },
        }
        proof {
            k = k + 1;
        }
    }
    proof {
        assert(orig.take(k) =~= orig);
    }
    *incoming = kept;
    orders
}

/// A spell hit on a ghost, as the guest's local damage pipeline left it.
#[derive(PartialEq, Eq, Structural, Clone, Copy, Debug)]
pub struct PendingHit {
    pub target_network_id: u32,
    /// Bit pattern of the damage.
    pub damage: u32,
    pub damage_type: u8,
}

/// The `SpellHitUnit` for each pending hit, in order. A guest playing
/// Excremage turns every hit into `poop_type`: the host would otherwise look
/// the conversion up against its own wizard.
pub open spec fn hit_messages<M>(hits: Seq<PendingHit>, excremage: bool, poop_type: u8) -> Seq<PeerMessage<M>> {
    Seq::new(
        hits.len(),
        |i: int|
            PeerMessage::SpellHitUnit {
                target_network_id: hits[i].target_network_id,
                damage: hits[i].damage,
                damage_type: if excremage { poop_type } else { hits[i].damage_type },
            },
    )
}

/// Guest: forwards every pending spell hit on a ghost to the host (the caller
/// then removes the pending hits so the guest does not tick them too).
pub fn forward_spell_hits_to_host<M>(
    outgoing: &mut Vec<PeerMessage<M>>,
    hits: &Vec<PendingHit>,
    excremage: bool,
    poop_type: u8,
)
    ensures
        final(outgoing)@ == old(outgoing)@ + hit_messages::<M>(hits@, excremage, poop_type),
{
    let ghost start = outgoing@;
    let mut i: usize = 0;
    while i < hits.len()
        invariant
            i <= hits.len(),
            outgoing@ == start + hit_messages::<M>(hits@.subrange(0, i as int), excremage, poop_type),
        decreases hits.len() - i,
    {
        let h = hits[i];
        let damage_type = if excremage { poop_type } else { h.damage_type };
        outgoing.push(PeerMessage::SpellHitUnit { target_network_id: h.target_network_id, damage: h.damage, damage_type });
        proof {
            assert(hit_messages::<M>(hits@.subrange(0, i + 1), excremage, poop_type) =~= hit_messages::<M>(
                hits@.subrange(0, i as int),
                excremage,
                poop_type,
            ).push(PeerMessage::SpellHitUnit { target_network_id: h.target_network_id, damage: h.damage, damage_type }));
            assert(start + hit_messages::<M>(hits@.subrange(0, i + 1), excremage, poop_type) =~= (start
                + hit_messages::<M>(hits@.subrange(0, i as int), excremage, poop_type)).push(
                PeerMessage::SpellHitUnit { target_network_id: h.target_network_id, damage: h.damage, damage_type },
            ));
        }
        i = i + 1;
    }
    assert(hits@.subrange(0, hits.len() as int) =~= hits@);
}

/// What the guest forwards is what the host records: when the host still has
/// every targeted unit, each forwarded hit becomes one pending damage effect,
/// in order, on the first unit with the hit's id, with the hit's damage and
/// its (Excremage-converted) type, attributed to the attackers.
pub proof fn lemma_forwarded_hits_recorded<M>(
    hits: Seq<PendingHit>,
    excremage: bool,
    poop_type: u8,
    units: Seq<u32>,
)
    requires
        units.len() <= usize::MAX,
        forall|i: int| 0 <= i < hits.len() ==> units.contains(#[trigger] hits[i].target_network_id),
    ensures
        ({
            let orders = spell_hit_orders(hit_messages::<M>(hits, excremage, poop_type), units);
            &&& orders.len() == hits.len()
            &&& forall|i: int|
                0 <= i < hits.len() ==> {
                    &&& first_match(units, hits[i].target_network_id) == Some(#[trigger] orders[i].unit as int)
                    &&& orders[i].damage == hits[i].damage
                    &&& orders[i].damage_type == (if excremage { poop_type } else { hits[i].damage_type })
                    &&& orders[i].source_team == Team::Attackers
                }
        }),
    decreases hits.len(),
{
    let msgs = hit_messages::<M>(hits, excremage, poop_type);
    if hits.len() > 0 {
        let prev = hits.drop_last();
        assert forall|i: int| 0 <= i < prev.len() implies units.contains(#[trigger] prev[i].target_network_id) by {
            assert(prev[i] == hits[i]);
        }
        lemma_forwarded_hits_recorded::<M>(prev, excremage, poop_type, units);
        assert(msgs.drop_last() =~= hit_messages::<M>(prev, excremage, poop_type));
        let last = hits.last();
        assert(units.contains(hits[hits.len() - 1].target_network_id));
        let k = choose|k: int| 0 <= k < units.len() && units[k] == last.target_network_id;
        lemma_first_match_exists(units, last.target_network_id, k);
        let j = choose|j: int| is_first_match(units, last.target_network_id, j);
        lemma_first_match_found(units, last.target_network_id, j);
        let orders = spell_hit_orders(msgs, units);
        let porders = spell_hit_orders(msgs.drop_last(), units);
        assert forall|i: int| 0 <= i < hits.len() implies {
            &&& first_match(units, hits[i].target_network_id) == Some(#[trigger] orders[i].unit as int)
            &&& orders[i].damage == hits[i].damage
            &&& orders[i].damage_type == (if excremage { poop_type } else { hits[i].damage_type })
            &&& orders[i].source_team == Team::Attackers
        } by {
            if i < prev.len() {
                assert(orders[i] == porders[i]);
                assert(prev[i] == hits[i]);
            }
        }
    }
}

/// An id that occurs in `s` has a first occurrence.
pub proof fn lemma_first_match_exists(s: Seq<u32>, x: u32, k: int)
    requires
        0 <= k < s.len(),
        s[k] == x,
    ensures
        exists|i: int| is_first_match(s, x, i),
    decreases k,
{
    if exists|j: int| 0 <= j < k && s[j] == x {
        let j = choose|j: int| 0 <= j < k && s[j] == x;
        lemma_first_match_exists(s, x, j);
    } else {
        assert(is_first_match(s, x, k));
    }
}

/// The knockback direction on the wire: x in the low half, z in the high
/// half, each in thousandths as a 16-bit two's-complement value.
pub open spec fn spec_pack_knockback(x_milli: i16, z_milli: i16) -> u32 {
    (x_milli as u16 as u32) | ((z_milli as u16 as u32) << 16u32)
}

/// Guest: packs a knockback direction (in thousandths) into `flags`.
pub fn pack_knockback_direction(x_milli: i16, z_milli: i16) -> (flags: u32)
    ensures
        flags == spec_pack_knockback(x_milli, z_milli),
{
    let x_bits: u32 = x_milli as u16 as u32;
    let z_bits: u32 = z_milli as u16 as u32;
    x_bits | (z_bits << 16u32)
}

/// Host: the direction (in thousandths) packed in a Knockback's `flags`.
pub fn unpack_knockback_direction(flags: u32) -> (dir: (i16, i16))
    ensures
        dir == ((flags & 0xFFFFu32) as i16, ((flags >> 16u32) & 0xFFFFu32) as i16),
{
    ((flags & 0xFFFFu32) as i16, ((flags >> 16u32) & 0xFFFFu32) as i16)
}

/// The host pushes in exactly the direction the guest's ghost was pushed.
pub proof fn lemma_knockback_round_trip(x_milli: i16, z_milli: i16)
    ensures
        ({
            let f = spec_pack_knockback(x_milli, z_milli);
            ((f & 0xFFFFu32) as i16, ((f >> 16u32) & 0xFFFFu32) as i16) == (x_milli, z_milli)
        }),
{
    let f = spec_pack_knockback(x_milli, z_milli);
    assert((f & 0xFFFFu32) as i16 == x_milli && ((f >> 16u32) & 0xFFFFu32) as i16 == z_milli)
        by (bit_vector)
        requires
            f == (x_milli as u16 as u32) | ((z_milli as u16 as u32) << 16u32),
    ;
}

/// Battle Hymn and Berserker Rage carry a ratio in ten-thousandths in the
/// low 16 bits of `flags`.
pub fn pack_ratio_flags(ten_thousandths: u32) -> (flags: u32)
    ensures
        flags == ten_thousandths & 0xFFFFu32,
{
    ten_thousandths & 0xFFFFu32
}

/// Host: the ratio (in ten-thousandths) in the low 16 bits of `flags`.
pub fn unpack_ratio_flags(flags: u32) -> (ten_thousandths: u32)
    ensures
        ten_thousandths == flags & 0xFFFFu32,
{
    flags & 0xFFFFu32
}

/// A ratio that fits 16 bits reaches the host unchanged.
pub proof fn lemma_ratio_round_trip(ten_thousandths: u32)
    requires
        ten_thousandths <= 0xFFFF,
    ensures
        (ten_thousandths & 0xFFFFu32) & 0xFFFFu32 == ten_thousandths,
{
    assert((ten_thousandths & 0xFFFFu32) & 0xFFFFu32 == ten_thousandths) by (bit_vector)
        requires
            ten_thousandths <= 0xFFFF,
    ;
}

/// Only mind control over a defender rallies home when it wears off: every
/// order names a unit of the list (held in a `Vec`, so its length fits `usize`), and it rallies exactly when it is a mind
/// control and that unit is a defender.
pub proof fn lemma_rally_home_only_defenders<M>(msgs: Seq<PeerMessage<M>>, units: Seq<StatusTarget>)
    requires
        units.len() <= usize::MAX,
    ensures
        forall|j: int|
            0 <= j < status_orders(msgs, units).len() ==> {
                let o = #[trigger] status_orders(msgs, units)[j];
                &&& o.unit < units.len()
                &&& o.rally_home == (o.kind == StatusEffectKind::MindControl && units[o.unit as int].defender)
            },
    decreases msgs.len(),
{
    if msgs.len() > 0 {
        lemma_rally_home_only_defenders(msgs.drop_last(), units);
        let earlier = status_orders(msgs.drop_last(), units);
        let all = status_orders(msgs, units);
        assert forall|j: int| 0 <= j < all.len() implies {
            let o = #[trigger] all[j];
            &&& o.unit < units.len()
            &&& o.rally_home == (o.kind == StatusEffectKind::MindControl && units[o.unit as int].defender)
        } by {
            if j < earlier.len() {
                assert(all[j] == earlier[j]);
            } else {
                match msgs.last() {
                    PeerMessage::ApplyStatusEffect { target_network_id, kind, duration, magnitude, flags } => {
                        match (kind_of_ordinal(kind), first_match(target_ids(units), target_network_id)) {
                            (Some(k), Some(i)) => {
                                let ids = target_ids(units);
                                assert(is_first_match(ids, target_network_id, i));
                                assert(ids.len() == units.len());
                                assert(all[j] == status_order(units, i, k, duration, magnitude, flags));
                            },
                            _ => {},
                        }
                    },
                    _ => {},
                }
            }
        }
    }
}

} // verus!
