//! What the host inserts on a unit for a forwarded status: the status
//! component with its parameters (a non-positive magnitude falls back to the
//! status's default), and the talent companions the flags ask for.
//! Single-precision values are carried as their bit patterns.

use vstd::prelude::*;
use crate::status::{
    PolymorphTalents, SleepTalents, StatusEffectKind, StatusOrder, StatusTarget, F32_ONE_BITS, status_order, decode_polymorph_flags,
    decode_sleep_flags, spec_decode_polymorph, spec_decode_sleep, unpack_knockback_direction, unpack_ratio_flags,
};

verus! {

/// Bit pattern of the single-precision 2.0.
pub const F32_TWO_BITS: u32 = 0x4000_0000;

/// Bit pattern of the single-precision 0.5.
pub const F32_HALF_BITS: u32 = 0x3F00_0000;

/// Bit pattern of the single-precision 0.4.
pub const F32_POINT_FOUR_BITS: u32 = 0x3ECC_CCCD;

/// Whether the single-precision value with bit pattern `bits` is greater than
/// zero: a clear sign bit, not +0.0, and not a NaN (the patterns above +inf).
pub open spec fn spec_f32_positive(bits: u32) -> bool {
    0 < bits && bits <= 0x7F80_0000
}

/// `bits` when it is a positive value, else `default`.
pub open spec fn spec_magnitude_or(bits: u32, default: u32) -> u32 {
    if spec_f32_positive(bits) { bits } else { default }
}

/// Whether a single-precision value, given by its bit pattern, is above zero.
pub fn f32_bits_positive(bits: u32) -> (r: bool)
    ensures
        r == spec_f32_positive(bits),
{
    0 < bits && bits <= 0x7F80_0000
}

fn magnitude_or(bits: u32, default: u32) -> (r: u32)
    ensures
        r == spec_magnitude_or(bits, default),
{
    if f32_bits_positive(bits) {
        bits
    } else {
        default
    }
}

/// The body a polymorphed unit takes: its hit points and colour follow it.
#[derive(PartialEq, Eq, Structural, Clone, Copy, Debug)]
pub enum SheepForm {
    Sheep,
    Pig,
    Dire,
}

/// Dire outranks the pig form.
pub open spec fn spec_sheep_form(t: PolymorphTalents) -> SheepForm {
    if t.dire {
        SheepForm::Dire
    } else if t.pig {
        SheepForm::Pig
    } else {
        SheepForm::Sheep
    }
}

/// The components the host inserts for one status order. Durations,
/// magnitudes and bonuses are single-precision bit patterns.
#[derive(PartialEq, Eq, Structural, Clone, Copy, Debug)]
pub enum StatusComponents {
    /// A sleep with its wake-up damage multiplier and the talent companions.
    Sleep { duration: u32, bonus_multiplier: u32, companions: SleepTalents },
    Rooted { duration: u32 },
    /// The sheep transform. The talent markers follow the flags; a contagious
    /// sheep spreads with `contagious_empowerment`. Only a dire sheep keeps
    /// attacking (on the defenders' side); every other form stops.
    Polymorphed {
        duration: u32,
        form: SheepForm,
        talents: PolymorphTalents,
        contagious_empowerment: Option<u32>,
    },
    MindControlled { wear_off_duration: u32, damage_multiplier: u32, rally_home: bool },
    /// Banished and hidden.
    Banished { duration: u32 },
    /// Marked for death, with the doom-skull indicator.
    Marked { amplification: u32, duration: u32 },
    Haste { speed_bonus: u32, duration: u32 },
    BattleHymn { damage_bonus: u32, attack_speed_ten_thousandths: u32, duration: u32 },
    BerserkerRage { damage_bonus: u32, vulnerability_ten_thousandths: u32, duration: u32 },
    TemporaryHitPoints { amount: u32, duration: u32 },
    Slow { magnitude: u32, duration: u32 },
    /// A push along the direction `(x, z)`, in thousandths, at `speed`.
    Knockback { direction_x_milli: i16, direction_z_milli: i16, speed: u32, duration: u32 },
    Stunned { duration: u32 },
    FogEvasion { magnitude: u32, duration: u32 },
}

/// The components for order `o`: a non-positive magnitude takes the status's
/// default (sleep 2.0, polymorph spread and mind control 1.0, mark and haste
/// 0.5, battle hymn 0.4, berserker rage 1.0); temporary hit points, slow and
/// fog evasion take the magnitude as it is.
pub open spec fn spec_status_components(o: StatusOrder) -> StatusComponents {
    let d = o.duration;
    let m = o.magnitude;
    match o.kind {
        StatusEffectKind::Sleep => StatusComponents::Sleep {
            duration: d,
            bonus_multiplier: spec_magnitude_or(m, F32_TWO_BITS),
            companions: spec_decode_sleep(o.flags),
        },
        StatusEffectKind::Root => StatusComponents::Rooted { duration: d },
        StatusEffectKind::Polymorph => {
            let t = spec_decode_polymorph(o.flags);
            StatusComponents::Polymorphed {
                duration: d,
                form: spec_sheep_form(t),
                talents: t,
                contagious_empowerment: if t.contagious {
                    Some(spec_magnitude_or(m, F32_ONE_BITS))
                } else {
                    None
                },
            }
        },
        StatusEffectKind::MindControl => StatusComponents::MindControlled {
            wear_off_duration: d,
            damage_multiplier: spec_magnitude_or(m, F32_ONE_BITS),
            rally_home: o.rally_home,
        },
        StatusEffectKind::Banish => StatusComponents::Banished { duration: d },
        StatusEffectKind::Mark => StatusComponents::Marked {
            amplification: spec_magnitude_or(m, F32_HALF_BITS),
            duration: d,
        },
        StatusEffectKind::Haste => StatusComponents::Haste {
            speed_bonus: spec_magnitude_or(m, F32_HALF_BITS),
            duration: d,
        },
        StatusEffectKind::BattleHymn => StatusComponents::BattleHymn {
            damage_bonus: spec_magnitude_or(m, F32_POINT_FOUR_BITS),
            attack_speed_ten_thousandths: o.flags & 0xFFFFu32,
            duration: d,
        },
        StatusEffectKind::BerserkerRage => StatusComponents::BerserkerRage {
            damage_bonus: spec_magnitude_or(m, F32_ONE_BITS),
            vulnerability_ten_thousandths: o.flags & 0xFFFFu32,
            duration: d,
        },
        StatusEffectKind::GuardianTempHp => StatusComponents::TemporaryHitPoints { amount: m, duration: d },
        StatusEffectKind::Slow => StatusComponents::Slow { magnitude: m, duration: d },
        StatusEffectKind::Knockback => StatusComponents::Knockback {
            direction_x_milli: (o.flags & 0xFFFFu32) as i16,
            direction_z_milli: ((o.flags >> 16u32) & 0xFFFFu32) as i16,
            speed: m,
            duration: d,
        },
        StatusEffectKind::Stun => StatusComponents::Stunned { duration: d },
        StatusEffectKind::FogEvasion => StatusComponents::FogEvasion { magnitude: m, duration: d },
    }
}

/// Host: the components to insert on the unit an order targets.
pub fn status_components(o: &StatusOrder) -> (c: StatusComponents)
    ensures
        c == spec_status_components(*o),
{
    let d = o.duration;
    let m = o.magnitude;
    match o.kind {
        StatusEffectKind::Sleep => StatusComponents::Sleep {
            duration: d,
            bonus_multiplier: magnitude_or(m, F32_TWO_BITS),
            companions: decode_sleep_flags(o.flags),
        },
        StatusEffectKind::Root => StatusComponents::Rooted { duration: d },
        StatusEffectKind::Polymorph => {
            let t = decode_polymorph_flags(o.flags);
            let form = if t.dire {
                SheepForm::Dire
            } else if t.pig {
                SheepForm::Pig
            } else {
                SheepForm::Sheep
            };
            let contagious_empowerment = if t.contagious {
                Some(magnitude_or(m, F32_ONE_BITS))
            } else {
                None
            };
            StatusComponents::Polymorphed { duration: d, form, talents: t, contagious_empowerment }
        },
        StatusEffectKind::MindControl => StatusComponents::MindControlled {
            wear_off_duration: d,
            damage_multiplier: magnitude_or(m, F32_ONE_BITS),
            rally_home: o.rally_home,
        },
        StatusEffectKind::Banish => StatusComponents::Banished { duration: d },
        StatusEffectKind::Mark => StatusComponents::Marked {
            amplification: magnitude_or(m, F32_HALF_BITS),
            duration: d,
        },
        StatusEffectKind::Haste => StatusComponents::Haste { speed_bonus: magnitude_or(m, F32_HALF_BITS), duration: d },
        StatusEffectKind::BattleHymn => StatusComponents::BattleHymn {
            damage_bonus: magnitude_or(m, F32_POINT_FOUR_BITS),
            attack_speed_ten_thousandths: unpack_ratio_flags(o.flags),
            duration: d,
        },
        StatusEffectKind::BerserkerRage => StatusComponents::BerserkerRage {
            damage_bonus: magnitude_or(m, F32_ONE_BITS),
            vulnerability_ten_thousandths: unpack_ratio_flags(o.flags),
            duration: d,
        },
        StatusEffectKind::GuardianTempHp => StatusComponents::TemporaryHitPoints { amount: m, duration: d },
        StatusEffectKind::Slow => StatusComponents::Slow { magnitude: m, duration: d },
        StatusEffectKind::Knockback => {
            let (x, z) = unpack_knockback_direction(o.flags);
            StatusComponents::Knockback { direction_x_milli: x, direction_z_milli: z, speed: m, duration: d }
        },
        StatusEffectKind::Stun => StatusComponents::Stunned { duration: d },
        StatusEffectKind::FogEvasion => StatusComponents::FogEvasion { magnitude: m, duration: d },
    }
}

/// A polymorph aimed at a unit that already is a sheep puts it to sleep for
/// the polymorph's duration, with wake-up multiplier 1.0 and no companions,
/// whatever magnitude and talents the polymorph carried.
pub proof fn lemma_polymorph_on_sheep_sleeps(
    units: Seq<StatusTarget>,
    i: int,
    duration: u32,
    magnitude: u32,
    flags: u32,
)
    requires
        0 <= i < units.len(),
        units[i].polymorphed,
    ensures
        spec_status_components(status_order(units, i, StatusEffectKind::Polymorph, duration, magnitude, flags))
            == (StatusComponents::Sleep {
            duration,
            bonus_multiplier: F32_ONE_BITS,
            companions: SleepTalents { night_terrors: false, comatose: false, narcoleptic_wave: false, dreamwalker: false },
        }),
{
    assert(0u32 & 0x1u32 == 0 && 0u32 & 0x2u32 == 0 && 0u32 & 0x4u32 == 0 && 0u32 & 0x8u32 == 0) by (bit_vector);
}

} // verus!
