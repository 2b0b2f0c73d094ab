use multiplayer::protocol::PeerMessage;
use multiplayer::status::{
    pack_knockback_direction, pack_polymorph_flags, receive_apply_status_effect, PolymorphTalents, SleepTalents,
    StatusEffectKind, StatusOrder, StatusTarget, F32_ONE_BITS, SLEEP_DREAMWALKER, SLEEP_NIGHT_TERRORS,
};
use multiplayer::status_apply::{
    f32_bits_positive, status_components, SheepForm, StatusComponents, F32_HALF_BITS, F32_POINT_FOUR_BITS,
    F32_TWO_BITS,
};

fn order(kind: StatusEffectKind, duration: f32, magnitude: f32, flags: u32) -> StatusOrder {
    StatusOrder {
        unit: 0,
        kind,
        duration: duration.to_bits(),
        magnitude: magnitude.to_bits(),
        flags,
        rally_home: false,
    }
}

const NO_COMPANIONS: SleepTalents =
    SleepTalents { night_terrors: false, comatose: false, narcoleptic_wave: false, dreamwalker: false };

#[test]
fn positive_bits_agree_with_f32_comparison() {
    let values = [
        0.0f32,
        -0.0,
        1.0,
        -1.0,
        f32::MIN_POSITIVE,
        f32::from_bits(1),
        f32::MAX,
        f32::INFINITY,
        f32::NEG_INFINITY,
        f32::NAN,
        f32::from_bits(0x7FC0_0001),
        f32::from_bits(0xFFC0_0000),
        0.25,
        -1.0e-30,
    ];
    for v in values {
        assert_eq!(f32_bits_positive(v.to_bits()), v > 0.0, "{v:?}");
    }
}

#[test]
fn default_magnitudes_are_the_documented_values() {
    assert_eq!(F32_TWO_BITS, 2.0f32.to_bits());
    assert_eq!(F32_HALF_BITS, 0.5f32.to_bits());
    assert_eq!(F32_POINT_FOUR_BITS, 0.4f32.to_bits());
}

#[test]
fn sleep_takes_default_multiplier_and_companions() {
    let c = status_components(&order(StatusEffectKind::Sleep, 3.0, 0.0, SLEEP_NIGHT_TERRORS | SLEEP_DREAMWALKER));
    assert_eq!(
        c,
        StatusComponents::Sleep {
            duration: 3.0f32.to_bits(),
            bonus_multiplier: 2.0f32.to_bits(),
            companions: SleepTalents {
                night_terrors: true,
                comatose: false,
                narcoleptic_wave: false,
                dreamwalker: true,
            },
        }
    );
    let c = status_components(&order(StatusEffectKind::Sleep, 3.0, 1.5, 0));
    assert_eq!(
        c,
        StatusComponents::Sleep {
            duration: 3.0f32.to_bits(),
            bonus_multiplier: 1.5f32.to_bits(),
            companions: NO_COMPANIONS,
        }
    );
}

#[test]
fn polymorph_form_and_contagion() {
    let t = PolymorphTalents { explosive: false, contagious: true, pig: true, permanent: false, dire: true };
    let c = status_components(&order(StatusEffectKind::Polymorph, 8.0, -2.0, pack_polymorph_flags(t)));
    assert_eq!(
        c,
        StatusComponents::Polymorphed {
            duration: 8.0f32.to_bits(),
            form: SheepForm::Dire,
            talents: t,
            contagious_empowerment: Some(1.0f32.to_bits()),
        }
    );
    let t = PolymorphTalents { explosive: true, contagious: false, pig: true, permanent: false, dire: false };
    let c = status_components(&order(StatusEffectKind::Polymorph, 8.0, 3.0, pack_polymorph_flags(t)));
    assert_eq!(
        c,
        StatusComponents::Polymorphed {
            duration: 8.0f32.to_bits(),
            form: SheepForm::Pig,
            talents: t,
            contagious_empowerment: None,
        }
    );
    let c = status_components(&order(StatusEffectKind::Polymorph, 8.0, 3.0, 0));
    match c {
        StatusComponents::Polymorphed { form, .. } => assert_eq!(form, SheepForm::Sheep),
        other => panic!("unexpected {other:?}"),
    }
}

#[test]
fn ratio_statuses_read_the_low_half_of_flags() {
    let c = status_components(&order(StatusEffectKind::BattleHymn, 5.0, f32::NAN, 0x0001_2710));
    assert_eq!(
        c,
        StatusComponents::BattleHymn {
            damage_bonus: 0.4f32.to_bits(),
            attack_speed_ten_thousandths: 10_000,
            duration: 5.0f32.to_bits(),
        }
    );
    let c = status_components(&order(StatusEffectKind::BerserkerRage, 5.0, 0.75, 2_500));
    assert_eq!(
        c,
        StatusComponents::BerserkerRage {
            damage_bonus: 0.75f32.to_bits(),
            vulnerability_ten_thousandths: 2_500,
            duration: 5.0f32.to_bits(),
        }
    );
}

#[test]
fn magnitude_defaults_per_status() {
    let mut o = order(StatusEffectKind::MindControl, 6.0, 0.0, 0);
    o.rally_home = true;
    assert_eq!(
        status_components(&o),
        StatusComponents::MindControlled {
            wear_off_duration: 6.0f32.to_bits(),
            damage_multiplier: 1.0f32.to_bits(),
            rally_home: true,
        }
    );
    assert_eq!(
        status_components(&order(StatusEffectKind::Mark, 4.0, -0.0, 0)),
        StatusComponents::Marked { amplification: 0.5f32.to_bits(), duration: 4.0f32.to_bits() }
    );
    assert_eq!(
        status_components(&order(StatusEffectKind::Haste, 4.0, 0.2, 0)),
        StatusComponents::Haste { speed_bonus: 0.2f32.to_bits(), duration: 4.0f32.to_bits() }
    );
    // Temporary hit points, slow and fog evasion take the magnitude as sent.
    assert_eq!(
        status_components(&order(StatusEffectKind::GuardianTempHp, 9.0, -5.0, 0)),
        StatusComponents::TemporaryHitPoints { amount: (-5.0f32).to_bits(), duration: 9.0f32.to_bits() }
    );
    assert_eq!(
        status_components(&order(StatusEffectKind::Slow, 2.0, 0.0, 0)),
        StatusComponents::Slow { magnitude: 0.0f32.to_bits(), duration: 2.0f32.to_bits() }
    );
    assert_eq!(
        status_components(&order(StatusEffectKind::FogEvasion, 2.0, 0.3, 7)),
        StatusComponents::FogEvasion { magnitude: 0.3f32.to_bits(), duration: 2.0f32.to_bits() }
    );
    assert_eq!(
        status_components(&order(StatusEffectKind::Root, 2.0, 0.3, 7)),
        StatusComponents::Rooted { duration: 2.0f32.to_bits() }
    );
    assert_eq!(
        status_components(&order(StatusEffectKind::Banish, 2.0, 0.3, 7)),
        StatusComponents::Banished { duration: 2.0f32.to_bits() }
    );
    assert_eq!(
        status_components(&order(StatusEffectKind::Stun, 2.0, 0.3, 7)),
        StatusComponents::Stunned { duration: 2.0f32.to_bits() }
    );
}

#[test]
fn knockback_carries_the_packed_direction() {
    let c = status_components(&order(StatusEffectKind::Knockback, 0.5, 300.0, pack_knockback_direction(-600, 800)));
    assert_eq!(
        c,
        StatusComponents::Knockback {
            direction_x_milli: -600,
            direction_z_milli: 800,
            speed: 300.0f32.to_bits(),
            duration: 0.5f32.to_bits(),
        }
    );
}

#[test]
fn second_polymorph_on_a_sheep_sleeps_it() {
    let units = vec![StatusTarget { network_id: 6, polymorphed: true, defender: false }];
    let mut incoming: Vec<PeerMessage<u32>> = vec![PeerMessage::ApplyStatusEffect {
        target_network_id: 6,
        kind: StatusEffectKind::Polymorph.to_u8(),
        duration: 7.0f32.to_bits(),
        magnitude: 3.0f32.to_bits(),
        flags: 0x1F,
    }];
    let orders = receive_apply_status_effect(&mut incoming, &units);
    assert_eq!(orders.len(), 1);
    assert_eq!(
        status_components(&orders[0]),
        StatusComponents::Sleep {
            duration: 7.0f32.to_bits(),
            bonus_multiplier: F32_ONE_BITS,
            companions: NO_COMPANIONS,
        }
    );
}
