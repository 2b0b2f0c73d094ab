//! Co-op match lifecycle: the host starting a co-op run, standing up and
//! tearing down its per-level networking, the attacker buff while a guest is
//! connected, and the guest returning to its tower when a level or run ends.

use vstd::prelude::*;
use crate::session::{
    MultiplayerSession, SessionMode, WizardType, ConnectionState, PeerRole, spec_is_coop,
};
use crate::protocol::PeerMessage;
use crate::scoring::{GameOutcome, KillStats};
use crate::loading::{spec_prepared, spec_terrain_level};

verus! {

/// `rand::random::<u64>()`: any seed may come back.
#[verifier::external_body]
fn random_seed() -> u64 {
    rand::random::<u64>()
}

/// The game-config fields a co-op start touches.
#[derive(PartialEq, Eq, Structural, Clone, Copy, Debug)]
pub struct CoopConfig {
    pub seed: Option<u64>,
    pub current_level: u32,
}

/// The session the host's loader turns into a co-op session.
#[derive(PartialEq, Eq, Structural, Clone, Copy, Debug)]
pub struct CoopPendingSession {
    pub guest_wizard: WizardType,
    pub mode: SessionMode,
}

/// Whether a co-op guest is connected during the host's match; drives the
/// attacker buff and is cleared when the guest drops.
#[derive(PartialEq, Eq, Structural, Clone, Copy, Debug)]
pub struct CoopGuestConnected(pub bool);

/// The host's level, received by the guest in `StartGame`, so both peers
/// generate the same seeded terrain.
#[derive(PartialEq, Eq, Structural, Clone, Copy, Debug)]
pub struct CoopGuestLevel(pub u32);

/// The connected co-op partner's display name, when one is known.
#[derive(Debug, PartialEq, Eq)]
pub struct CoopPeerInfo {
    pub name: Option<String>,
}

impl Default for CoopPeerInfo {
    fn default() -> (r: Self)
        ensures
            r.name.is_none(),
    {
        CoopPeerInfo { name: None }
    }
}

/// Host-side "both peers loaded" handshake for a co-op level.
#[derive(PartialEq, Eq, Structural, Clone, Copy, Debug)]
pub struct CoopLoadingSync {
    pub my_loaded: bool,
    pub peer_loaded: bool,
}

/// What starting a co-op run with a given shared seed asks for.
pub open spec fn spec_coop_start<M>(
    config: CoopConfig,
    seed: u64,
    guest_wizard: WizardType,
    mode: SessionMode,
    urgent: bool,
) -> (CoopConfig, CoopPendingSession, PeerMessage<M>) {
    (
        CoopConfig { seed: Some(seed), current_level: config.current_level },
        CoopPendingSession { guest_wizard, mode },
        PeerMessage::StartGame { seed, coop_mode: mode, level: config.current_level, urgent },
    )
}

/// Starts a co-op run with the shared `seed`: the seed goes into the config
/// (so terrain is deterministic on both peers), the pending session records
/// the guest's wizard and the mode, and `StartGame` pulls the guest in at the
/// host's level.
pub fn coop_start_with_seed<M>(
    config: &mut CoopConfig,
    seed: u64,
    guest_wizard: WizardType,
    mode: SessionMode,
    urgent: bool,
) -> (r: (CoopPendingSession, PeerMessage<M>))
    ensures
        ({
            let s = spec_coop_start::<M>(*old(config), seed, guest_wizard, mode, urgent);
            &&& *final(config) == s.0
            &&& r.0 == s.1
            &&& r.1 == s.2
        }),
{
    config.seed = Some(seed);
    (
        CoopPendingSession { guest_wizard, mode },
        PeerMessage::StartGame { seed, coop_mode: mode, level: config.current_level, urgent },
    )
}

/// Starts a co-op run on the host with a fresh random seed. Whatever seed is
/// drawn, the config and the `StartGame` message carry the same one.
pub fn start_coop_host<M>(
    config: &mut CoopConfig,
    guest_wizard: WizardType,
    mode: SessionMode,
    urgent: bool,
) -> (r: (CoopPendingSession, PeerMessage<M>))
    ensures
        exists|seed: u64|
            {
                let s = #[trigger] spec_coop_start::<M>(*old(config), seed, guest_wizard, mode, urgent);
                &&& *final(config) == s.0
                &&& r.0 == s.1
                &&& r.1 == s.2
            },
{
    let seed = random_seed();
    let r = coop_start_with_seed(config, seed, guest_wizard, mode, urgent);
    assert({
        let s = spec_coop_start::<M>(*old(config), seed, guest_wizard, mode, urgent);
        &&& *config == s.0
        &&& r.0 == s.1
        &&& r.1 == s.2
    });
    r
}

/// Both peers seed the same terrain: a co-op guest that prepares its loading
/// with the seed and level of the host's `StartGame` generates from the seed
/// and level the host's config holds.
pub proof fn lemma_guest_terrain_matches_host<M>(
    config: CoopConfig,
    seed: u64,
    guest_wizard: WizardType,
    mode: SessionMode,
    urgent: bool,
    mp_terrain_level: u32,
)
    ensures
        ({
            let (host_config, _, msg) = spec_coop_start::<M>(config, seed, guest_wizard, mode, urgent);
            match msg {
                PeerMessage::StartGame { seed: s, level, .. } => {
                    let guest = spec_prepared(s, spec_terrain_level(true, Some(level), mp_terrain_level));
                    &&& guest.seed == host_config.seed
                    &&& guest.current_level == host_config.current_level
                },
                _ => false,
            }
        }),
{
}

/// Tells an attached co-op guest that the host's run is over, so it returns
/// to its tower on purpose. Nothing is sent without a connected guest.
pub fn notify_guest_run_ended<M>(has_connected_guest: bool, victory: bool, outgoing: &mut Vec<PeerMessage<M>>)
    ensures
        has_connected_guest ==> final(outgoing)@ == old(outgoing)@.push(PeerMessage::CoopRunEnded { victory }),
        !has_connected_guest ==> final(outgoing)@ == old(outgoing)@,
{
    if !has_connected_guest {
        return;
    }
    outgoing.push(PeerMessage::CoopRunEnded { victory });
}

/// Entering a co-op host level: when this peer is the co-op host, the
/// networking resources are stood up, cast events are replicated, and the
/// guest counts as connected exactly when the connection is up. `None` for
/// single-player and for the guest.
pub fn init_coop_host(session: Option<&MultiplayerSession>, connection: ConnectionState) -> (r: Option<bool>)
    ensures
        match session {
            Some(s) if spec_is_coop(s.mode) && s.role == PeerRole::Host => r == Some(
                connection == ConnectionState::Connected,
            ),
            _ => r.is_none(),
        },
{
    match session {
        Some(s) => {
            if s.is_coop() && s.role == PeerRole::Host {
                Some(connection == ConnectionState::Connected)
            } else {
                None
            }
        },
        None => None,
    }
}

/// The attacker buff applies exactly while a co-op guest is connected.
pub fn coop_buff_active(coop_connected: Option<bool>) -> (r: bool)
    ensures
        r == (coop_connected == Some(true)),
{
    match coop_connected {
        Some(c) => c,
        None => false,
    }
}

/// Host, score screen reached: the `CoopLevelOver` for the guest. The host's
/// spell stats are not reported yet (zero).
pub fn coop_level_over_message<M>(
    outcome: GameOutcome,
    level: u32,
    kills: KillStats,
    elapsed_time: u32,
) -> (m: PeerMessage<M>)
    ensures
        m == (PeerMessage::<M>::CoopLevelOver {
            victory: outcome == GameOutcome::Victory,
            level,
            defenders_killed: kills.defenders_killed,
            attackers_killed: kills.attackers_killed,
            undead_killed: kills.undead_killed,
            elapsed_time,
            host_spell_damage: 0,
            host_spell_healing: 0,
        }),
{
    PeerMessage::CoopLevelOver {
        victory: outcome == GameOutcome::Victory,
        level,
        defenders_killed: kills.defenders_killed,
        attackers_killed: kills.attackers_killed,
        undead_killed: kills.undead_killed,
        elapsed_time,
        host_spell_damage: 0,
        host_spell_healing: 0,
    }
}

/// Outcome of a co-op level as the guest receives it.
#[derive(PartialEq, Eq, Structural, Clone, Copy, Debug)]
pub struct CoopLevelResult {
    pub victory: bool,
    pub level: u32,
    pub defenders_killed: u32,
    pub attackers_killed: u32,
    pub undead_killed: u32,
    /// Bit pattern of the match clock in seconds.
    pub elapsed_time: u32,
}

/// What the lifecycle messages of a frame ask of the guest.
#[derive(PartialEq, Eq, Structural, Clone, Copy, Debug)]
pub struct CoopLifecycle {
    /// Go back to the wizard tower.
    pub return_to_tower: bool,
    /// The level to record in the guest's own progression (the last one).
    pub level_result: Option<CoopLevelResult>,
}

pub open spec fn is_lifecycle<M>(m: PeerMessage<M>) -> bool {
    m is CoopLevelOver || m is CoopRunEnded
}

pub open spec fn not_lifecycle<M>() -> spec_fn(PeerMessage<M>) -> bool {
    |m: PeerMessage<M>| !is_lifecycle(m)
}

pub open spec fn last_level_result<M>(msgs: Seq<PeerMessage<M>>) -> Option<CoopLevelResult>
    decreases msgs.len(),
{
    if msgs.len() == 0 {
        None
    } else {
        match msgs.last() {
            PeerMessage::CoopLevelOver {
                victory,
                level,
                defenders_killed,
                attackers_killed,
                undead_killed,
                elapsed_time,
                ..
            } => Some(
                CoopLevelResult {
                    victory,
                    level,
                    defenders_killed,
                    attackers_killed,
                    undead_killed,
                    elapsed_time,
                },
            ),
            _ => last_level_result(msgs.drop_last()),
        }
    }
}

/// Co-op guest: a level end or run end sends the guest back to its tower; the
/// last level end is recorded. Other messages are re-queued in order.
pub fn receive_coop_lifecycle<M>(incoming: &mut Vec<PeerMessage<M>>) -> (r: CoopLifecycle)
    ensures
        final(incoming)@ == old(incoming)@.filter(not_lifecycle()),
        r.return_to_tower == (exists|i: int| 0 <= i < old(incoming)@.len() && is_lifecycle(#[trigger] old(incoming)@[i])),
        r.level_result == last_level_result(old(incoming)@),
{
    let ghost orig = incoming@;
    let mut raw: Vec<PeerMessage<M>> = Vec::new();
    std::mem::swap(&mut raw, incoming);
    let mut kept: Vec<PeerMessage<M>> = Vec::new();
    let mut ret = false;
    let mut result: Option<CoopLevelResult> = None;
    let ghost mut k: int = 0;
    assert(orig.skip(0) =~= orig);
    assert(orig.take(0) =~= Seq::<PeerMessage<M>>::empty());
    while raw.len() > 0
        invariant
            0 <= k <= orig.len(),
            raw@ == orig.skip(k),
            kept@ == orig.take(k).filter(not_lifecycle()),
            ret == (exists|i: int| 0 <= i < k && is_lifecycle(#[trigger] orig[i])),
            result == last_level_result(orig.take(k)),
        decreases raw.len(),
    {
        let msg = raw.remove(0);
        proof {
            assert(orig.skip(k)[0] == orig[k]);
            assert(orig.skip(k).remove(0) =~= orig.skip(k + 1));
            assert(orig.take(k + 1).drop_last() =~= orig.take(k));
            assert(orig.take(k + 1) =~= orig.take(k).push(orig[k]));
            orig.take(k).lemma_filter_push(orig[k], not_lifecycle());
        }
        match msg {
            PeerMessage::CoopLevelOver {
                victory,
                level,
                defenders_killed,
                attackers_killed,
                undead_killed,
                elapsed_time,
                ..
            } => {
                result = Some(
                    CoopLevelResult {
                        victory,
                        level,
                        defenders_killed,
                        attackers_killed,
                        undead_killed,
                        elapsed_time,
                    },
                );
                ret = true;
            },
            PeerMessage::CoopRunEnded { .. } => {
                ret = true;
            },
            other => {
                kept.push(other);
            },
        }
        proof {
            k = k + 1;
        }
    }
    proof {
        assert(orig.take(k) =~= orig);
    }
    *incoming = kept;
    CoopLifecycle { return_to_tower: ret, level_result: result }
}

/// Whether a co-op level end counts toward the guest's endless records.
pub fn records_endless(session: &MultiplayerSession) -> (r: bool)
    ensures
        r == (session.mode == SessionMode::CoopEndless),
{
    session.mode == SessionMode::CoopEndless
}

/// The `StartGame` a co-op start sends carries the run the host started: the
/// mode recorded in the pending session, the seed the config now holds, the
/// host's level and the urgent toggle.
pub proof fn lemma_start_game_carries_host_run<M>(
    config: CoopConfig,
    seed: u64,
    guest_wizard: WizardType,
    mode: SessionMode,
    urgent: bool,
)
    ensures
        ({
            let s = spec_coop_start::<M>(config, seed, guest_wizard, mode, urgent);
            &&& s.1.mode == mode
            &&& s.0.seed == Some(seed)
            &&& s.2 == PeerMessage::<M>::StartGame {
                seed,
                coop_mode: mode,
                level: config.current_level,
                urgent,
            }
        }),
{
}

} // verus!
