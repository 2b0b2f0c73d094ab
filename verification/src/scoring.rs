//! Match end: who won, the scoreboard each peer shows, and the summary the
//! host ships to the guest. Kills and deaths come from the host's
//! authoritative side counts; spell damage and healing are per wizard and are
//! carried as `f32` bit patterns, which the scoreboard only copies.

use vstd::prelude::*;
use crate::session::{Team, MultiplayerGameState};
use crate::protocol::{GameOverResult, HostMatchSummary, PeerMessage};

verus! {

/// Outcome of the match from the local player's point of view.
#[derive(PartialEq, Eq, Structural, Clone, Copy, Debug)]
pub enum GameOutcome {
    Victory,
    DefeatKingDied,
}

/// The host's side-level kill counters.
#[derive(PartialEq, Eq, Structural, Clone, Copy, Debug)]
pub struct KillStats {
    pub defenders_killed: u32,
    pub attackers_killed: u32,
    pub undead_killed: u32,
}

/// The local wizard's spell output over the whole match (bit patterns).
#[derive(PartialEq, Eq, Structural, Clone, Copy, Debug)]
pub struct LocalWizardStats {
    pub spell_damage: u32,
    pub spell_healing: u32,
}

/// Both players' scoreboard stats; "your" is always the local player's side.
#[derive(PartialEq, Eq, Structural, Clone, Copy, Debug)]
pub struct MatchStats {
    pub your_kills: u32,
    pub your_deaths: u32,
    pub your_damage: u32,
    pub your_healing: u32,
    pub enemy_kills: u32,
    pub enemy_deaths: u32,
    pub enemy_damage: u32,
    pub enemy_healing: u32,
}

/// The scoreboard for a side: defenders killed attackers and undead and lost
/// defenders; attackers the other way round. The enemy's kills and deaths
/// mirror yours.
pub open spec fn spec_assemble(
    local_is_defender: bool,
    defenders_killed: u32,
    attackers_and_undead_killed: u32,
    your_damage: u32,
    your_healing: u32,
    enemy_damage: u32,
    enemy_healing: u32,
) -> MatchStats {
    let your_kills = if local_is_defender { attackers_and_undead_killed } else { defenders_killed };
    let your_deaths = if local_is_defender { defenders_killed } else { attackers_and_undead_killed };
    MatchStats {
        your_kills,
        your_deaths,
        your_damage,
        your_healing,
        enemy_kills: your_deaths,
        enemy_deaths: your_kills,
        enemy_damage,
        enemy_healing,
    }
}

impl MatchStats {
    /// Assembles the scoreboard from the host-authoritative side kill counts
    /// plus both wizards' spell stats, mapping kills/deaths to the local
    /// player's side (the host commands the Defenders, the guest the Attackers).
    pub fn assemble(
        local_is_defender: bool,
        defenders_killed: u32,
        attackers_and_undead_killed: u32,
        your_damage: u32,
        your_healing: u32,
        enemy_damage: u32,
        enemy_healing: u32,
    ) -> (s: Self)
        ensures
            s == spec_assemble(
                local_is_defender,
                defenders_killed,
                attackers_and_undead_killed,
                your_damage,
                your_healing,
                enemy_damage,
                enemy_healing,
            ),
    {
        let (your_kills, your_deaths) = if local_is_defender {
            (attackers_and_undead_killed, defenders_killed)
        } else {
            (defenders_killed, attackers_and_undead_killed)
        };
        MatchStats {
            your_kills,
            your_deaths,
            your_damage,
            your_healing,
            enemy_kills: your_deaths,
            enemy_deaths: your_kills,
            enemy_damage,
            enemy_healing,
        }
    }
}

impl Default for MatchStats {
    fn default() -> (s: Self)
        ensures
            s == (MatchStats {
                your_kills: 0,
                your_deaths: 0,
                your_damage: 0,
                your_healing: 0,
                enemy_kills: 0,
                enemy_deaths: 0,
                enemy_damage: 0,
                enemy_healing: 0,
            }),
    {
        MatchStats {
            your_kills: 0,
            your_deaths: 0,
            your_damage: 0,
            your_healing: 0,
            enemy_kills: 0,
            enemy_deaths: 0,
            enemy_damage: 0,
            enemy_healing: 0,
        }
    }
}

/// A dead king decides the match: the Defender (host) king dying means the
/// guest wins; an Attacker or Undead king dying means the host wins.
pub open spec fn spec_king_death_result(team: Team) -> GameOverResult {
    match team {
        Team::Defenders => GameOverResult::GuestWins,
        _ => GameOverResult::HostWins,
    }
}

/// Host: the result decided by the teams of the kings that are corpses, in
/// query order; the first one decides, none means the match goes on.
pub fn check_mp_king_death(dead_king_teams: &Vec<Team>) -> (r: Option<GameOverResult>)
    ensures
        dead_king_teams@.len() == 0 ==> r.is_none(),
        dead_king_teams@.len() > 0 ==> r == Some(spec_king_death_result(dead_king_teams@[0])),
{
    if dead_king_teams.len() == 0 {
        None
    } else {
        match dead_king_teams[0] {
            Team::Defenders => Some(GameOverResult::GuestWins),
            _ => Some(GameOverResult::HostWins),
        }
    }
}

/// The host's outcome for a result (the host commands the Defenders).
pub open spec fn host_outcome(result: GameOverResult) -> GameOutcome {
    match result {
        GameOverResult::HostWins => GameOutcome::Victory,
        GameOverResult::GuestWins => GameOutcome::DefeatKingDied,
    }
}

/// The guest's outcome for a result (the guest commands the Attackers).
pub open spec fn guest_outcome(result: GameOverResult) -> GameOutcome {
    match result {
        GameOverResult::HostWins => GameOutcome::DefeatKingDied,
        GameOverResult::GuestWins => GameOutcome::Victory,
    }
}

/// What ending the match asks of the host.
#[derive(PartialEq, Eq, Structural, Clone, Copy, Debug)]
pub struct HostMatchEnd {
    pub outcome: GameOutcome,
    pub stats: MatchStats,
    pub result: GameOverResult,
    pub summary: HostMatchSummary,
    pub next_state: MultiplayerGameState,
}

pub open spec fn spec_host_summary(kills: KillStats, local: LocalWizardStats) -> HostMatchSummary {
    HostMatchSummary {
        defenders_killed: kills.defenders_killed,
        attackers_and_undead_killed: (kills.attackers_killed + kills.undead_killed) as u32,
        host_spell_damage: local.spell_damage,
        host_spell_healing: local.spell_healing,
    }
}

pub open spec fn spec_end_mp_match(
    result: GameOverResult,
    kills: KillStats,
    local: LocalWizardStats,
) -> HostMatchEnd {
    let summary = spec_host_summary(kills, local);
    HostMatchEnd {
        outcome: host_outcome(result),
        stats: spec_assemble(
            true,
            summary.defenders_killed,
            summary.attackers_and_undead_killed,
            local.spell_damage,
            local.spell_healing,
            0,
            0,
        ),
        result,
        summary,
        next_state: MultiplayerGameState::ScoreScreen,
    }
}

/// Host-authoritative match end (king death and forfeit): the host's outcome,
/// its scoreboard with its own side filled in (the guest's spell stats arrive
/// later), the `GameOver` payload for the guest, and the score screen.
pub fn end_mp_match(result: GameOverResult, kills: KillStats, local: LocalWizardStats) -> (r: HostMatchEnd)
    requires
        kills.attackers_killed + kills.undead_killed <= u32::MAX,
    ensures
        r == spec_end_mp_match(result, kills, local),
{
    let outcome = match result {
        GameOverResult::HostWins => GameOutcome::Victory,
        GameOverResult::GuestWins => GameOutcome::DefeatKingDied,
    };
    let defenders_killed = kills.defenders_killed;
    let attackers_and_undead_killed = kills.attackers_killed + kills.undead_killed;
    let summary = HostMatchSummary {
        defenders_killed,
        attackers_and_undead_killed,
        host_spell_damage: local.spell_damage,
        host_spell_healing: local.spell_healing,
    };
    let stats = MatchStats::assemble(
        true,
        defenders_killed,
        attackers_and_undead_killed,
        local.spell_damage,
        local.spell_healing,
        0,
        0,
    );
    HostMatchEnd { outcome, stats, result, summary, next_state: MultiplayerGameState::ScoreScreen }
}

/// What the host's `GameOver` asks of the guest.
#[derive(PartialEq, Eq, Structural, Clone, Copy, Debug)]
pub struct GuestMatchEnd {
    pub outcome: GameOutcome,
    pub stats: MatchStats,
    /// The guest's own spell stats, reported back so the host can fill in its
    /// enemy column.
    pub report: LocalWizardStats,
    pub next_state: MultiplayerGameState,
}

/// The guest's own stats, zero when the accumulator is missing.
pub open spec fn own_stats(local: Option<LocalWizardStats>) -> LocalWizardStats {
    match local {
        Some(s) => s,
        None => LocalWizardStats { spell_damage: 0, spell_healing: 0 },
    }
}

pub open spec fn spec_guest_match_end(
    result: GameOverResult,
    summary: HostMatchSummary,
    local: Option<LocalWizardStats>,
) -> GuestMatchEnd {
    let mine = own_stats(local);
    GuestMatchEnd {
        outcome: guest_outcome(result),
        stats: spec_assemble(
            false,
            summary.defenders_killed,
            summary.attackers_and_undead_killed,
            mine.spell_damage,
            mine.spell_healing,
            summary.host_spell_damage,
            summary.host_spell_healing,
        ),
        report: mine,
        next_state: MultiplayerGameState::ScoreScreen,
    }
}

/// Guest: maps the host's side-neutral summary into the guest's perspective
/// and fills in the guest's own spell stats.
pub fn guest_match_end(
    result: GameOverResult,
    summary: HostMatchSummary,
    local: Option<LocalWizardStats>,
) -> (r: GuestMatchEnd)
    ensures
        r == spec_guest_match_end(result, summary, local),
{
    let outcome = match result {
        GameOverResult::HostWins => GameOutcome::DefeatKingDied,
        GameOverResult::GuestWins => GameOutcome::Victory,
    };
    let mine = match local {
        Some(s) => s,
        None => LocalWizardStats { spell_damage: 0, spell_healing: 0 },
    };
    let stats = MatchStats::assemble(
        false,
        summary.defenders_killed,
        summary.attackers_and_undead_killed,
        mine.spell_damage,
        mine.spell_healing,
        summary.host_spell_damage,
        summary.host_spell_healing,
    );
    GuestMatchEnd { outcome, stats, report: mine, next_state: MultiplayerGameState::ScoreScreen }
}

/// Messages left queued by the game-over handler.
pub open spec fn not_game_over<M>() -> spec_fn(PeerMessage<M>) -> bool {
    |m: PeerMessage<M>| !(m is GameOver)
}

/// The match end decided by the last `GameOver` in `msgs`.
pub open spec fn last_game_over<M>(msgs: Seq<PeerMessage<M>>, local: Option<LocalWizardStats>) -> Option<
    GuestMatchEnd,
>
    decreases msgs.len(),
{
    if msgs.len() == 0 {
        None
    } else {
        match msgs.last() {
            PeerMessage::GameOver { result, summary } => Some(
                spec_guest_match_end(result, summary, local),
            ),
            _ => last_game_over(msgs.drop_last(), local),
        }
    }
}

/// One stats report per `GameOver` in `msgs`, in order.
pub open spec fn reports_for<M>(msgs: Seq<PeerMessage<M>>, local: Option<LocalWizardStats>) -> Seq<
    PeerMessage<M>,
>
    decreases msgs.len(),
{
    if msgs.len() == 0 {
        Seq::empty()
    } else {
        let earlier = reports_for(msgs.drop_last(), local);
        match msgs.last() {
            PeerMessage::GameOver { .. } => earlier.push(
                PeerMessage::WizardStatsReport {
                    spell_damage: own_stats(local).spell_damage,
                    spell_healing: own_stats(local).spell_healing,
                },
            ),
            _ => earlier,
        }
    }
}

/// Guest: handles every `GameOver` from the host (the last one decides),
/// answers each with a `WizardStatsReport`, and re-queues other messages.
pub fn handle_game_over_message<M>(
    incoming: &mut Vec<PeerMessage<M>>,
    outgoing: &mut Vec<PeerMessage<M>>,
    local: Option<LocalWizardStats>,
) -> (r: Option<GuestMatchEnd>)
    ensures
        final(incoming)@ == old(incoming)@.filter(not_game_over()),
        final(outgoing)@ == old(outgoing)@ + reports_for(old(incoming)@, local),
        r == last_game_over(old(incoming)@, local),
{
    let ghost orig = incoming@;
    let ghost out0 = outgoing@;
    let mut raw: Vec<PeerMessage<M>> = Vec::new();
    std::mem::swap(&mut raw, incoming);
    let mut unhandled: Vec<PeerMessage<M>> = Vec::new();
    let mut last: Option<GuestMatchEnd> = None;
    let ghost mut k: int = 0;
    assert(orig.skip(0) =~= orig);
    assert(orig.take(0) =~= Seq::<PeerMessage<M>>::empty());
    assert(out0 + Seq::<PeerMessage<M>>::empty() =~= out0);
    while raw.len() > 0
        invariant
            0 <= k <= orig.len(),
            raw@ == orig.skip(k),
            unhandled@ == orig.take(k).filter(not_game_over()),
            outgoing@ == out0 + reports_for(orig.take(k), local),
            last == last_game_over(orig.take(k), local),
        decreases raw.len(),
    {
        let msg = raw.remove(0);
        proof {
            assert(orig.skip(k)[0] == orig[k]);
            assert(orig.skip(k).remove(0) =~= orig.skip(k + 1));
            assert(orig.take(k + 1).drop_last() =~= orig.take(k));
            assert(orig.take(k + 1) =~= orig.take(k).push(orig[k]));
            orig.take(k).lemma_filter_push(orig[k], not_game_over());
        }
        match msg {
            PeerMessage::GameOver { result, summary } => {
                let end = guest_match_end(result, summary, local);
                outgoing.push(
                    PeerMessage::WizardStatsReport {
                        spell_damage: end.report.spell_damage,
                        spell_healing: end.report.spell_healing,
                    },
                );
                proof {
                    let rep = PeerMessage::<M>::WizardStatsReport {
                        spell_damage: own_stats(local).spell_damage,
                        spell_healing: own_stats(local).spell_healing,
                    };
                    assert(out0 + reports_for(orig.take(k + 1), local) =~= (out0 + reports_for(
                        orig.take(k),
                        local,
                    )).push(rep));
                }
                last = Some(end);
            },
            other => {
                unhandled.push(other);
            },
        }
        proof {
            k = k + 1;
        }
    }
    proof {
        assert(orig.take(k) =~= orig);
    }
    *incoming = unhandled;
    last
}

/// Messages left queued by the forfeit handler.
pub open spec fn not_forfeit<M>() -> spec_fn(PeerMessage<M>) -> bool {
    |m: PeerMessage<M>| !(m is Forfeit)
}

/// Host: the guest forfeited when any `Forfeit` is queued; the match then ends
/// with the host winning. Other messages are re-queued in order.
pub fn receive_mp_forfeit<M>(
    incoming: &mut Vec<PeerMessage<M>>,
    kills: KillStats,
    local: LocalWizardStats,
) -> (r: Option<HostMatchEnd>)
    requires
        kills.attackers_killed + kills.undead_killed <= u32::MAX,
    ensures
        final(incoming)@ == old(incoming)@.filter(not_forfeit()),
        (exists|i: int| 0 <= i < old(incoming)@.len() && old(incoming)@[i] is Forfeit) ==> r == Some(
            spec_end_mp_match(GameOverResult::HostWins, kills, local),
        ),
        !(exists|i: int| 0 <= i < old(incoming)@.len() && old(incoming)@[i] is Forfeit) ==> r.is_none(),
{
    let ghost orig = incoming@;
    let mut raw: Vec<PeerMessage<M>> = Vec::new();
    std::mem::swap(&mut raw, incoming);
    let mut unhandled: Vec<PeerMessage<M>> = Vec::new();
    let mut forfeited = false;
    let ghost mut k: int = 0;
    assert(orig.skip(0) =~= orig);
    assert(orig.take(0) =~= Seq::<PeerMessage<M>>::empty());
    while raw.len() > 0
        invariant
            0 <= k <= orig.len(),
            raw@ == orig.skip(k),
            unhandled@ == orig.take(k).filter(not_forfeit()),
            forfeited == (exists|i: int| 0 <= i < k && orig[i] is Forfeit),
        decreases raw.len(),
    {
        let msg = raw.remove(0);
        proof {
            assert(orig.skip(k)[0] == orig[k]);
            assert(orig.skip(k).remove(0) =~= orig.skip(k + 1));
            assert(orig.take(k + 1).drop_last() =~= orig.take(k));
            assert(orig.take(k + 1) =~= orig.take(k).push(orig[k]));
            orig.take(k).lemma_filter_push(orig[k], not_forfeit());
        }
        match msg {
            PeerMessage::Forfeit => {
                forfeited = true;
            },
            other => {
                unhandled.push(other);
            },
        }
        proof {
            k = k + 1;
        }
    }
    proof {
        assert(orig.take(k) =~= orig);
    }
    *incoming = unhandled;
    if forfeited {
        Some(end_mp_match(GameOverResult::HostWins, kills, local))
    } else {
        None
    }
}

/// The two scoreboards mirror each other: for the summary the host ships, the
/// guest's enemy column is the host's own column and the guest's kills and
/// deaths are the host's deaths and kills; the outcomes are opposite.
pub proof fn lemma_scoreboards_mirror(
    result: GameOverResult,
    kills: KillStats,
    host: LocalWizardStats,
    guest: LocalWizardStats,
)
    requires
        kills.attackers_killed + kills.undead_killed <= u32::MAX,
    ensures
        ({
            let h = spec_end_mp_match(result, kills, host);
            let g = spec_guest_match_end(result, h.summary, Some(guest));
            &&& g.stats.enemy_kills == h.stats.your_kills
            &&& g.stats.enemy_deaths == h.stats.your_deaths
            &&& g.stats.your_kills == h.stats.your_deaths
            &&& g.stats.your_deaths == h.stats.your_kills
            &&& g.stats.enemy_damage == h.stats.your_damage
            &&& g.stats.enemy_healing == h.stats.your_healing
            &&& g.stats.your_damage == guest.spell_damage
            &&& g.stats.your_healing == guest.spell_healing
            &&& g.report == guest
            &&& (h.outcome == GameOutcome::Victory <==> g.outcome == GameOutcome::DefeatKingDied)
            &&& (h.stats.your_kills + h.stats.your_deaths == kills.defenders_killed
                + kills.attackers_killed + kills.undead_killed)
        }),
{
}

/// In a one-on-one the enemy's kills and deaths are exactly your deaths and
/// kills, for every scoreboard assembled.
pub proof fn lemma_enemy_mirrors_you(
    local_is_defender: bool,
    defenders_killed: u32,
    attackers_and_undead_killed: u32,
    your_damage: u32,
    your_healing: u32,
    enemy_damage: u32,
    enemy_healing: u32,
)
    ensures
        ({
            let s = spec_assemble(
                local_is_defender,
                defenders_killed,
                attackers_and_undead_killed,
                your_damage,
                your_healing,
                enemy_damage,
                enemy_healing,
            );
            s.enemy_kills == s.your_deaths && s.enemy_deaths == s.your_kills
        }),
{
}

} // verus!
