use multiplayer::protocol::{GameOverResult, HostMatchSummary, PeerMessage};
use multiplayer::scoring::{
    check_mp_king_death, end_mp_match, guest_match_end, handle_game_over_message, receive_mp_forfeit, GameOutcome,
    KillStats, LocalWizardStats, MatchStats,
};
use multiplayer::session::{MultiplayerGameState, Team};

#[test]
fn king_death_decides_winner() {
    assert_eq!(check_mp_king_death(&vec![]), None);
    assert_eq!(check_mp_king_death(&vec![Team::Defenders]), Some(GameOverResult::GuestWins));
    assert_eq!(check_mp_king_death(&vec![Team::Attackers]), Some(GameOverResult::HostWins));
    // The first dead king decides.
    assert_eq!(check_mp_king_death(&vec![Team::Attackers, Team::Defenders]), Some(GameOverResult::HostWins));
}

#[test]
fn assemble_mirrors_sides() {
    let d = MatchStats::assemble(true, 5, 9, 100, 20, 30, 4);
    assert_eq!(d.your_kills, 9);
    assert_eq!(d.your_deaths, 5);
    assert_eq!(d.enemy_kills, 5);
    assert_eq!(d.enemy_deaths, 9);
    assert_eq!(d.your_damage, 100);
    assert_eq!(d.enemy_healing, 4);
    let a = MatchStats::assemble(false, 5, 9, 1, 2, 3, 4);
    assert_eq!(a.your_kills, 5);
    assert_eq!(a.your_deaths, 9);
    assert_eq!(MatchStats::default().your_kills, 0);
}

#[test]
fn host_and_guest_scoreboards_mirror() {
    let kills = KillStats { defenders_killed: 12, attackers_killed: 30, undead_killed: 4 };
    let host_stats = LocalWizardStats { spell_damage: 500, spell_healing: 50 };
    let host = end_mp_match(GameOverResult::HostWins, kills, host_stats);
    assert_eq!(host.outcome, GameOutcome::Victory);
    assert_eq!(host.result, GameOverResult::HostWins);
    assert_eq!(host.next_state, MultiplayerGameState::ScoreScreen);
    assert_eq!(
        host.summary,
        HostMatchSummary {
            defenders_killed: 12,
            attackers_and_undead_killed: 34,
            host_spell_damage: 500,
            host_spell_healing: 50
        }
    );
    assert_eq!(host.stats.your_kills, 34);
    assert_eq!(host.stats.your_deaths, 12);
    assert_eq!(host.stats.enemy_damage, 0);

    let guest_stats = LocalWizardStats { spell_damage: 70, spell_healing: 7 };
    let guest = guest_match_end(host.result, host.summary, Some(guest_stats));
    assert_eq!(guest.outcome, GameOutcome::DefeatKingDied);
    assert_eq!(guest.stats.your_kills, host.stats.enemy_kills);
    assert_eq!(guest.stats.your_deaths, host.stats.enemy_deaths);
    assert_eq!(guest.stats.enemy_damage, 500);
    assert_eq!(guest.stats.your_damage, 70);
    assert_eq!(guest.report, guest_stats);

    let missing = guest_match_end(GameOverResult::GuestWins, host.summary, None);
    assert_eq!(missing.outcome, GameOutcome::Victory);
    assert_eq!(missing.report, LocalWizardStats { spell_damage: 0, spell_healing: 0 });
}

#[test]
fn guest_answers_game_over_with_report() {
    let summary = HostMatchSummary {
        defenders_killed: 1,
        attackers_and_undead_killed: 2,
        host_spell_damage: 3,
        host_spell_healing: 4,
    };
    let mut incoming: Vec<PeerMessage<u8>> =
        vec![PeerMessage::Other(5), PeerMessage::GameOver { result: GameOverResult::GuestWins, summary }];
    let mut outgoing: Vec<PeerMessage<u8>> = Vec::new();
    let local = LocalWizardStats { spell_damage: 9, spell_healing: 8 };
    let end = handle_game_over_message(&mut incoming, &mut outgoing, Some(local)).unwrap();
    assert_eq!(end.outcome, GameOutcome::Victory);
    assert_eq!(incoming, vec![PeerMessage::Other(5)]);
    assert_eq!(outgoing, vec![PeerMessage::WizardStatsReport { spell_damage: 9, spell_healing: 8 }]);

    let mut none_in: Vec<PeerMessage<u8>> = vec![PeerMessage::Forfeit];
    let mut none_out: Vec<PeerMessage<u8>> = Vec::new();
    assert_eq!(handle_game_over_message(&mut none_in, &mut none_out, None), None);
    assert!(none_out.is_empty());
    assert_eq!(none_in, vec![PeerMessage::Forfeit]);
}

#[test]
fn forfeit_ends_match_with_host_winning() {
    let kills = KillStats { defenders_killed: 1, attackers_killed: 2, undead_killed: 3 };
    let local = LocalWizardStats { spell_damage: 0, spell_healing: 0 };
    let mut incoming: Vec<PeerMessage<u8>> = vec![PeerMessage::GameLoaded, PeerMessage::Forfeit];
    let end = receive_mp_forfeit(&mut incoming, kills, local).unwrap();
    assert_eq!(end.result, GameOverResult::HostWins);
    assert_eq!(end.outcome, GameOutcome::Victory);
    assert_eq!(incoming, vec![PeerMessage::GameLoaded]);

    let mut quiet: Vec<PeerMessage<u8>> = vec![PeerMessage::GameLoaded];
    assert_eq!(receive_mp_forfeit(&mut quiet, kills, local), None);
}
