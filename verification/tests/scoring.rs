use log_parser::config::config::KillsRules;
use log_parser::errors::LineFailure;
use log_parser::implementation::label::{decimal_string, match_label};
use log_parser::implementation::line_event::KillLine;
use log_parser::implementation::kill_scorer::ScoreBoard;
use log_parser::implementation::match_data::MatchData;

fn players_of(record: &MatchData) -> Vec<String> {
    let mut players = record.players().clone();
    players.sort();
    players
}

fn kills_of(record: &MatchData) -> Vec<(String, i64)> {
    let mut kills = record.kills();
    kills.sort();
    kills
}

fn rules(killed_decreases: bool, self_kill_increases: bool) -> KillsRules {
    KillsRules {
        being_killed_decreases_score: killed_decreases,
        kill_yourself_increases_score: self_kill_increases,
        show_death_causes: false,
    }
}

fn kill(killer: &str, victim: &str, cause: &str) -> KillLine {
    KillLine { killer: String::from(killer), victim: String::from(victim), cause: String::from(cause) }
}

fn all_policies() -> Vec<KillsRules> {
    vec![rules(false, false), rules(false, true), rules(true, false), rules(true, true)]
}

#[test]
fn a_new_record_is_empty() {
    let record = MatchData::new(false);
    assert_eq!(record.game_match().as_str(), "");
    assert_eq!(record.total_kills(), 0);
    assert!(record.players().is_empty());
    assert!(record.kills().is_empty());
    assert!(record.kill_means().is_none());
}

#[test]
fn a_new_record_with_causes_lists_every_cause_at_zero() {
    let record = MatchData::new(true);
    let stats = record.kill_means().as_ref().unwrap().stats();
    assert_eq!(stats.len(), 29);
    assert!(stats.iter().all(|entry| entry.1 == 0));
    assert_eq!(stats[0].0, "MOD_UNKNOWN");
    assert_eq!(stats[28].0, "MOD_GRAPPLE");
}

#[test]
fn a_kill_earns_the_killer_a_point() {
    let mut record = MatchData::new(false);
    let r = record.register_kill(&kill("Alice", "Bob", "MOD_ROCKET"), "<world>", &rules(false, false));
    assert_eq!(r, Ok(()));
    assert_eq!(record.total_kills(), 1);
    assert_eq!(kills_of(&record), vec![(String::from("Alice"), 1)]);
    assert_eq!(record.score("Alice"), Some(1));
    assert_eq!(record.score("Bob"), None);
    assert!(record.players().is_empty());
}

#[test]
fn being_killed_costs_a_point_where_the_policy_says_so() {
    let mut record = MatchData::new(false);
    let r = record.register_kill(&kill("Alice", "Bob", "MOD_ROCKET"), "<world>", &rules(true, false));
    assert_eq!(r, Ok(()));
    assert_eq!(record.total_kills(), 1);
    assert_eq!(kills_of(&record), vec![(String::from("Alice"), 1), (String::from("Bob"), -1)]);
}

#[test]
fn a_world_kill_costs_the_victim_one_point_under_every_policy() {
    for policy in all_policies() {
        let mut record = MatchData::new(false);
        record.register_kill(&kill("Bob", "Alice", "MOD_ROCKET"), "<world>", &rules(false, false)).unwrap();
        record.register_kill(&kill("Bob", "Alice", "MOD_ROCKET"), "<world>", &rules(false, false)).unwrap();
        assert_eq!(record.score("Bob"), Some(2));
        let r = record.register_kill(&kill("<world>", "Bob", "MOD_FALLING"), "<world>", &policy);
        assert_eq!(r, Ok(()));
        assert_eq!(record.total_kills(), 3);
        assert_eq!(record.score("Bob"), Some(1));
        assert_eq!(record.score("<world>"), None);
        assert_eq!(record.score("Alice"), None);
        assert_eq!(kills_of(&record), vec![(String::from("Bob"), 1)]);
    }
}

#[test]
fn a_world_kill_of_an_unseen_player_starts_at_minus_one() {
    let mut record = MatchData::new(false);
    record.register_kill(&kill("<world>", "Isgalamido", "MOD_TRIGGER_HURT"), "<world>", &rules(false, true)).unwrap();
    assert_eq!(record.total_kills(), 1);
    assert_eq!(kills_of(&record), vec![(String::from("Isgalamido"), -1)]);
}

#[test]
fn a_self_kill_without_reward_or_penalty_changes_no_score() {
    let mut record = MatchData::new(false);
    record.register_kill(&kill("Alice", "Bob", "MOD_ROCKET"), "<world>", &rules(false, false)).unwrap();
    let before = kills_of(&record);
    let r = record.register_kill(&kill("Alice", "Alice", "MOD_ROCKET_SPLASH"), "<world>", &rules(false, false));
    assert_eq!(r, Ok(()));
    assert_eq!(kills_of(&record), before);
    assert_eq!(record.total_kills(), 2);
    record.register_kill(&kill("Zed", "Zed", "MOD_SUICIDE"), "<world>", &rules(false, false)).unwrap();
    assert_eq!(kills_of(&record), before);
    assert_eq!(record.score("Zed"), None);
    assert_eq!(record.total_kills(), 3);
}

#[test]
fn a_self_kill_is_rewarded_where_the_policy_says_so() {
    let mut record = MatchData::new(false);
    record.register_kill(&kill("Alice", "Alice", "MOD_SUICIDE"), "<world>", &rules(false, true)).unwrap();
    assert_eq!(kills_of(&record), vec![(String::from("Alice"), 1)]);
}

#[test]
fn a_self_kill_is_punished_where_the_policy_says_so() {
    let mut record = MatchData::new(false);
    record.register_kill(&kill("Alice", "Alice", "MOD_SUICIDE"), "<world>", &rules(true, false)).unwrap();
    assert_eq!(kills_of(&record), vec![(String::from("Alice"), -1)]);
}

#[test]
fn a_self_kill_rewarded_and_punished_leaves_the_score_but_makes_an_entry() {
    let mut record = MatchData::new(false);
    record.register_kill(&kill("Alice", "Alice", "MOD_SUICIDE"), "<world>", &rules(true, true)).unwrap();
    assert_eq!(kills_of(&record), vec![(String::from("Alice"), 0)]);
    assert_eq!(record.total_kills(), 1);
}

#[test]
fn one_who_bears_the_name_of_the_world_is_scored_as_its_victim() {
    let mut record = MatchData::new(false);
    record.register_kill(&kill("<world>", "<world>", "MOD_FALLING"), "<world>", &rules(false, false)).unwrap();
    assert_eq!(kills_of(&record), vec![(String::from("<world>"), -1)]);
}

#[test]
fn scores_add_up_over_several_kills() {
    let mut record = MatchData::new(false);
    let policy = rules(true, false);
    record.register_kill(&kill("Alice", "Bob", "MOD_ROCKET"), "<world>", &policy).unwrap();
    record.register_kill(&kill("Alice", "Bob", "MOD_RAILGUN"), "<world>", &policy).unwrap();
    record.register_kill(&kill("Bob", "Alice", "MOD_SHOTGUN"), "<world>", &policy).unwrap();
    record.register_kill(&kill("<world>", "Alice", "MOD_LAVA"), "<world>", &policy).unwrap();
    assert_eq!(record.total_kills(), 4);
    assert_eq!(record.score("Alice"), Some(0));
    assert_eq!(record.score("Bob"), Some(-1));
    assert_eq!(kills_of(&record), vec![(String::from("Alice"), 0), (String::from("Bob"), -1)]);
}

#[test]
fn naming_a_player_twice_lists_the_player_once() {
    let mut record = MatchData::new(false);
    record.add_player("Alice");
    record.add_player("Bob");
    record.add_player("Alice");
    assert_eq!(players_of(&record), vec![String::from("Alice"), String::from("Bob")]);
    assert!(record.has_player("Alice"));
    assert!(record.has_player("Bob"));
    assert!(!record.has_player("alice"));
    assert!(record.kills().is_empty());
    assert_eq!(record.total_kills(), 0);
}

#[test]
fn players_and_scorers_are_kept_apart() {
    let mut record = MatchData::new(false);
    record.add_player("Carol");
    record.register_kill(&kill("Alice", "Bob", "MOD_ROCKET"), "<world>", &rules(true, false)).unwrap();
    assert_eq!(players_of(&record), vec![String::from("Carol")]);
    assert_eq!(record.score("Carol"), None);
    assert!(!record.has_player("Alice"));
}

#[test]
fn a_known_cause_is_counted() {
    let mut record = MatchData::new(true);
    let r = record.register_kill(&kill("Alice", "Bob", "MOD_ROCKET"), "<world>", &rules(false, false));
    assert_eq!(r, Ok(()));
    let tally = record.kill_means().as_ref().unwrap();
    let stats = tally.stats();
    assert_eq!(stats[6], (String::from("MOD_ROCKET"), 1));
    let total: u64 = stats.iter().map(|entry| entry.1).sum();
    assert_eq!(total, 1);
    assert_eq!(record.total_kills(), 1);
}

#[test]
fn an_unknown_cause_is_reported_after_the_kill_was_counted_and_scored() {
    let mut record = MatchData::new(true);
    let r = record.register_kill(&kill("Alice", "Bob", "MOD_BANANA"), "<world>", &rules(true, false));
    assert_eq!(r, Err(LineFailure::UnknownCause));
    assert_eq!(record.total_kills(), 1);
    assert_eq!(kills_of(&record), vec![(String::from("Alice"), 1), (String::from("Bob"), -1)]);
    let stats = record.kill_means().as_ref().unwrap().stats();
    assert!(stats.iter().all(|entry| entry.1 == 0));
}

#[test]
fn an_unknown_cause_is_no_failure_where_causes_are_not_tracked() {
    let mut record = MatchData::new(false);
    let r = record.register_kill(&kill("Alice", "Bob", "MOD_BANANA"), "<world>", &rules(false, false));
    assert_eq!(r, Ok(()));
    assert_eq!(record.total_kills(), 1);
    assert!(record.kill_means().is_none());
}

#[test]
fn the_tally_holds_as_many_kills_as_had_a_known_cause() {
    let mut record = MatchData::new(true);
    let policy = rules(false, false);
    let causes = vec!["MOD_ROCKET", "MOD_NOPE", "MOD_ROCKET", "MOD_FALLING", "", "MOD_SHOTGUN"];
    let mut known = 0;
    for cause in causes {
        if record.register_kill(&kill("Alice", "Bob", cause), "<world>", &policy).is_ok() {
            known += 1;
        }
        let total: u64 = record.kill_means().as_ref().unwrap().stats().iter().map(|entry| entry.1).sum();
        assert_eq!(total, known);
        assert!(total <= record.total_kills());
    }
    assert_eq!(known, 4);
    assert_eq!(record.total_kills(), 6);
}

#[test]
fn the_tally_equals_the_kills_when_every_cause_is_known() {
    let mut record = MatchData::new(true);
    let policy = rules(true, true);
    for cause in vec!["MOD_ROCKET", "MOD_RAILGUN", "MOD_TELEFRAG"] {
        record.register_kill(&kill("Alice", "Bob", cause), "<world>", &policy).unwrap();
    }
    let total: u64 = record.kill_means().as_ref().unwrap().stats().iter().map(|entry| entry.1).sum();
    assert_eq!(total, record.total_kills());
    assert_eq!(total, 3);
}

#[test]
fn a_label_is_set_on_the_record() {
    let mut record = MatchData::new(false);
    record.add_player("Alice");
    record.set_label(String::from("game_3"));
    assert_eq!(record.game_match().as_str(), "game_3");
    assert_eq!(players_of(&record), vec![String::from("Alice")]);
}

#[test]
fn numbers_are_written_in_decimal() {
    assert_eq!(decimal_string(0), "0");
    assert_eq!(decimal_string(7), "7");
    assert_eq!(decimal_string(9), "9");
    assert_eq!(decimal_string(10), "10");
    assert_eq!(decimal_string(21), "21");
    assert_eq!(decimal_string(100), "100");
    assert_eq!(decimal_string(1234567890), "1234567890");
    assert_eq!(decimal_string(usize::MAX), format!("{}", usize::MAX));
}

#[test]
fn a_label_is_key_underscore_index() {
    assert_eq!(match_label("game", 0), "game_0");
    assert_eq!(match_label("game", 1), "game_1");
    assert_eq!(match_label("game", 20), "game_20");
    assert_eq!(match_label("", 3), "_3");
    assert_eq!(match_label("match_key", 105), "match_key_105");
}

#[test]
fn a_new_board_has_no_entries() {
    let board = ScoreBoard::new();
    assert!(board.entries().is_empty());
    assert_eq!(board.score("Alice"), None);
}

#[test]
fn the_board_is_scored_kill_by_kill() {
    let mut board = ScoreBoard::new();
    board.score_kill("Alice", "Bob", "<world>", &rules(true, false));
    board.score_kill("<world>", "Alice", "<world>", &rules(false, false));
    board.score_kill("Bob", "Bob", "<world>", &rules(false, true));
    board.score_kill("Carol", "Carol", "<world>", &rules(false, false));
    let mut entries = board.entries();
    entries.sort();
    assert_eq!(entries, vec![(String::from("Alice"), 0), (String::from("Bob"), 0)]);
    assert_eq!(board.score("Alice"), Some(0));
    assert_eq!(board.score("Bob"), Some(0));
    assert_eq!(board.score("Carol"), None);
    assert_eq!(board.score("<world>"), None);
}

#[test]
fn an_entry_is_given_to_a_player_without_one() {
    let mut board = ScoreBoard::new();
    assert!(board.add_entry("Alice", 3));
    assert!(board.add_entry("Bob", -2));
    assert!(!board.add_entry("Alice", 7));
    let mut entries = board.entries();
    entries.sort();
    assert_eq!(entries, vec![(String::from("Alice"), 3), (String::from("Bob"), -2)]);
}

#[test]
fn names_are_told_apart_letter_for_letter() {
    let mut record = MatchData::new(false);
    record.add_player("José");
    record.add_player("Jose");
    record.add_player("José");
    record.add_player("Jos");
    record.add_player("");
    assert_eq!(
        players_of(&record),
        vec![String::new(), String::from("Jos"), String::from("Jose"), String::from("José")]
    );
    record.register_kill(&kill("José", "Jose", "MOD_ROCKET"), "Jos", &rules(true, false)).unwrap();
    record.register_kill(&kill("Jos", "José", "MOD_FALLING"), "Jos", &rules(true, false)).unwrap();
    assert_eq!(kills_of(&record), vec![(String::from("Jose"), -1), (String::from("José"), 0)]);
}
