use log_parser::config::config::RegexPatterns;
use log_parser::errors::{LineFailure, LogParserError};
use log_parser::implementation::line_event::{KillLine, LineEvent};
use log_parser::implementation::log_event::{LogEvent, PatternSet, EVENT_COUNT};

fn regex_patterns() -> RegexPatterns {
    RegexPatterns {
        init_game_event: String::from("InitGame:"),
        client_connect_event: String::from("ClientConnect:"),
        client_info_change_event: String::from("ClientUserinfoChanged:"),
        client_begin_event: String::from("ClientBegin:"),
        client_disconnect_event: String::from("ClientDisconnect:"),
        item_event: String::from("Item:"),
        kill_event: String::from("Kill:"),
        shutdown_event: String::from("ShutdownGame:"),
        exit_event: String::from("Exit:"),
        kill_event_line_parser: String::from(r"Kill: (\d+) (\d+) \d+: (.+) killed (.+) by (\w+)"),
        user_info_line_parser: String::from(r"ClientUserinfoChanged: \d+ n\\([^\\]*)\\"),
    }
}

fn patterns() -> PatternSet {
    PatternSet::new(&regex_patterns()).unwrap()
}

fn priority() -> Vec<LogEvent> {
    vec![
        LogEvent::Item,
        LogEvent::Kill,
        LogEvent::ClientUserinfoChanged,
        LogEvent::ClientConnect,
        LogEvent::ClientBegin,
        LogEvent::ClientDisconnect,
        LogEvent::InitMatch,
        LogEvent::ShutdownGame,
        LogEvent::Exit,
    ]
}

fn groups(parts: Vec<Option<&str>>) -> Vec<Option<String>> {
    parts.into_iter().map(|part| part.map(String::from)).collect()
}

#[test]
fn kinds_are_tried_in_the_fixed_order() {
    assert_eq!(EVENT_COUNT, 9);
    for (rank, event) in priority().into_iter().enumerate() {
        assert_eq!(LogEvent::by_rank(rank), event);
        assert_eq!(event.rank_index(), rank);
    }
}

#[test]
fn each_kind_of_line_is_recognised() {
    let patterns = patterns();
    let lines = vec![
        ("  0:00 InitGame: \\sv_floodProtect\\1", LogEvent::InitMatch),
        (" 20:34 ClientConnect: 2", LogEvent::ClientConnect),
        (" 20:34 ClientUserinfoChanged: 2 n\\Isgalamido\\t\\0", LogEvent::ClientUserinfoChanged),
        (" 20:37 ClientBegin: 2", LogEvent::ClientBegin),
        (" 21:07 ClientDisconnect: 2", LogEvent::ClientDisconnect),
        (" 20:40 Item: 2 weapon_rocketlauncher", LogEvent::Item),
        (" 20:54 Kill: 1022 2 22: <world> killed Isgalamido by MOD_TRIGGER_HURT", LogEvent::Kill),
        (" 20:37 ShutdownGame:", LogEvent::ShutdownGame),
        (" 12:13 Exit: Timelimit hit.", LogEvent::Exit),
    ];
    for (line, event) in lines {
        assert_eq!(LogEvent::detect_line_log_event(&patterns, line), Ok(event));
    }
}

#[test]
fn a_line_that_no_pattern_matches_is_refused() {
    let patterns = patterns();
    assert_eq!(
        LogEvent::detect_line_log_event(&patterns, " 20:37 ------------------------------------------------------------"),
        Err(LogParserError::RegexParserError)
    );
    assert_eq!(
        LogEvent::detect_line_log_event(&patterns, ""),
        Err(LogParserError::RegexParserError)
    );
}

#[test]
fn the_kind_tried_first_wins() {
    let patterns = patterns();
    assert_eq!(
        LogEvent::detect_line_log_event(&patterns, "Kill: 2 3 7: Item: killed Exit: by MOD_ROCKET"),
        Ok(LogEvent::Item)
    );
    assert_eq!(
        LogEvent::detect_line_log_event(&patterns, "ClientUserinfoChanged: 2 n\\Kill:\\t\\0"),
        Ok(LogEvent::Kill)
    );
    assert_eq!(
        LogEvent::detect_line_log_event(&patterns, "ClientUserinfoChanged: 2 n\\InitGame:\\t\\0"),
        Ok(LogEvent::ClientUserinfoChanged)
    );
    assert_eq!(
        LogEvent::detect_line_log_event(&patterns, "Exit: InitGame: ShutdownGame:"),
        Ok(LogEvent::InitMatch)
    );
    assert_eq!(
        LogEvent::detect_line_log_event(&patterns, "Exit: ShutdownGame:"),
        Ok(LogEvent::ShutdownGame)
    );
}

#[test]
fn classifying_a_line_twice_gives_the_same_kind() {
    let patterns = patterns();
    let lines = vec![
        " 20:54 Kill: 1022 2 22: <world> killed Isgalamido by MOD_TRIGGER_HURT",
        " 20:40 Item: 2 weapon_rocketlauncher",
        "no such event",
    ];
    for line in lines {
        let first = LogEvent::detect_line_log_event(&patterns, line);
        let second = LogEvent::detect_line_log_event(&patterns, line);
        assert_eq!(first, second);
    }
}

#[test]
fn the_first_yes_among_the_answers_is_selected() {
    assert_eq!(LogEvent::select(&vec![false; 9]), Err(LogParserError::RegexParserError));
    assert_eq!(LogEvent::select(&vec![true; 9]), Ok(LogEvent::Item));
    for (rank, event) in priority().into_iter().enumerate() {
        let mut one = vec![false; 9];
        one[rank] = true;
        assert_eq!(LogEvent::select(&one), Ok(event));
        let mut from_here = vec![false; 9];
        for answer in from_here.iter_mut().skip(rank) {
            *answer = true;
        }
        assert_eq!(LogEvent::select(&from_here), Ok(event));
    }
}

#[test]
fn answers_beyond_the_kinds_are_not_looked_at() {
    assert_eq!(LogEvent::select(&Vec::new()), Err(LogParserError::RegexParserError));
    assert_eq!(LogEvent::select(&vec![false, true]), Ok(LogEvent::Kill));
    let mut long = vec![false; 12];
    long[9] = true;
    assert_eq!(LogEvent::select(&long), Err(LogParserError::RegexParserError));
}

#[test]
fn a_pattern_that_does_not_compile_gives_no_pattern_set() {
    let mut broken = regex_patterns();
    broken.kill_event = String::from("Kill(");
    assert!(matches!(PatternSet::new(&broken), Err(LogParserError::RegexParserError)));
    let mut broken = regex_patterns();
    broken.kill_event_line_parser = String::from("[");
    assert!(matches!(PatternSet::new(&broken), Err(LogParserError::RegexParserError)));
    let mut broken = regex_patterns();
    broken.user_info_line_parser = String::from("(?P<n");
    assert!(matches!(PatternSet::new(&broken), Err(LogParserError::RegexParserError)));
}

#[test]
fn each_detector_is_compiled_from_its_own_pattern() {
    let patterns = patterns();
    assert_eq!(patterns.detector_text(LogEvent::InitMatch), "InitGame:");
    assert_eq!(patterns.detector_text(LogEvent::ClientConnect), "ClientConnect:");
    assert_eq!(patterns.detector_text(LogEvent::ClientUserinfoChanged), "ClientUserinfoChanged:");
    assert_eq!(patterns.detector_text(LogEvent::ClientBegin), "ClientBegin:");
    assert_eq!(patterns.detector_text(LogEvent::ClientDisconnect), "ClientDisconnect:");
    assert_eq!(patterns.detector_text(LogEvent::Item), "Item:");
    assert_eq!(patterns.detector_text(LogEvent::Kill), "Kill:");
    assert_eq!(patterns.detector_text(LogEvent::ShutdownGame), "ShutdownGame:");
    assert_eq!(patterns.detector_text(LogEvent::Exit), "Exit:");
    assert_eq!(
        patterns.kill_parser().as_str(),
        r"Kill: (\d+) (\d+) \d+: (.+) killed (.+) by (\w+)"
    );
    assert_eq!(patterns.user_info_parser().as_str(), r"ClientUserinfoChanged: \d+ n\\([^\\]*)\\");
}

#[test]
fn the_engine_outcome_maps_to_the_library_error() {
    assert!(PatternSet::compiled(regex::Regex::new("a+")).is_ok());
    assert!(matches!(
        PatternSet::compiled(regex::Regex::new("a(")),
        Err(LogParserError::RegexParserError)
    ));
}

#[test]
fn kill_fields_are_the_third_fourth_and_fifth_group() {
    let found = groups(vec![
        Some("Kill: 2 3 7: Alice killed Bob by MOD_ROCKET"),
        Some("2"),
        Some("3"),
        Some("Alice"),
        Some("Bob"),
        Some("MOD_ROCKET"),
    ]);
    let kill = KillLine::from_groups(&found).unwrap();
    assert_eq!(kill.killer, "Alice");
    assert_eq!(kill.victim, "Bob");
    assert_eq!(kill.cause, "MOD_ROCKET");
}

#[test]
fn kill_fields_need_all_three_groups() {
    assert!(KillLine::from_groups(&Vec::new()).is_none());
    let short = groups(vec![Some("x"), Some("1"), Some("2"), Some("a"), Some("b")]);
    assert!(KillLine::from_groups(&short).is_none());
    for missing in 3..6 {
        let mut found = groups(vec![Some("x"), None, None, Some("a"), Some("b"), Some("c")]);
        assert!(KillLine::from_groups(&found).is_some());
        found[missing] = None;
        assert!(KillLine::from_groups(&found).is_none());
    }
}

#[test]
fn the_player_is_the_first_group() {
    let found = groups(vec![Some("ClientUserinfoChanged: 2 n\\Alice\\"), Some("Alice")]);
    assert_eq!(LineEvent::player_from_groups(&found), Some(String::from("Alice")));
    assert_eq!(LineEvent::player_from_groups(&groups(vec![Some("x")])), None);
    assert_eq!(LineEvent::player_from_groups(&groups(vec![Some("x"), None])), None);
    assert_eq!(LineEvent::player_from_groups(&Vec::new()), None);
}

#[test]
fn a_line_event_is_made_from_kind_and_groups() {
    assert!(matches!(
        LineEvent::from_parts(Err(LogParserError::RegexParserError), None),
        Err(LineFailure::Classification)
    ));
    assert!(matches!(LineEvent::from_parts(Ok(LogEvent::InitMatch), None), Ok(LineEvent::InitMatch)));
    assert!(matches!(
        LineEvent::from_parts(Ok(LogEvent::Item), None),
        Ok(LineEvent::Other(LogEvent::Item))
    ));
    assert!(matches!(
        LineEvent::from_parts(Ok(LogEvent::Exit), Some(groups(vec![Some("x"), Some("y")]))),
        Ok(LineEvent::Other(LogEvent::Exit))
    ));
    assert!(matches!(
        LineEvent::from_parts(Ok(LogEvent::Kill), None),
        Err(LineFailure::Capture)
    ));
    assert!(matches!(
        LineEvent::from_parts(Ok(LogEvent::Kill), Some(groups(vec![Some("x"), Some("y")]))),
        Err(LineFailure::Capture)
    ));
    assert!(matches!(
        LineEvent::from_parts(Ok(LogEvent::ClientUserinfoChanged), None),
        Err(LineFailure::Capture)
    ));
    match LineEvent::from_parts(
        Ok(LogEvent::ClientUserinfoChanged),
        Some(groups(vec![Some("x"), Some("Alice")])),
    ) {
        Ok(LineEvent::PlayerInfo(player)) => assert_eq!(player, "Alice"),
        other => panic!("not a player: {:?}", other),
    }
    match LineEvent::from_parts(
        Ok(LogEvent::Kill),
        Some(groups(vec![Some("x"), Some("1"), Some("2"), Some("a"), Some("b"), Some("c")])),
    ) {
        Ok(LineEvent::Kill(kill)) => {
            assert_eq!((kill.killer.as_str(), kill.victim.as_str(), kill.cause.as_str()), ("a", "b", "c"))
        },
        other => panic!("not a kill: {:?}", other),
    }
}

#[test]
fn a_kill_line_is_taken_apart() {
    let patterns = patterns();
    match LineEvent::decode_line(
        &patterns,
        " 20:54 Kill: 1022 2 22: <world> killed Isgalamido by MOD_TRIGGER_HURT",
    ) {
        Ok(LineEvent::Kill(kill)) => {
            assert_eq!(kill.killer, "<world>");
            assert_eq!(kill.victim, "Isgalamido");
            assert_eq!(kill.cause, "MOD_TRIGGER_HURT");
        },
        other => panic!("not a kill: {:?}", other),
    }
}

#[test]
fn names_with_spaces_are_kept_whole() {
    let patterns = patterns();
    match LineEvent::decode_line(
        &patterns,
        "  2:22 Kill: 3 2 10: Dono da Bola killed Assasinu Credi by MOD_RAILGUN",
    ) {
        Ok(LineEvent::Kill(kill)) => {
            assert_eq!(kill.killer, "Dono da Bola");
            assert_eq!(kill.victim, "Assasinu Credi");
            assert_eq!(kill.cause, "MOD_RAILGUN");
        },
        other => panic!("not a kill: {:?}", other),
    }
    match LineEvent::decode_line(
        &patterns,
        " 20:34 ClientUserinfoChanged: 2 n\\Dono da Bola\\t\\0\\model\\sarge",
    ) {
        Ok(LineEvent::PlayerInfo(player)) => assert_eq!(player, "Dono da Bola"),
        other => panic!("not a player: {:?}", other),
    }
}

#[test]
fn a_line_whose_fields_cannot_be_had_is_set_aside() {
    let patterns = patterns();
    assert!(matches!(
        LineEvent::decode_line(&patterns, " 20:54 Kill: somebody was killed"),
        Err(LineFailure::Capture)
    ));
    assert!(matches!(
        LineEvent::decode_line(&patterns, " 20:34 ClientUserinfoChanged: no name here"),
        Err(LineFailure::Capture)
    ));
    assert!(matches!(
        LineEvent::decode_line(&patterns, "what is this"),
        Err(LineFailure::Classification)
    ));
}

#[test]
fn other_lines_are_passed_over_with_their_kind() {
    let patterns = patterns();
    assert!(matches!(
        LineEvent::decode_line(&patterns, "  0:00 InitGame: \\sv_floodProtect\\1"),
        Ok(LineEvent::InitMatch)
    ));
    assert!(matches!(
        LineEvent::decode_line(&patterns, " 20:34 ClientConnect: 2"),
        Ok(LineEvent::Other(LogEvent::ClientConnect))
    ));
    assert!(matches!(
        LineEvent::decode_line(&patterns, " 20:37 ClientBegin: 2"),
        Ok(LineEvent::Other(LogEvent::ClientBegin))
    ));
    assert!(matches!(
        LineEvent::decode_line(&patterns, " 21:07 ClientDisconnect: 2"),
        Ok(LineEvent::Other(LogEvent::ClientDisconnect))
    ));
    assert!(matches!(
        LineEvent::decode_line(&patterns, " 20:40 Item: 2 weapon_rocketlauncher"),
        Ok(LineEvent::Other(LogEvent::Item))
    ));
    assert!(matches!(
        LineEvent::decode_line(&patterns, " 20:37 ShutdownGame:"),
        Ok(LineEvent::Other(LogEvent::ShutdownGame))
    ));
    assert!(matches!(
        LineEvent::decode_line(&patterns, " 12:13 Exit: Timelimit hit."),
        Ok(LineEvent::Other(LogEvent::Exit))
    ));
}

#[test]
fn each_kind_takes_its_pattern_from_its_own_setting() {
    let texts = regex_patterns();
    assert_eq!(PatternSet::detector_pattern(&texts, LogEvent::InitMatch), "InitGame:");
    assert_eq!(PatternSet::detector_pattern(&texts, LogEvent::ClientConnect), "ClientConnect:");
    assert_eq!(
        PatternSet::detector_pattern(&texts, LogEvent::ClientUserinfoChanged),
        "ClientUserinfoChanged:"
    );
    assert_eq!(PatternSet::detector_pattern(&texts, LogEvent::ClientBegin), "ClientBegin:");
    assert_eq!(PatternSet::detector_pattern(&texts, LogEvent::ClientDisconnect), "ClientDisconnect:");
    assert_eq!(PatternSet::detector_pattern(&texts, LogEvent::Item), "Item:");
    assert_eq!(PatternSet::detector_pattern(&texts, LogEvent::Kill), "Kill:");
    assert_eq!(PatternSet::detector_pattern(&texts, LogEvent::ShutdownGame), "ShutdownGame:");
    assert_eq!(PatternSet::detector_pattern(&texts, LogEvent::Exit), "Exit:");
}

#[test]
fn a_detector_answers_for_its_own_kind_only() {
    let patterns = patterns();
    assert!(patterns.detector(LogEvent::Kill).is_match("Kill: 1 2 3"));
    assert!(!patterns.detector(LogEvent::Kill).is_match("Item: 1 2 3"));
    assert!(patterns.detector(LogEvent::Exit).is_match(" 12:13 Exit: Timelimit hit."));
    assert!(!patterns.detector(LogEvent::InitMatch).is_match(" 12:13 Exit: Timelimit hit."));
}

#[test]
fn there_is_a_pattern_set_exactly_when_every_pattern_compiles() {
    assert!(PatternSet::new(&regex_patterns()).is_ok());
    let mut all_simple = regex_patterns();
    all_simple.kill_event_line_parser = String::from("Kill");
    all_simple.user_info_line_parser = String::new();
    assert!(PatternSet::new(&all_simple).is_ok());
    let mut broken = regex_patterns();
    broken.exit_event = String::from("Exit)");
    assert!(matches!(PatternSet::new(&broken), Err(LogParserError::RegexParserError)));
    let mut broken = regex_patterns();
    broken.init_game_event = String::from("*");
    assert!(matches!(PatternSet::new(&broken), Err(LogParserError::RegexParserError)));
}

#[test]
fn every_pattern_is_asked_and_the_first_yes_wins() {
    let patterns = patterns();
    let line = "Item: Kill: ClientUserinfoChanged: ClientConnect: ClientBegin: ClientDisconnect: InitGame: ShutdownGame: Exit:";
    assert_eq!(LogEvent::detect_line_log_event(&patterns, line), Ok(LogEvent::Item));
    let line = "ClientBegin: ClientDisconnect: InitGame: ShutdownGame: Exit:";
    assert_eq!(LogEvent::detect_line_log_event(&patterns, line), Ok(LogEvent::ClientBegin));
}
