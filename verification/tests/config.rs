use log_parser::config::config::{
    Config, ConfigParameter, ConfigValue, ErrorMessages, KillsRules, LogPatterns, OutputFormat,
    RegexPatterns,
};
use log_parser::config::dynamic_config;
use log_parser::config::static_config::{StaticConfig, StaticConfigParameter};

fn regex_patterns() -> RegexPatterns {
    RegexPatterns {
        init_game_event: String::from("init"),
        client_connect_event: String::from("connect"),
        client_info_change_event: String::from("info"),
        client_begin_event: String::from("begin"),
        client_disconnect_event: String::from("disconnect"),
        item_event: String::from("item"),
        kill_event: String::from("kill"),
        shutdown_event: String::from("shutdown"),
        exit_event: String::from("exit"),
        kill_event_line_parser: String::from("kill parser"),
        user_info_line_parser: String::from("info parser"),
    }
}

fn log_patterns() -> LogPatterns {
    LogPatterns {
        world: String::from("<world>"),
        total_kills_key: String::from("total_kills"),
        players_key: String::from("players"),
        kills_key: String::from("kills"),
        kill_by_means_key: String::from("kills_by_means"),
    }
}

fn error_messages() -> ErrorMessages {
    ErrorMessages {
        invalid_kill_mean_token: String::from("bad token"),
        log_file_path_not_found: String::from("no path"),
    }
}

fn config() -> Config {
    Config {
        regex_pattern_engine: regex_patterns(),
        log_patterns: log_patterns(),
        kills_rules: KillsRules {
            being_killed_decreases_score: true,
            kill_yourself_increases_score: false,
            show_death_causes: true,
        },
        output_format: OutputFormat { match_key: String::from("game") },
        error_messages: error_messages(),
    }
}

fn texts() -> Vec<(ConfigParameter, &'static str)> {
    vec![
        (ConfigParameter::InitGameEventRegex, "init"),
        (ConfigParameter::ClientConnectEventRegex, "connect"),
        (ConfigParameter::ClientInfoChangeEventRegex, "info"),
        (ConfigParameter::ClientBeginEventRegex, "begin"),
        (ConfigParameter::ClientDisconnectEventRegex, "disconnect"),
        (ConfigParameter::ItemEventRegex, "item"),
        (ConfigParameter::KillEventRegex, "kill"),
        (ConfigParameter::ShutdownEventRegex, "shutdown"),
        (ConfigParameter::ExitEventRegex, "exit"),
        (ConfigParameter::KillEventLineParserRegex, "kill parser"),
        (ConfigParameter::UserInfoLineParserRegex, "info parser"),
        (ConfigParameter::WorldLogPattern, "<world>"),
        (ConfigParameter::OutputMatchKey, "game"),
        (ConfigParameter::TotalKillsKey, "total_kills"),
        (ConfigParameter::PlayersKey, "players"),
        (ConfigParameter::KillsKey, "kills"),
        (ConfigParameter::KillByMeansKey, "kills_by_means"),
        (ConfigParameter::InvalidKillMeanTokenErrMsg, "bad token"),
        (ConfigParameter::LogFilePathNotFoundErrMsg, "no path"),
    ]
}

#[test]
fn a_text_value_reads_as_itself() {
    let value = ConfigValue::Str(String::from("abc"));
    assert_eq!(value.to_string(), "abc");
    assert!(value.to_boolean());
    assert_eq!(value.to_optional_string(), Some(String::from("abc")));
}

#[test]
fn an_empty_text_reads_as_off() {
    let value = ConfigValue::Str(String::new());
    assert_eq!(value.to_string(), "");
    assert!(!value.to_boolean());
    assert_eq!(value.to_optional_string(), Some(String::new()));
}

#[test]
fn a_switch_reads_as_true_or_false() {
    assert_eq!(ConfigValue::Bool(true).to_string(), "true");
    assert_eq!(ConfigValue::Bool(false).to_string(), "false");
    assert!(ConfigValue::Bool(true).to_boolean());
    assert!(!ConfigValue::Bool(false).to_boolean());
    assert_eq!(ConfigValue::Bool(false).to_optional_string(), Some(String::from("false")));
}

#[test]
fn an_absent_text_reads_as_empty_and_off() {
    let absent = ConfigValue::OptStr(None);
    assert_eq!(absent.to_string(), "");
    assert!(!absent.to_boolean());
    assert_eq!(absent.to_optional_string(), None);
    let present = ConfigValue::OptStr(Some(String::from("games.log")));
    assert_eq!(present.to_string(), "games.log");
    assert!(present.to_boolean());
    assert_eq!(present.to_optional_string(), Some(String::from("games.log")));
}

#[test]
fn every_text_setting_is_read_from_its_field() {
    let config = config();
    for (parameter, expected) in texts() {
        match config.get_parameter(parameter) {
            ConfigValue::Str(text) => assert_eq!(text, expected),
            other => panic!("not a text: {:?}", other),
        }
    }
}

#[test]
fn every_switch_is_read_from_its_field() {
    let config = config();
    assert!(matches!(
        config.get_parameter(ConfigParameter::BeingKilledDecreasesScore),
        ConfigValue::Bool(true)
    ));
    assert!(matches!(
        config.get_parameter(ConfigParameter::KillYourselfIncreasesScore),
        ConfigValue::Bool(false)
    ));
    assert!(matches!(
        config.get_parameter(ConfigParameter::ShowDeathCauses),
        ConfigValue::Bool(true)
    ));
}

#[test]
fn setting_a_text_changes_that_text_only() {
    for (changed, _) in texts() {
        let mut config = config();
        config.set_parameter(changed, ConfigValue::Str(String::from("new")));
        for (parameter, before) in texts() {
            let expected = if parameter == changed { "new" } else { before };
            assert_eq!(config.get_parameter(parameter).to_string(), expected);
        }
        assert!(config.kills_rules.being_killed_decreases_score);
        assert!(!config.kills_rules.kill_yourself_increases_score);
        assert!(config.kills_rules.show_death_causes);
    }
}

#[test]
fn setting_a_switch_changes_that_switch_only() {
    let mut config = config();
    config.set_parameter(ConfigParameter::KillYourselfIncreasesScore, ConfigValue::Bool(true));
    assert!(config.kills_rules.kill_yourself_increases_score);
    assert!(config.kills_rules.being_killed_decreases_score);
    assert!(config.kills_rules.show_death_causes);
    config.set_parameter(ConfigParameter::ShowDeathCauses, ConfigValue::Bool(false));
    assert!(!config.kills_rules.show_death_causes);
    config.set_parameter(ConfigParameter::BeingKilledDecreasesScore, ConfigValue::Str(String::new()));
    assert!(!config.kills_rules.being_killed_decreases_score);
    config.set_parameter(
        ConfigParameter::BeingKilledDecreasesScore,
        ConfigValue::Str(String::from("yes")),
    );
    assert!(config.kills_rules.being_killed_decreases_score);
    for (parameter, before) in texts() {
        assert_eq!(config.get_parameter(parameter).to_string(), before);
    }
}

#[test]
fn a_text_setting_takes_a_switch_as_text() {
    let mut config = config();
    config.set_parameter(ConfigParameter::WorldLogPattern, ConfigValue::Bool(true));
    assert_eq!(config.log_patterns.world, "true");
    config.set_parameter(ConfigParameter::OutputMatchKey, ConfigValue::OptStr(None));
    assert_eq!(config.output_format.match_key, "");
}

#[test]
fn the_default_dynamic_config_has_every_switch_off() {
    let config = dynamic_config::Config::default();
    assert!(!config.kills_rules.being_killed_decreases_score);
    assert!(!config.kills_rules.kill_yourself_increases_score);
    assert!(!config.kills_rules.show_death_causes);
    assert_eq!(config.log_file_path, None);
    assert!(matches!(
        config.get_parameter(dynamic_config::ConfigParameter::LogFilePath),
        ConfigValue::OptStr(None)
    ));
}

#[test]
fn the_dynamic_config_is_set_and_read_by_name() {
    let mut config = dynamic_config::Config::default();
    config.set_parameter(
        dynamic_config::ConfigParameter::LogFilePath,
        ConfigValue::Str(String::from("sample_log.log")),
    );
    assert_eq!(config.log_file_path, Some(String::from("sample_log.log")));
    assert_eq!(
        config.get_parameter(dynamic_config::ConfigParameter::LogFilePath).to_optional_string(),
        Some(String::from("sample_log.log"))
    );
    config.set_parameter(dynamic_config::ConfigParameter::ShowDeathCauses, ConfigValue::Bool(true));
    assert!(config.kills_rules.show_death_causes);
    assert!(!config.kills_rules.being_killed_decreases_score);
    assert!(!config.kills_rules.kill_yourself_increases_score);
    config.set_parameter(
        dynamic_config::ConfigParameter::BeingKilledDecreasesScore,
        ConfigValue::Bool(true),
    );
    config.set_parameter(
        dynamic_config::ConfigParameter::KillYourselfIncreasesScore,
        ConfigValue::Str(String::from("on")),
    );
    assert!(config.get_parameter(dynamic_config::ConfigParameter::BeingKilledDecreasesScore).to_boolean());
    assert!(config.get_parameter(dynamic_config::ConfigParameter::KillYourselfIncreasesScore).to_boolean());
    assert!(config.get_parameter(dynamic_config::ConfigParameter::ShowDeathCauses).to_boolean());
    config.set_parameter(dynamic_config::ConfigParameter::LogFilePath, ConfigValue::OptStr(None));
    assert_eq!(config.log_file_path, None);
    assert!(config.kills_rules.show_death_causes);
}

#[test]
fn the_static_config_is_read_by_name() {
    let config = StaticConfig {
        regex_pattern_engine: regex_patterns(),
        log_patterns: log_patterns(),
        output_format: OutputFormat { match_key: String::from("game") },
        error_messages: error_messages(),
    };
    let expected = vec![
        (StaticConfigParameter::InitGameEventRegex, "init"),
        (StaticConfigParameter::ClientConnectEventRegex, "connect"),
        (StaticConfigParameter::ClientInfoChangeEventRegex, "info"),
        (StaticConfigParameter::ClientBeginEventRegex, "begin"),
        (StaticConfigParameter::ClientDisconnectEventRegex, "disconnect"),
        (StaticConfigParameter::ItemEventRegex, "item"),
        (StaticConfigParameter::KillEventRegex, "kill"),
        (StaticConfigParameter::ShutdownEventRegex, "shutdown"),
        (StaticConfigParameter::ExitEventRegex, "exit"),
        (StaticConfigParameter::KillEventLineParserRegex, "kill parser"),
        (StaticConfigParameter::UserInfoLineParserRegex, "info parser"),
        (StaticConfigParameter::WorldLogPattern, "<world>"),
        (StaticConfigParameter::OutputMatchKey, "game"),
        (StaticConfigParameter::TotalKillsKey, "total_kills"),
        (StaticConfigParameter::PlayersKey, "players"),
        (StaticConfigParameter::KillsKey, "kills"),
        (StaticConfigParameter::KillByMeansKey, "kills_by_means"),
        (StaticConfigParameter::InvalidKillMeanTokenErrMsg, "bad token"),
        (StaticConfigParameter::LogFilePathNotFoundErrMsg, "no path"),
    ];
    for (parameter, text) in expected {
        match config.get_parameter(parameter) {
            ConfigValue::Str(found) => assert_eq!(found, text),
            other => panic!("not a text: {:?}", other),
        }
    }
}
