use vstd::prelude::*;

verus! {

/// The settings that a configuration holds, by name.
#[derive(Debug, Clone, Copy, PartialEq, Eq, Structural)]
pub enum ConfigParameter {
    InitGameEventRegex,
    ClientConnectEventRegex,
    ClientInfoChangeEventRegex,
    ClientBeginEventRegex,
    ClientDisconnectEventRegex,
    ItemEventRegex,
    KillEventRegex,
    ShutdownEventRegex,
    ExitEventRegex,
    KillEventLineParserRegex,
    UserInfoLineParserRegex,
    WorldLogPattern,
    BeingKilledDecreasesScore,
    KillYourselfIncreasesScore,
    OutputMatchKey,
    TotalKillsKey,
    PlayersKey,
    KillsKey,
    KillByMeansKey,
    ShowDeathCauses,
    InvalidKillMeanTokenErrMsg,
    LogFilePathNotFoundErrMsg,
}

impl ConfigParameter {
    /// Whether the setting is a switch. The others are texts.
    pub open spec fn is_flag(self) -> bool {
        self == ConfigParameter::BeingKilledDecreasesScore
            || self == ConfigParameter::KillYourselfIncreasesScore
            || self == ConfigParameter::ShowDeathCauses
    }
}

/// The value of a setting: a text, a switch, or a text that may be absent.
#[derive(Debug, Clone)]
pub enum ConfigValue {
    Str(String),
    Bool(bool),
    OptStr(Option<String>),
}

impl ConfigValue {
    /// The value read as a text: a text as it stands, a switch as `true` or
    /// `false`, an absent text as the empty text.
    pub open spec fn text(self) -> Seq<char> {
        match self {
            ConfigValue::Str(value) => value@,
            ConfigValue::Bool(value) => if value {
                "true"@
            } else {
                "false"@
            },
            ConfigValue::OptStr(Some(value)) => value@,
            ConfigValue::OptStr(None) => Seq::empty(),
        }
    }

    /// The value read as a switch: a switch as it stands, a text as on
    /// exactly when it is not empty.
    pub open spec fn truth(self) -> bool {
        match self {
            ConfigValue::Bool(value) => value,
            _ => self.text().len() != 0,
        }
    }

    /// The value read as a text that may be absent. Only an absent text is
    /// absent.
    pub open spec fn optional_text(self) -> Option<Seq<char>> {
        match self {
            ConfigValue::OptStr(None) => None,
            _ => Some(self.text()),
        }
    }

    pub fn to_string(&self) -> (text: String)
        ensures
            text@ == self.text(),
    {
        match self {
            ConfigValue::Str(value) => value.clone(),
            ConfigValue::Bool(value) => if *value {
                "true".to_string()
            } else {
                "false".to_string()
            },
            ConfigValue::OptStr(Some(value)) => value.clone(),
            ConfigValue::OptStr(None) => String::new(),
        }
    }

    pub fn to_boolean(&self) -> (truth: bool)
        ensures
            truth == self.truth(),
    {
        match self {
            ConfigValue::Str(value) => !value.as_str().is_empty(),
            ConfigValue::Bool(value) => *value,
            ConfigValue::OptStr(Some(value)) => !value.as_str().is_empty(),
            ConfigValue::OptStr(None) => false,
        }
    }

    pub fn to_optional_string(&self) -> (text: Option<String>)
        ensures
            match text {
                Some(present) => self.optional_text() == Some(present@),
                None => self.optional_text() is None,
            },
    {
        match self {
            ConfigValue::OptStr(None) => None,
            _ => Some(self.to_string()),
        }
    }
}

/// The texts that stand in the log and in the output.
#[derive(Debug, Clone)]
pub struct LogPatterns {
    pub world: String,
    pub total_kills_key: String,
    pub players_key: String,
    pub kills_key: String,
    pub kill_by_means_key: String,
}

/// The patterns by which lines are recognised and taken apart.
#[derive(Debug, Clone)]
pub struct RegexPatterns {
    pub init_game_event: String,
    pub client_connect_event: String,
    pub client_info_change_event: String,
    pub client_begin_event: String,
    pub client_disconnect_event: String,
    pub item_event: String,
    pub kill_event: String,
    pub shutdown_event: String,
    pub exit_event: String,
    pub kill_event_line_parser: String,
    pub user_info_line_parser: String,
}

/// The switches of the scoring policy.
#[derive(Debug, Clone, Copy, PartialEq, Eq, Structural)]
pub struct KillsRules {
    pub being_killed_decreases_score: bool,
    pub kill_yourself_increases_score: bool,
    pub show_death_causes: bool,
}

#[derive(Debug, Clone)]
pub struct OutputFormat {
    pub match_key: String,
}

#[derive(Debug, Clone)]
pub struct ErrorMessages {
    pub invalid_kill_mean_token: String,
    pub log_file_path_not_found: String,
}

/// The whole configuration of a run.
#[derive(Debug, Clone)]
pub struct Config {
    pub regex_pattern_engine: RegexPatterns,
    pub log_patterns: LogPatterns,
    pub kills_rules: KillsRules,
    pub output_format: OutputFormat,
    pub error_messages: ErrorMessages,
}

impl Config {
    /// The value that the configuration holds for a setting.
    pub open spec fn parameter(self, config: ConfigParameter) -> ConfigValue {
        match config {
            ConfigParameter::InitGameEventRegex => ConfigValue::Str(self.regex_pattern_engine.init_game_event),
            ConfigParameter::ClientConnectEventRegex => ConfigValue::Str(self.regex_pattern_engine.client_connect_event),
            ConfigParameter::ClientInfoChangeEventRegex => ConfigValue::Str(self.regex_pattern_engine.client_info_change_event),
            ConfigParameter::ClientBeginEventRegex => ConfigValue::Str(self.regex_pattern_engine.client_begin_event),
            ConfigParameter::ClientDisconnectEventRegex => ConfigValue::Str(self.regex_pattern_engine.client_disconnect_event),
            ConfigParameter::ItemEventRegex => ConfigValue::Str(self.regex_pattern_engine.item_event),
            ConfigParameter::KillEventRegex => ConfigValue::Str(self.regex_pattern_engine.kill_event),
            ConfigParameter::ShutdownEventRegex => ConfigValue::Str(self.regex_pattern_engine.shutdown_event),
            ConfigParameter::ExitEventRegex => ConfigValue::Str(self.regex_pattern_engine.exit_event),
            ConfigParameter::KillEventLineParserRegex => ConfigValue::Str(self.regex_pattern_engine.kill_event_line_parser),
            ConfigParameter::UserInfoLineParserRegex => ConfigValue::Str(self.regex_pattern_engine.user_info_line_parser),
            ConfigParameter::WorldLogPattern => ConfigValue::Str(self.log_patterns.world),
            ConfigParameter::BeingKilledDecreasesScore => ConfigValue::Bool(self.kills_rules.being_killed_decreases_score),
            ConfigParameter::KillYourselfIncreasesScore => ConfigValue::Bool(self.kills_rules.kill_yourself_increases_score),
            ConfigParameter::OutputMatchKey => ConfigValue::Str(self.output_format.match_key),
            ConfigParameter::TotalKillsKey => ConfigValue::Str(self.log_patterns.total_kills_key),
            ConfigParameter::PlayersKey => ConfigValue::Str(self.log_patterns.players_key),
            ConfigParameter::KillsKey => ConfigValue::Str(self.log_patterns.kills_key),
            ConfigParameter::KillByMeansKey => ConfigValue::Str(self.log_patterns.kill_by_means_key),
            ConfigParameter::ShowDeathCauses => ConfigValue::Bool(self.kills_rules.show_death_causes),
            ConfigParameter::InvalidKillMeanTokenErrMsg => ConfigValue::Str(self.error_messages.invalid_kill_mean_token),
            ConfigParameter::LogFilePathNotFoundErrMsg => ConfigValue::Str(self.error_messages.log_file_path_not_found),
        }
    }

    pub fn get_parameter(&self, config: ConfigParameter) -> (value: ConfigValue)
        ensures
            value == self.parameter(config),
    {
        match config {
            ConfigParameter::InitGameEventRegex => ConfigValue::Str(self.regex_pattern_engine.init_game_event.clone()),
            ConfigParameter::ClientConnectEventRegex => ConfigValue::Str(self.regex_pattern_engine.client_connect_event.clone()),
            ConfigParameter::ClientInfoChangeEventRegex => ConfigValue::Str(self.regex_pattern_engine.client_info_change_event.clone()),
            ConfigParameter::ClientBeginEventRegex => ConfigValue::Str(self.regex_pattern_engine.client_begin_event.clone()),
            ConfigParameter::ClientDisconnectEventRegex => ConfigValue::Str(self.regex_pattern_engine.client_disconnect_event.clone()),
            ConfigParameter::ItemEventRegex => ConfigValue::Str(self.regex_pattern_engine.item_event.clone()),
            ConfigParameter::KillEventRegex => ConfigValue::Str(self.regex_pattern_engine.kill_event.clone()),
            ConfigParameter::ShutdownEventRegex => ConfigValue::Str(self.regex_pattern_engine.shutdown_event.clone()),
            ConfigParameter::ExitEventRegex => ConfigValue::Str(self.regex_pattern_engine.exit_event.clone()),
            ConfigParameter::KillEventLineParserRegex => ConfigValue::Str(self.regex_pattern_engine.kill_event_line_parser.clone()),
            ConfigParameter::UserInfoLineParserRegex => ConfigValue::Str(self.regex_pattern_engine.user_info_line_parser.clone()),
            ConfigParameter::WorldLogPattern => ConfigValue::Str(self.log_patterns.world.clone()),
            ConfigParameter::BeingKilledDecreasesScore => ConfigValue::Bool(self.kills_rules.being_killed_decreases_score),
            ConfigParameter::KillYourselfIncreasesScore => ConfigValue::Bool(self.kills_rules.kill_yourself_increases_score),
            ConfigParameter::OutputMatchKey => ConfigValue::Str(self.output_format.match_key.clone()),
            ConfigParameter::TotalKillsKey => ConfigValue::Str(self.log_patterns.total_kills_key.clone()),
            ConfigParameter::PlayersKey => ConfigValue::Str(self.log_patterns.players_key.clone()),
            ConfigParameter::KillsKey => ConfigValue::Str(self.log_patterns.kills_key.clone()),
            ConfigParameter::KillByMeansKey => ConfigValue::Str(self.log_patterns.kill_by_means_key.clone()),
            ConfigParameter::ShowDeathCauses => ConfigValue::Bool(self.kills_rules.show_death_causes),
            ConfigParameter::InvalidKillMeanTokenErrMsg => ConfigValue::Str(self.error_messages.invalid_kill_mean_token.clone()),
            ConfigParameter::LogFilePathNotFoundErrMsg => ConfigValue::Str(self.error_messages.log_file_path_not_found.clone()),
        }
    }

    /// Gives one setting a new value and leaves the others as they are. A
    /// switch takes the value read as a switch, a text the value read as a
    /// text.
    pub fn set_parameter(&mut self, config: ConfigParameter, value: ConfigValue)
        ensures
            config.is_flag() ==> final(self).parameter(config) == ConfigValue::Bool(value.truth()),
            !config.is_flag() ==> (final(self).parameter(config) matches ConfigValue::Str(text)
                && text@ == value.text()),
            forall|other: ConfigParameter|
                other != config ==> #[trigger] final(self).parameter(other) == old(self).parameter(
                    other,
                ),
    {
        match config {
            ConfigParameter::InitGameEventRegex => {
                self.regex_pattern_engine.init_game_event = value.to_string();
            },
            ConfigParameter::ClientConnectEventRegex => {
                self.regex_pattern_engine.client_connect_event = value.to_string();
            },
            ConfigParameter::ClientInfoChangeEventRegex => {
                self.regex_pattern_engine.client_info_change_event = value.to_string();
            },
            ConfigParameter::ClientBeginEventRegex => {
                self.regex_pattern_engine.client_begin_event = value.to_string();
            },
            ConfigParameter::ClientDisconnectEventRegex => {
                self.regex_pattern_engine.client_disconnect_event = value.to_string();
            },
            ConfigParameter::ItemEventRegex => {
                self.regex_pattern_engine.item_event = value.to_string();
            },
            ConfigParameter::KillEventRegex => {
                self.regex_pattern_engine.kill_event = value.to_string();
            },
            ConfigParameter::ShutdownEventRegex => {
                self.regex_pattern_engine.shutdown_event = value.to_string();
            },
            ConfigParameter::ExitEventRegex => {
                self.regex_pattern_engine.exit_event = value.to_string();
            },
            ConfigParameter::KillEventLineParserRegex => {
                self.regex_pattern_engine.kill_event_line_parser = value.to_string();
            },
            ConfigParameter::UserInfoLineParserRegex => {
                self.regex_pattern_engine.user_info_line_parser = value.to_string();
            },
            ConfigParameter::WorldLogPattern => {
                self.log_patterns.world = value.to_string();
            },
            ConfigParameter::BeingKilledDecreasesScore => {
                self.kills_rules.being_killed_decreases_score = value.to_boolean();
            },
            ConfigParameter::KillYourselfIncreasesScore => {
                self.kills_rules.kill_yourself_increases_score = value.to_boolean();
            },
            ConfigParameter::OutputMatchKey => {
                self.output_format.match_key = value.to_string();
            },
            ConfigParameter::TotalKillsKey => {
                self.log_patterns.total_kills_key = value.to_string();
            },
            ConfigParameter::PlayersKey => {
                self.log_patterns.players_key = value.to_string();
            },
            ConfigParameter::KillsKey => {
                self.log_patterns.kills_key = value.to_string();
            },
            ConfigParameter::KillByMeansKey => {
                self.log_patterns.kill_by_means_key = value.to_string();
            },
            ConfigParameter::ShowDeathCauses => {
                self.kills_rules.show_death_causes = value.to_boolean();
            },
            ConfigParameter::InvalidKillMeanTokenErrMsg => {
                self.error_messages.invalid_kill_mean_token = value.to_string();
            },
            ConfigParameter::LogFilePathNotFoundErrMsg => {
                self.error_messages.log_file_path_not_found = value.to_string();
            },
        }
    }
}

} // verus!
