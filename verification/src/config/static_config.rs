use crate::config::config::{ConfigValue, ErrorMessages, LogPatterns, OutputFormat, RegexPatterns};
use vstd::prelude::*;

verus! {

/// The settings that stay the same for every run, by name.
#[derive(Debug, Clone, Copy, PartialEq, Eq, Structural)]
pub enum StaticConfigParameter {
    InitGameEventRegex,
    ClientConnectEventRegex,
    ClientInfoChangeEventRegex,
    ClientBeginEventRegex,
    ClientDisconnectEventRegex,
    ItemEventRegex,
    KillEventRegex,
    ShutdownEventRegex,
    ExitEventRegex,
    KillEventLineParserRegex,
    UserInfoLineParserRegex,
    WorldLogPattern,
    OutputMatchKey,
    TotalKillsKey,
    PlayersKey,
    KillsKey,
    KillByMeansKey,
    InvalidKillMeanTokenErrMsg,
    LogFilePathNotFoundErrMsg,
}

/// The part of the configuration that stays the same for every run: the
/// patterns and the texts of the log and of the output.
#[derive(Debug, Clone)]
pub struct StaticConfig {
    pub regex_pattern_engine: RegexPatterns,
    pub log_patterns: LogPatterns,
    pub output_format: OutputFormat,
    pub error_messages: ErrorMessages,
}

impl StaticConfig {
    /// The text that the configuration holds for a setting.
    pub open spec fn parameter(self, config: StaticConfigParameter) -> ConfigValue {
        match config {
            StaticConfigParameter::InitGameEventRegex => ConfigValue::Str(self.regex_pattern_engine.init_game_event),
            StaticConfigParameter::ClientConnectEventRegex => ConfigValue::Str(self.regex_pattern_engine.client_connect_event),
            StaticConfigParameter::ClientInfoChangeEventRegex => ConfigValue::Str(self.regex_pattern_engine.client_info_change_event),
            StaticConfigParameter::ClientBeginEventRegex => ConfigValue::Str(self.regex_pattern_engine.client_begin_event),
            StaticConfigParameter::ClientDisconnectEventRegex => ConfigValue::Str(self.regex_pattern_engine.client_disconnect_event),
            StaticConfigParameter::ItemEventRegex => ConfigValue::Str(self.regex_pattern_engine.item_event),
            StaticConfigParameter::KillEventRegex => ConfigValue::Str(self.regex_pattern_engine.kill_event),
            StaticConfigParameter::ShutdownEventRegex => ConfigValue::Str(self.regex_pattern_engine.shutdown_event),
            StaticConfigParameter::ExitEventRegex => ConfigValue::Str(self.regex_pattern_engine.exit_event),
            StaticConfigParameter::KillEventLineParserRegex => ConfigValue::Str(self.regex_pattern_engine.kill_event_line_parser),
            StaticConfigParameter::UserInfoLineParserRegex => ConfigValue::Str(self.regex_pattern_engine.user_info_line_parser),
            StaticConfigParameter::WorldLogPattern => ConfigValue::Str(self.log_patterns.world),
            StaticConfigParameter::OutputMatchKey => ConfigValue::Str(self.output_format.match_key),
            StaticConfigParameter::TotalKillsKey => ConfigValue::Str(self.log_patterns.total_kills_key),
            StaticConfigParameter::PlayersKey => ConfigValue::Str(self.log_patterns.players_key),
            StaticConfigParameter::KillsKey => ConfigValue::Str(self.log_patterns.kills_key),
            StaticConfigParameter::KillByMeansKey => ConfigValue::Str(self.log_patterns.kill_by_means_key),
            StaticConfigParameter::InvalidKillMeanTokenErrMsg => ConfigValue::Str(self.error_messages.invalid_kill_mean_token),
            StaticConfigParameter::LogFilePathNotFoundErrMsg => ConfigValue::Str(self.error_messages.log_file_path_not_found),
        }
    }

    pub fn get_parameter(&self, config: StaticConfigParameter) -> (value: ConfigValue)
        ensures
            value == self.parameter(config),
    {
        match config {
            StaticConfigParameter::InitGameEventRegex => ConfigValue::Str(self.regex_pattern_engine.init_game_event.clone()),
            StaticConfigParameter::ClientConnectEventRegex => ConfigValue::Str(self.regex_pattern_engine.client_connect_event.clone()),
            StaticConfigParameter::ClientInfoChangeEventRegex => ConfigValue::Str(self.regex_pattern_engine.client_info_change_event.clone()),
            StaticConfigParameter::ClientBeginEventRegex => ConfigValue::Str(self.regex_pattern_engine.client_begin_event.clone()),
            StaticConfigParameter::ClientDisconnectEventRegex => ConfigValue::Str(self.regex_pattern_engine.client_disconnect_event.clone()),
            StaticConfigParameter::ItemEventRegex => ConfigValue::Str(self.regex_pattern_engine.item_event.clone()),
            StaticConfigParameter::KillEventRegex => ConfigValue::Str(self.regex_pattern_engine.kill_event.clone()),
            StaticConfigParameter::ShutdownEventRegex => ConfigValue::Str(self.regex_pattern_engine.shutdown_event.clone()),
            StaticConfigParameter::ExitEventRegex => ConfigValue::Str(self.regex_pattern_engine.exit_event.clone()),
            StaticConfigParameter::KillEventLineParserRegex => ConfigValue::Str(self.regex_pattern_engine.kill_event_line_parser.clone()),
            StaticConfigParameter::UserInfoLineParserRegex => ConfigValue::Str(self.regex_pattern_engine.user_info_line_parser.clone()),
            StaticConfigParameter::WorldLogPattern => ConfigValue::Str(self.log_patterns.world.clone()),
            StaticConfigParameter::OutputMatchKey => ConfigValue::Str(self.output_format.match_key.clone()),
            StaticConfigParameter::TotalKillsKey => ConfigValue::Str(self.log_patterns.total_kills_key.clone()),
            StaticConfigParameter::PlayersKey => ConfigValue::Str(self.log_patterns.players_key.clone()),
            StaticConfigParameter::KillsKey => ConfigValue::Str(self.log_patterns.kills_key.clone()),
            StaticConfigParameter::KillByMeansKey => ConfigValue::Str(self.log_patterns.kill_by_means_key.clone()),
            StaticConfigParameter::InvalidKillMeanTokenErrMsg => ConfigValue::Str(self.error_messages.invalid_kill_mean_token.clone()),
            StaticConfigParameter::LogFilePathNotFoundErrMsg => ConfigValue::Str(self.error_messages.log_file_path_not_found.clone()),
        }
    }
}

} // verus!
