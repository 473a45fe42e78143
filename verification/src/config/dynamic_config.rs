use crate::config::config::{ConfigValue, KillsRules};
use vstd::prelude::*;

verus! {

/// The settings that may change from one run to the next, by name.
#[derive(Debug, Clone, Copy, PartialEq, Eq, Structural)]
pub enum ConfigParameter {
    LogFilePath,
    BeingKilledDecreasesScore,
    KillYourselfIncreasesScore,
    ShowDeathCauses,
}

/// The part of the configuration that may change from one run to the next:
/// the scoring policy and the place of the log.
#[derive(Debug, Clone)]
pub struct Config {
    pub kills_rules: KillsRules,
    pub log_file_path: Option<String>,
}

impl Default for Config {
    /// Every switch off and no place for the log.
    fn default() -> (config: Config)
        ensures
            config.kills_rules == (KillsRules {
                being_killed_decreases_score: false,
                kill_yourself_increases_score: false,
                show_death_causes: false,
            }),
            config.log_file_path is None,
    {
        Config {
            kills_rules: KillsRules {
                being_killed_decreases_score: false,
                kill_yourself_increases_score: false,
                show_death_causes: false,
            },
            log_file_path: None,
        }
    }
}

impl Config {
    /// The value that the configuration holds for a setting.
    pub open spec fn parameter(self, config: ConfigParameter) -> ConfigValue {
        match config {
            ConfigParameter::BeingKilledDecreasesScore => ConfigValue::Bool(
                self.kills_rules.being_killed_decreases_score,
            ),
            ConfigParameter::KillYourselfIncreasesScore => ConfigValue::Bool(
                self.kills_rules.kill_yourself_increases_score,
            ),
            ConfigParameter::ShowDeathCauses => ConfigValue::Bool(self.kills_rules.show_death_causes),
            ConfigParameter::LogFilePath => ConfigValue::OptStr(self.log_file_path),
        }
    }

    pub fn get_parameter(&self, config: ConfigParameter) -> (value: ConfigValue)
        ensures
            value == self.parameter(config),
    {
        match config {
            ConfigParameter::BeingKilledDecreasesScore => ConfigValue::Bool(
                self.kills_rules.being_killed_decreases_score,
            ),
            ConfigParameter::KillYourselfIncreasesScore => ConfigValue::Bool(
                self.kills_rules.kill_yourself_increases_score,
            ),
            ConfigParameter::ShowDeathCauses => ConfigValue::Bool(self.kills_rules.show_death_causes),
            ConfigParameter::LogFilePath => match &self.log_file_path {
                Some(path) => ConfigValue::OptStr(Some(path.clone())),
                None => ConfigValue::OptStr(None),
            },
        }
    }

    /// Gives one setting a new value and leaves the others as they are. A
    /// switch takes the value read as a switch, the place of the log the
    /// value read as a text that may be absent.
    pub fn set_parameter(&mut self, config: ConfigParameter, value: ConfigValue)
        ensures
            config != ConfigParameter::LogFilePath ==> final(self).parameter(config)
                == ConfigValue::Bool(value.truth()),
            config == ConfigParameter::LogFilePath ==> final(self).parameter(
                config,
            ).optional_text() == value.optional_text(),
            final(self).parameter(config) is OptStr == (config == ConfigParameter::LogFilePath),
            forall|other: ConfigParameter|
                other != config ==> #[trigger] final(self).parameter(other) == old(self).parameter(
                    other,
                ),
    {
        match config {
            ConfigParameter::BeingKilledDecreasesScore => {
                self.kills_rules.being_killed_decreases_score = value.to_boolean();
            },
            ConfigParameter::KillYourselfIncreasesScore => {
                self.kills_rules.kill_yourself_increases_score = value.to_boolean();
            },
            ConfigParameter::ShowDeathCauses => {
                self.kills_rules.show_death_causes = value.to_boolean();
            },
            ConfigParameter::LogFilePath => {
                self.log_file_path = value.to_optional_string();
            },
        }
    }
}

} // verus!
