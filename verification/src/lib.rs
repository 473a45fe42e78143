//! Per-match statistics from the event log of an arena shooter server.
//!
//! Lines are classified by configured patterns, cut into matches at each
//! match-start event, and folded into one record per match: the number of
//! kills, the players seen, each player's net score and, where enabled, a
//! tally of kills by cause of death. Lines that cannot be used are reported
//! as warnings and never stop a run.
//!
//! - `config` holds the configuration: patterns, texts and scoring policy.
//! - `death_causes` holds the causes of death and their tokens.
//! - `errors` holds the failures of a run and of a line.
//! - `interface` holds what the observers of a run are handed.
//! - `implementation` holds the work: the pattern engine, the classifier,
//!   the reading of lines, the scoring of kills, the record of a match, the
//!   parser that cuts the log into matches, and what holds of a whole run.

pub mod config;
pub mod death_causes;
pub mod errors;
pub mod implementation;
pub mod interface;
