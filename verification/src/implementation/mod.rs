pub mod death_causes;
pub mod kill_scorer;
pub mod label;
pub mod line_event;
pub mod log_event;
pub mod log_parser;
pub mod match_data;
pub mod pattern;
pub mod report;
pub mod spans;
