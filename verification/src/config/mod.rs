pub mod config;
pub mod dynamic_config;
pub mod static_config;
