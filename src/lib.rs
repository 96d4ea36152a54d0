//! Command-line configuration for a proxy server: turns the process
//! arguments into a validated listening port and a hashed access token.

pub mod token;
pub mod port;
pub mod options;
pub mod config;

pub use config::{Config, ConfigBuilder, ConfigError, ParseOutcome};
