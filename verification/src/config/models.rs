//! The configuration of the application, as plain data. Reading it from files
//! and from the environment is left to the program.

use vstd::prelude::*;

verus! {

/// The whole configuration.
#[derive(Clone, Debug)]
pub struct AppConfig {
    pub environment_type: EnvironmentType,
    pub database_config: DatabaseConfig,
    pub server_config: ServerConfig,
}

/// Where the application runs.
#[derive(PartialEq, Eq, Structural, Clone, Copy, Debug)]
pub enum EnvironmentType {
    Development,
    Production,
}

/// How the application logs.
#[derive(Clone, Debug)]
pub struct LoggingConfig {
    pub level: String,
    pub exporter: Option<LogExporter>,
}

/// Where logs are exported to.
#[derive(Clone, Debug)]
pub struct LogExporter {
    pub otel_api_key: String,
}

/// The database to connect to.
#[derive(Clone, Debug)]
pub struct DatabaseConfig {
    pub name: String,
    pub address: String,
}

/// The address to listen on.
#[derive(Clone, Debug)]
pub struct ServerConfig {
    pub address: String,
}

} // verus!
