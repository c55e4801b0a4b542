//! Process configuration, as plain values.
//!
//! Loading — a configuration file overlaid with prefixed environment
//! variables — happens at the boundary; the library only carries the
//! resulting values.

use vstd::prelude::*;

verus! {

pub struct ServerConfig {
    pub host: String,
    pub port: u16,
}

pub struct DatabaseConfig {
    pub url: String,
    pub max_connections: u32,
}

pub struct JwtConfig {
    pub secret: String,
    pub expiration_hours: i64,
}

pub struct TaskCenterConfig {
    pub base_url: String,
    pub timeout_seconds: u64,
}

pub struct LoggingConfig {
    pub level: String,
}

pub struct AppConfig {
    pub server: ServerConfig,
    pub database: DatabaseConfig,
    pub jwt: JwtConfig,
    pub task_center: TaskCenterConfig,
    pub logging: LoggingConfig,
}

} // verus!
