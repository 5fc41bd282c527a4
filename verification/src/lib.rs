//! Reachability watchdog core: debouncing of probe samples, planning of
//! per-destination notifications and reconciliation of status messages.

pub mod text;
pub mod config;
pub mod data;
pub mod status;
pub mod embed;
pub mod templates;
pub mod order;
pub mod notify;
pub mod ping;
pub mod commands;

pub use crate::config::{
    Config, PingConfig, ServerConfig, DEFAULT_ATTEMPTS_BEFORE_NOTIFICATION, DEFAULT_CONFIG_PATH,
    DEFAULT_INTERVAL_BETWEEN_ATTEMPTS_SECS, DEFAULT_LOG_PATH, DEFAULT_REPOSITORY,
    DEFAULT_RESOURCE_ADDR, DEFAULT_RESOURCE_NAME, DEFAULT_SAVEDATA_PATH, DEFAULT_TIMEOUT_SECS,
};
pub use crate::data::{AppData, ResourceStatus, SavedData, ServerUsedMessages};
