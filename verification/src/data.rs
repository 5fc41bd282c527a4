//! The state that lives as long as the process: the confirmed status, the
//! debounce counter, and the status message that each destination shows.

use crate::config::{Config, Loaded};
use std::collections::BTreeMap;
use vstd::prelude::*;

verus! {

/// Confirmed reachability of the monitored resource.
#[derive(Debug, Clone, Copy, PartialEq, Eq, Structural)]
pub enum ResourceStatus {
    Up,
    Down,
    Unknown,
}

impl Default for ResourceStatus {
    fn default() -> (status: ResourceStatus)
        ensures
            status == ResourceStatus::Unknown,
    {
        ResourceStatus::Unknown
    }
}

impl ResourceStatus {
    /// The word that names the status.
    pub open spec fn label(self) -> Seq<char> {
        match self {
            ResourceStatus::Up => "Up"@,
            ResourceStatus::Down => "Down"@,
            ResourceStatus::Unknown => "Unknown"@,
        }
    }

    /// The status as text: `Up`, `Down` or `Unknown`.
    pub fn name(&self) -> (text: String)
        ensures
            text@ == self.label(),
    {
        match self {
            ResourceStatus::Up => String::from_str("Up"),
            ResourceStatus::Down => String::from_str("Down"),
            ResourceStatus::Unknown => String::from_str("Unknown"),
        }
    }
}

/// The messages that one destination currently shows: at most one status
/// message.
#[derive(Debug, Clone, Copy, PartialEq, Eq, Structural)]
pub struct ServerUsedMessages {
    pub status: Option<u64>,
}

impl ServerUsedMessages {
    pub fn new(status: Option<u64>) -> (messages: ServerUsedMessages)
        ensures
            messages.status == status,
    {
        ServerUsedMessages { status }
    }
}

impl Default for ServerUsedMessages {
    fn default() -> (messages: ServerUsedMessages)
        ensures
            messages.status is None,
    {
        ServerUsedMessages { status: None }
    }
}

/// The runtime state of the watchdog. `last_status_change` counts seconds
/// since the Unix epoch.
#[derive(Debug, Clone, PartialEq, Eq)]
pub struct AppData {
    pub status: ResourceStatus,
    pub used_messages: BTreeMap<u64, ServerUsedMessages>,
    pub attempts_before_notification: u8,
    pub last_status_change: i64,
    pub config: Config,
}

impl Default for AppData {
    fn default() -> (data: AppData)
        ensures
            data.status == ResourceStatus::Unknown,
            data.used_messages@ == Map::<u64, ServerUsedMessages>::empty(),
            data.attempts_before_notification == 0,
            data.last_status_change == 0,
            data.config.is_default(),
    {
        AppData {
            status: ResourceStatus::Unknown,
            used_messages: BTreeMap::new(),
            attempts_before_notification: 0,
            last_status_change: 0,
            config: Config::default(),
        }
    }
}

/// What is written to durable storage: the runtime state, field by field.
#[derive(Debug, Clone, PartialEq, Eq)]
pub struct SavedData {
    pub status: ResourceStatus,
    pub used_messages: BTreeMap<u64, ServerUsedMessages>,
    pub attempts_before_notification: u8,
    pub last_status_change: i64,
    pub config: Config,
}

impl Default for SavedData {
    fn default() -> (saved: SavedData)
        ensures
            saved.status == ResourceStatus::Unknown,
            saved.used_messages@ == Map::<u64, ServerUsedMessages>::empty(),
            saved.attempts_before_notification == 0,
            saved.last_status_change == 0,
            saved.config.is_default(),
    {
        SavedData {
            status: ResourceStatus::Unknown,
            used_messages: BTreeMap::new(),
            attempts_before_notification: 0,
            last_status_change: 0,
            config: Config::default(),
        }
    }
}

impl SavedData {
    /// The saved state and the runtime state hold the same values.
    pub open spec fn agrees_with(&self, data: &AppData) -> bool {
        &&& data.status == self.status
        &&& data.used_messages@ == self.used_messages@
        &&& data.attempts_before_notification == self.attempts_before_notification
        &&& data.last_status_change == self.last_status_change
        &&& data.config.master_server == self.config.master_server
        &&& data.config.max_servers == self.config.max_servers
        &&& data.config.ping_config == self.config.ping_config
        &&& data.config.server_configs@ == self.config.server_configs@
    }

    /// Overwrites the runtime state with the saved one.
    pub fn load_into(&self, data: &mut AppData)
        ensures
            self.agrees_with(final(data)),
    {
        data.status = self.status;
        data.used_messages = self.used_messages.clone();
        data.attempts_before_notification = self.attempts_before_notification;
        data.last_status_change = self.last_status_change;
        data.config = self.config.duplicate();
    }

    /// A snapshot of the runtime state, ready to be saved.
    pub fn load_from(data: &AppData) -> (saved: SavedData)
        ensures
            saved.agrees_with(data),
    {
        SavedData {
            status: data.status,
            used_messages: data.used_messages.clone(),
            attempts_before_notification: data.attempts_before_notification,
            last_status_change: data.last_status_change,
            config: data.config.duplicate(),
        }
    }
}

/// What reading the saved state came to.
#[derive(Debug, Clone, PartialEq, Eq)]
pub enum LoadedData {
    /// The file was read and holds this state.
    Found(SavedData),
    /// There is no such file.
    Missing,
    /// The file could not be read or understood.
    Failed,
}

impl AppData {
    /// The confirmed status.
    pub fn current_status(&self) -> (status: ResourceStatus)
        ensures
            status == self.status,
    {
        self.status
    }

    /// The state with which a fresh installation starts, but for its
    /// configuration.
    pub open spec fn is_fresh(&self) -> bool {
        &&& self.status == ResourceStatus::Unknown
        &&& self.used_messages@ == Map::<u64, ServerUsedMessages>::empty()
        &&& self.attempts_before_notification == 0
        &&& self.last_status_change == 0
    }
}

/// The state with which the program starts, and whether it is to be saved
/// at once. A saved state is taken as it is. Without one the program
/// starts afresh, with the configuration from the configuration file if
/// that was read, and saves what it starts with. A saved state that cannot
/// be read is not overwritten: the program runs on defaults and saves
/// nothing.
pub fn init_data(saved: LoadedData, config: Loaded) -> (start: (AppData, bool))
    ensures
        match saved {
            LoadedData::Found(found) => found.agrees_with(&start.0) && !start.1,
            LoadedData::Failed => start.0.is_fresh() && start.0.config.is_default() && !start.1,
            LoadedData::Missing => {
                &&& start.0.is_fresh()
                &&& start.1
                &&& match config {
                    Loaded::Found(found) => start.0.config == found,
                    _ => start.0.config.is_default(),
                }
            },
        },
{
    let mut data = AppData::default();
    match saved {
        LoadedData::Found(found) => {
            found.load_into(&mut data);
            (data, false)
        },
        LoadedData::Failed => (data, false),
        LoadedData::Missing => {
            match config {
                Loaded::Found(found) => {
                    data.config = found;
                },
                _ => {},
            }
            (data, true)
        },
    }
}

} // verus!
