//! Configuration of the probe and of the destinations that follow it.

use std::collections::BTreeMap;
use vstd::prelude::*;

verus! {

pub const DEFAULT_RESOURCE_NAME: &'static str = "BYOND";

pub const DEFAULT_RESOURCE_ADDR: &'static str = "hub.byond.com";

pub const DEFAULT_ATTEMPTS_BEFORE_NOTIFICATION: u8 = 3;

pub const DEFAULT_TIMEOUT_SECS: u64 = 5;

pub const DEFAULT_INTERVAL_BETWEEN_ATTEMPTS_SECS: u64 = 10;

pub const DEFAULT_SAVEDATA_PATH: &'static str = "Data.toml";

pub const DEFAULT_CONFIG_PATH: &'static str = "Config.toml";

pub const DEFAULT_LOG_PATH: &'static str = "debug.log";

pub const DEFAULT_REPOSITORY: &'static str = "https://github.com/VladOS-0/discord-watchdog";

pub const DEFAULT_SERVER_NAME: &'static str = "Noname server";

pub const DEFAULT_UP_MESSAGE: &'static str = "%%RESOURCE%% is back online, %%ROLE%%!";

pub const DEFAULT_DOWN_MESSAGE: &'static str = "Nevermind, it's dead again. Boowomp :sob:.";

/// A length of time: whole seconds and the nanoseconds beyond them.
#[derive(Debug, Clone, Copy, PartialEq, Eq, Structural)]
pub struct Timespan {
    pub secs: u64,
    pub nanos: u32,
}

impl Timespan {
    /// A span of `secs` whole seconds.
    pub fn from_secs(secs: u64) -> (span: Timespan)
        ensures
            span == (Timespan { secs, nanos: 0 }),
    {
        Timespan { secs, nanos: 0 }
    }

    pub open spec fn spec_is_zero(&self) -> bool {
        self.secs == 0 && self.nanos == 0
    }

    /// Whether the span has no length at all.
    #[verifier::when_used_as_spec(spec_is_zero)]
    pub fn is_zero(&self) -> (zero: bool)
        ensures
            zero == self.spec_is_zero(),
    {
        self.secs == 0 && self.nanos == 0
    }
}

/// What the probe needs to know about the monitored resource.
#[derive(Debug, Clone, PartialEq, Eq)]
pub struct PingConfig {
    pub resource_name: String,
    pub resource_addr: String,
    pub required_attempts_before_notification: u8,
    pub timeout: Timespan,
    pub interval_between_attempts: Timespan,
}

/// The mathematical content of a [`PingConfig`].
pub struct PingConfigView {
    pub resource_name: Seq<char>,
    pub resource_addr: Seq<char>,
    pub required_attempts_before_notification: u8,
    pub timeout: Timespan,
    pub interval_between_attempts: Timespan,
}

impl View for PingConfig {
    type V = PingConfigView;

    open spec fn view(&self) -> PingConfigView {
        PingConfigView {
            resource_name: self.resource_name@,
            resource_addr: self.resource_addr@,
            required_attempts_before_notification: self.required_attempts_before_notification,
            timeout: self.timeout,
            interval_between_attempts: self.interval_between_attempts,
        }
    }
}

impl Default for PingConfig {
    fn default() -> (config: PingConfig)
        ensures
            config@ == PingConfig::default_view(),
    {
        PingConfig {
            resource_name: String::from_str(DEFAULT_RESOURCE_NAME),
            resource_addr: String::from_str(DEFAULT_RESOURCE_ADDR),
            required_attempts_before_notification: DEFAULT_ATTEMPTS_BEFORE_NOTIFICATION,
            timeout: Timespan::from_secs(DEFAULT_TIMEOUT_SECS),
            interval_between_attempts: Timespan::from_secs(DEFAULT_INTERVAL_BETWEEN_ATTEMPTS_SECS),
        }
    }
}

impl PingConfig {
    /// The content of the default probe configuration.
    pub open spec fn default_view() -> PingConfigView {
        PingConfigView {
            resource_name: DEFAULT_RESOURCE_NAME@,
            resource_addr: DEFAULT_RESOURCE_ADDR@,
            required_attempts_before_notification: DEFAULT_ATTEMPTS_BEFORE_NOTIFICATION,
            timeout: Timespan { secs: DEFAULT_TIMEOUT_SECS, nanos: 0 },
            interval_between_attempts: Timespan {
                secs: DEFAULT_INTERVAL_BETWEEN_ATTEMPTS_SECS,
                nanos: 0,
            },
        }
    }

    /// A copy with the same content.
    pub fn duplicate(&self) -> (copy: PingConfig)
        ensures
            copy == *self,
    {
        PingConfig {
            resource_name: self.resource_name.clone(),
            resource_addr: self.resource_addr.clone(),
            required_attempts_before_notification: self.required_attempts_before_notification,
            timeout: self.timeout,
            interval_between_attempts: self.interval_between_attempts,
        }
    }
}

/// One destination: where its updates go, whom they mention and what the
/// transition announcements say.
#[derive(Debug, Clone, PartialEq, Eq)]
pub struct ServerConfig {
    pub name: String,
    pub channel: Option<u64>,
    pub role_to_notify: Option<u64>,
    pub up_message: String,
    pub down_message: String,
}

/// The mathematical content of a [`ServerConfig`].
pub struct ServerConfigView {
    pub name: Seq<char>,
    pub channel: Option<u64>,
    pub role_to_notify: Option<u64>,
    pub up_message: Seq<char>,
    pub down_message: Seq<char>,
}

impl View for ServerConfig {
    type V = ServerConfigView;

    open spec fn view(&self) -> ServerConfigView {
        ServerConfigView {
            name: self.name@,
            channel: self.channel,
            role_to_notify: self.role_to_notify,
            up_message: self.up_message@,
            down_message: self.down_message@,
        }
    }
}

impl Default for ServerConfig {
    fn default() -> (config: ServerConfig)
        ensures
            config@ == ServerConfig::named(DEFAULT_SERVER_NAME@),
    {
        ServerConfig::with_name(String::from_str(DEFAULT_SERVER_NAME))
    }
}

impl ServerConfig {
    /// The content of a freshly registered destination called `name`: no
    /// channel, no role, the default announcements.
    pub open spec fn named(name: Seq<char>) -> ServerConfigView {
        ServerConfigView {
            name,
            channel: None,
            role_to_notify: None,
            up_message: DEFAULT_UP_MESSAGE@,
            down_message: DEFAULT_DOWN_MESSAGE@,
        }
    }

    /// A destination called `name` with every other setting at its default.
    pub fn with_name(name: String) -> (config: ServerConfig)
        ensures
            config@ == ServerConfig::named(name@),
    {
        ServerConfig {
            name,
            channel: None,
            role_to_notify: None,
            up_message: String::from_str(DEFAULT_UP_MESSAGE),
            down_message: String::from_str(DEFAULT_DOWN_MESSAGE),
        }
    }

    /// A copy with the same content.
    pub fn duplicate(&self) -> (copy: ServerConfig)
        ensures
            copy == *self,
    {
        ServerConfig {
            name: self.name.clone(),
            channel: self.channel,
            role_to_notify: self.role_to_notify,
            up_message: self.up_message.clone(),
            down_message: self.down_message.clone(),
        }
    }
}

/// The whole configuration: the probe, the registry of destinations and
/// the limits that the host sets on it.
#[derive(Debug, Clone, PartialEq, Eq)]
pub struct Config {
    pub master_server: Option<u64>,
    pub max_servers: usize,
    pub ping_config: PingConfig,
    pub server_configs: BTreeMap<u64, ServerConfig>,
}

impl Default for Config {
    fn default() -> (config: Config)
        ensures
            config.is_default(),
    {
        Config {
            master_server: None,
            max_servers: 0,
            ping_config: PingConfig::default(),
            server_configs: BTreeMap::new(),
        }
    }
}

impl Config {
    /// Both configurations hold the same registry of destinations, the
    /// same master server and the same limit.
    pub open spec fn same_registry(&self, other: &Config) -> bool {
        &&& self.master_server == other.master_server
        &&& self.max_servers == other.max_servers
        &&& self.server_configs@ == other.server_configs@
    }

    /// The configuration with which a fresh installation starts.
    pub open spec fn is_default(&self) -> bool {
        &&& self.master_server is None
        &&& self.max_servers == 0
        &&& self.ping_config@ == PingConfig::default_view()
        &&& self.server_configs@ == Map::<u64, ServerConfig>::empty()
    }

    /// A copy with the same content.
    pub fn duplicate(&self) -> (copy: Config)
        ensures
            copy.master_server == self.master_server,
            copy.max_servers == self.max_servers,
            copy.ping_config == self.ping_config,
            copy.server_configs@ == self.server_configs@,
    {
        Config {
            master_server: self.master_server,
            max_servers: self.max_servers,
            ping_config: self.ping_config.duplicate(),
            server_configs: self.server_configs.clone(),
        }
    }
}

/// What reading the configuration file came to.
#[derive(Debug, Clone, PartialEq, Eq)]
pub enum Loaded {
    /// The file was read and holds this configuration.
    Found(Config),
    /// There is no such file.
    Missing,
    /// The file could not be read or understood, for this reason.
    Failed(String),
}

} // verus!
