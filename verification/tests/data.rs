use discord_watchdog::config::{
    Config, Loaded, PingConfig, ServerConfig, Timespan, DEFAULT_ATTEMPTS_BEFORE_NOTIFICATION,
    DEFAULT_CONFIG_PATH, DEFAULT_DOWN_MESSAGE, DEFAULT_INTERVAL_BETWEEN_ATTEMPTS_SECS,
    DEFAULT_LOG_PATH, DEFAULT_RESOURCE_ADDR, DEFAULT_RESOURCE_NAME, DEFAULT_SAVEDATA_PATH,
    DEFAULT_TIMEOUT_SECS, DEFAULT_UP_MESSAGE,
};
use discord_watchdog::data::{
    init_data, AppData, LoadedData, ResourceStatus, SavedData, ServerUsedMessages,
};

#[test]
fn the_status_is_unknown_until_probed() {
    assert_eq!(ResourceStatus::default(), ResourceStatus::Unknown);
    assert_eq!(AppData::default().status, ResourceStatus::Unknown);
    assert_eq!(AppData::default().current_status(), ResourceStatus::Unknown);
    let mut data = AppData::default();
    data.status = ResourceStatus::Down;
    assert_eq!(data.current_status(), ResourceStatus::Down);
}

#[test]
fn statuses_are_named() {
    assert_eq!(ResourceStatus::Up.name(), "Up");
    assert_eq!(ResourceStatus::Down.name(), "Down");
    assert_eq!(ResourceStatus::Unknown.name(), "Unknown");
}

#[test]
fn the_default_probe_watches_the_hub() {
    let config = PingConfig::default();
    assert_eq!(config.resource_name, "BYOND");
    assert_eq!(config.resource_addr, "hub.byond.com");
    assert_eq!(config.required_attempts_before_notification, 3);
    assert_eq!(config.timeout, Timespan { secs: 5, nanos: 0 });
    assert_eq!(config.interval_between_attempts, Timespan { secs: 10, nanos: 0 });
    assert_eq!(config.duplicate(), config);
}

#[test]
fn the_constants_have_their_values() {
    assert_eq!(DEFAULT_RESOURCE_NAME, "BYOND");
    assert_eq!(DEFAULT_RESOURCE_ADDR, "hub.byond.com");
    assert_eq!(DEFAULT_ATTEMPTS_BEFORE_NOTIFICATION, 3);
    assert_eq!(DEFAULT_TIMEOUT_SECS, 5);
    assert_eq!(DEFAULT_INTERVAL_BETWEEN_ATTEMPTS_SECS, 10);
    assert_eq!(DEFAULT_SAVEDATA_PATH, "Data.toml");
    assert_eq!(DEFAULT_CONFIG_PATH, "Config.toml");
    assert_eq!(DEFAULT_LOG_PATH, "debug.log");
    assert_eq!(DEFAULT_UP_MESSAGE, "%%RESOURCE%% is back online, %%ROLE%%!");
    assert_eq!(DEFAULT_DOWN_MESSAGE, "Nevermind, it's dead again. Boowomp :sob:.");
}

#[test]
fn a_default_server_has_no_name_of_its_own() {
    let server = ServerConfig::default();
    assert_eq!(server.name, "Noname server");
    assert_eq!(server.channel, None);
    assert_eq!(server.role_to_notify, None);
    assert_eq!(server.up_message, DEFAULT_UP_MESSAGE);
    assert_eq!(server.down_message, DEFAULT_DOWN_MESSAGE);
    let named = ServerConfig::with_name("guild".to_string());
    assert_eq!(named.name, "guild");
    assert_eq!(ServerConfig { name: "Noname server".to_string(), ..named.duplicate() }, server);
}

#[test]
fn the_default_configuration_is_empty() {
    let config = Config::default();
    assert_eq!(config.master_server, None);
    assert_eq!(config.max_servers, 0);
    assert_eq!(config.ping_config, PingConfig::default());
    assert!(config.server_configs.is_empty());
    assert_eq!(config.duplicate(), config);
}

#[test]
fn used_messages_hold_what_they_are_given() {
    assert_eq!(ServerUsedMessages::new(Some(3)).status, Some(3));
    assert_eq!(ServerUsedMessages::new(None).status, None);
    assert_eq!(ServerUsedMessages::default(), ServerUsedMessages::new(None));
}

#[test]
fn saving_and_loading_carry_every_field() {
    let mut data = AppData::default();
    data.status = ResourceStatus::Down;
    data.attempts_before_notification = 2;
    data.last_status_change = 99;
    data.used_messages.insert(5, ServerUsedMessages::new(Some(50)));
    data.config.master_server = Some(1);
    data.config.max_servers = 4;
    data.config.ping_config.resource_name = "API".to_string();
    data.config.server_configs.insert(5, ServerConfig::with_name("five".to_string()));
    let saved = SavedData::load_from(&data);
    assert_eq!(saved.status, ResourceStatus::Down);
    assert_eq!(saved.attempts_before_notification, 2);
    assert_eq!(saved.last_status_change, 99);
    assert_eq!(saved.used_messages, data.used_messages);
    assert_eq!(saved.config, data.config);
    let mut fresh = AppData::default();
    saved.load_into(&mut fresh);
    assert_eq!(fresh, data);
    SavedData::default().load_into(&mut fresh);
    assert_eq!(fresh, AppData::default());
}

#[test]
fn the_program_starts_from_what_was_saved() {
    let mut saved = SavedData::default();
    saved.status = ResourceStatus::Up;
    saved.last_status_change = 5;
    saved.config.max_servers = 2;
    let mut other = Config::default();
    other.max_servers = 9;
    let (data, save) = init_data(LoadedData::Found(saved.clone()), Loaded::Found(other));
    assert!(!save);
    assert_eq!(SavedData::load_from(&data), saved);
}

#[test]
fn without_saved_state_the_configuration_file_counts() {
    let mut file = Config::default();
    file.max_servers = 9;
    file.master_server = Some(1);
    let (data, save) = init_data(LoadedData::Missing, Loaded::Found(file.clone()));
    assert!(save);
    assert_eq!(data, AppData { config: file, ..AppData::default() });
    let (data, save) = init_data(LoadedData::Missing, Loaded::Missing);
    assert!(save);
    assert_eq!(data, AppData::default());
    let (data, save) = init_data(LoadedData::Missing, Loaded::Failed("bad".to_string()));
    assert!(save);
    assert_eq!(data, AppData::default());
}

#[test]
fn unreadable_saved_state_is_not_overwritten() {
    let mut file = Config::default();
    file.max_servers = 9;
    let (data, save) = init_data(LoadedData::Failed, Loaded::Found(file));
    assert!(!save);
    assert_eq!(data, AppData::default());
}
