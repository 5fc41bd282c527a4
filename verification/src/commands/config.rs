//! Commands that change the probe and a destination's settings.

use crate::commands::{
    framed, framed_number, get_server_config_entry, is_master, master_check, registered_server,
    server_set, settings_of, store_server, CommandReply, MASTER_ONLY,
};
use crate::config::{Config, Loaded, PingConfig, ServerConfig, Timespan};
use crate::text::decimal_nat;
use vstd::prelude::*;

verus! {

pub const RESET_DONE: &'static str = "Reset configuration to Config.toml defaults!";

pub const RESET_TO_HARDCODED: &'static str =
    "No Config.toml detected - reset configuration to hardcoded defaults!";

/// Which announcement a message is for.
#[derive(Debug, Clone, Copy, PartialEq, Eq, Structural)]
pub enum Status {
    Up,
    Down,
}

impl Status {
    pub open spec fn label(self) -> Seq<char> {
        match self {
            Status::Up => "Up"@,
            Status::Down => "Down"@,
        }
    }
}

/// Master only. Puts the configuration read from the file in place of the
/// current one, or the built-in defaults where there is no file. A file
/// that cannot be read changes nothing.
pub fn reset(guild_id: Option<u64>, loaded: Loaded, config: &mut Config) -> (reply: CommandReply)
    ensures
        !is_master(guild_id, old(config)) ==> *final(config) == *old(config) && reply.says(
            MASTER_ONLY@,
            false,
        ),
        is_master(guild_id, old(config)) ==> match loaded {
            Loaded::Found(found) => *final(config) == found && reply.says(RESET_DONE@, true),
            Loaded::Failed(reason) => *final(config) == *old(config) && reply.says(
                "Failed to load Config from Config.toml: "@ + reason@,
                false,
            ),
            Loaded::Missing => final(config).is_default() && reply.says(
                RESET_TO_HARDCODED@,
                false,
            ),
        },
{
    if !master_check(guild_id, config) {
        return CommandReply::text(String::from_str(MASTER_ONLY), false);
    }
    match loaded {
        Loaded::Found(found) => {
            *config = found;
            CommandReply::text(String::from_str(RESET_DONE), true)
        },
        Loaded::Failed(reason) => {
            let text = framed("Failed to load Config from Config.toml: ", reason.as_str(), "");
            assert(text@ =~= "Failed to load Config from Config.toml: "@ + reason@) by {
                reveal_strlit("");
            }
            CommandReply::text(text, false)
        },
        Loaded::Missing => {
            *config = Config::default();
            CommandReply::text(String::from_str(RESET_TO_HARDCODED), false)
        },
    }
}

/// Master only. Changes the name under which the resource is shown.
pub fn name(guild_id: Option<u64>, new_name: String, config: &mut Config) -> (reply: CommandReply)
    ensures
        !is_master(guild_id, old(config)) ==> *final(config) == *old(config) && reply.says(
            MASTER_ONLY@,
            false,
        ),
        is_master(guild_id, old(config)) ==> {
            &&& final(config).ping_config == (PingConfig {
                resource_name: new_name,
                ..old(config).ping_config
            })
            &&& final(config).same_registry(old(config))
            &&& reply.says("Changed resource name to "@ + new_name@ + "!"@, true)
        },
{
    if !master_check(guild_id, config) {
        return CommandReply::text(String::from_str(MASTER_ONLY), false);
    }
    let text = framed("Changed resource name to ", new_name.as_str(), "!");
    config.ping_config.resource_name = new_name;
    CommandReply::text(text, true)
}

/// Master only. Changes the address that is probed, unless it does not
/// resolve: `failure` is then the reason, and nothing changes.
pub fn address(
    guild_id: Option<u64>,
    addr: String,
    failure: Option<String>,
    config: &mut Config,
) -> (reply: CommandReply)
    ensures
        !is_master(guild_id, old(config)) ==> *final(config) == *old(config) && reply.says(
            MASTER_ONLY@,
            false,
        ),
        is_master(guild_id, old(config)) ==> match failure {
            Some(reason) => *final(config) == *old(config) && reply.says(
                "Failed to resolve your addr: "@ + reason@,
                false,
            ),
            None => {
                &&& final(config).ping_config == (PingConfig {
                    resource_addr: addr,
                    ..old(config).ping_config
                })
                &&& final(config).same_registry(old(config))
                &&& reply.says("Changed resource address to "@ + addr@ + "!"@, true)
            },
        },
{
    if !master_check(guild_id, config) {
        return CommandReply::text(String::from_str(MASTER_ONLY), false);
    }
    match failure {
        Some(reason) => {
            let text = framed("Failed to resolve your addr: ", reason.as_str(), "");
            assert(text@ =~= "Failed to resolve your addr: "@ + reason@) by {
                reveal_strlit("");
            }
            CommandReply::text(text, false)
        },
        None => {
            let text = framed("Changed resource address to ", addr.as_str(), "!");
            config.ping_config.resource_addr = addr;
            CommandReply::text(text, true)
        },
    }
}

/// Master only. Changes the time between two probes, in seconds.
pub fn interval(guild_id: Option<u64>, secs: u64, config: &mut Config) -> (reply: CommandReply)
    ensures
        !is_master(guild_id, old(config)) ==> *final(config) == *old(config) && reply.says(
            MASTER_ONLY@,
            false,
        ),
        is_master(guild_id, old(config)) ==> {
            &&& final(config).ping_config == (PingConfig {
                interval_between_attempts: Timespan { secs, nanos: 0 },
                ..old(config).ping_config
            })
            &&& final(config).same_registry(old(config))
            &&& reply.says(
                "Changed interval between ping attempts to "@ + decimal_nat(secs as nat)
                    + "!"@,
                true,
            )
        },
{
    if !master_check(guild_id, config) {
        return CommandReply::text(String::from_str(MASTER_ONLY), false);
    }
    config.ping_config.interval_between_attempts = Timespan::from_secs(secs);
    CommandReply::text(
        framed_number("Changed interval between ping attempts to ", secs, "!"),
        true,
    )
}

/// Master only. Changes the time that one probe may take, in seconds.
pub fn timeout(guild_id: Option<u64>, secs: u64, config: &mut Config) -> (reply: CommandReply)
    ensures
        !is_master(guild_id, old(config)) ==> *final(config) == *old(config) && reply.says(
            MASTER_ONLY@,
            false,
        ),
        is_master(guild_id, old(config)) ==> {
            &&& final(config).ping_config == (PingConfig {
                timeout: Timespan { secs, nanos: 0 },
                ..old(config).ping_config
            })
            &&& final(config).same_registry(old(config))
            &&& reply.says(
                "Changed ping timeout to "@ + decimal_nat(secs as nat) + "!"@,
                true,
            )
        },
{
    if !master_check(guild_id, config) {
        return CommandReply::text(String::from_str(MASTER_ONLY), false);
    }
    config.ping_config.timeout = Timespan::from_secs(secs);
    CommandReply::text(framed_number("Changed ping timeout to ", secs, "!"), true)
}

/// Master only. Changes how many disagreeing samples in a row confirm a
/// change of status.
pub fn attempts(guild_id: Option<u64>, count: u8, config: &mut Config) -> (reply: CommandReply)
    ensures
        !is_master(guild_id, old(config)) ==> *final(config) == *old(config) && reply.says(
            MASTER_ONLY@,
            false,
        ),
        is_master(guild_id, old(config)) ==> {
            &&& final(config).ping_config == (PingConfig {
                required_attempts_before_notification: count,
                ..old(config).ping_config
            })
            &&& final(config).same_registry(old(config))
            &&& reply.says(
                "Changed required attempts to "@ + decimal_nat(count as nat) + "!"@,
                true,
            )
        },
{
    if !master_check(guild_id, config) {
        return CommandReply::text(String::from_str(MASTER_ONLY), false);
    }
    config.ping_config.required_attempts_before_notification = count;
    CommandReply::text(framed_number("Changed required attempts to ", count as u64, "!"), true)
}

/// Changes the channel into which a registered server gets its updates.
/// A channel that belongs to a category is refused.
pub fn channel(
    guild_id: Option<u64>,
    channel_id: u64,
    in_category: bool,
    config: &mut Config,
) -> (reply: CommandReply)
    ensures
        match registered_server(guild_id, old(config)) {
            Err(error) => *final(config) == *old(config) && reply.says(
                error.spec_message(),
                false,
            ),
            Ok(id) => if in_category {
                *final(config) == *old(config) && reply.says(
                    "<#"@ + decimal_nat(channel_id as nat)
                        + "> is an invalid channel for healthcheck updates!"@,
                    false,
                )
            } else {
                &&& server_set(
                    old(config),
                    final(config),
                    id,
                    ServerConfig { channel: Some(channel_id), ..old(config).server_configs@[id] },
                )
                &&& reply.says(
                    "Changed channel to <#"@ + decimal_nat(channel_id as nat) + ">!"@,
                    true,
                )
            },
        },
{
    let id = match get_server_config_entry(guild_id, config) {
        Ok(id) => id,
        Err(error) => {
            return CommandReply::text(error.message(), false);
        },
    };
    if in_category {
        return CommandReply::text(
            framed_number("<#", channel_id, "> is an invalid channel for healthcheck updates!"),
            false,
        );
    }
    let mut server = settings_of(config, id);
    server.channel = Some(channel_id);
    store_server(config, id, server);
    CommandReply::text(framed_number("Changed channel to <#", channel_id, ">!"), true)
}

/// Changes the role that a registered server's announcements mention. A
/// role that cannot be mentioned is refused.
pub fn role(
    guild_id: Option<u64>,
    role_id: u64,
    role_name: &str,
    mentionable: bool,
    config: &mut Config,
) -> (reply: CommandReply)
    ensures
        match registered_server(guild_id, old(config)) {
            Err(error) => *final(config) == *old(config) && reply.says(
                error.spec_message(),
                false,
            ),
            Ok(id) => if !mentionable {
                *final(config) == *old(config) && reply.says(
                    role_name@ + " can not be mentioned!"@,
                    false,
                )
            } else {
                &&& server_set(
                    old(config),
                    final(config),
                    id,
                    ServerConfig {
                        role_to_notify: Some(role_id),
                        ..old(config).server_configs@[id]
                    },
                )
                &&& reply.says(
                    "Changed mentionable role to <@&"@ + decimal_nat(role_id as nat) + ">!"@,
                    true,
                )
            },
        },
{
    let id = match get_server_config_entry(guild_id, config) {
        Ok(id) => id,
        Err(error) => {
            return CommandReply::text(error.message(), false);
        },
    };
    if !mentionable {
        let text = framed("", role_name, " can not be mentioned!");
        assert(text@ =~= role_name@ + " can not be mentioned!"@) by {
            reveal_strlit("");
        }
        return CommandReply::text(text, false);
    }
    let mut server = settings_of(config, id);
    server.role_to_notify = Some(role_id);
    store_server(config, id, server);
    CommandReply::text(framed_number("Changed mentionable role to <@&", role_id, ">!"), true)
}

/// Changes the announcement that a registered server gets when the
/// resource comes up, or when it goes down.
pub fn message(
    guild_id: Option<u64>,
    status: Status,
    text: String,
    config: &mut Config,
) -> (reply: CommandReply)
    ensures
        match registered_server(guild_id, old(config)) {
            Err(error) => *final(config) == *old(config) && reply.says(
                error.spec_message(),
                false,
            ),
            Ok(id) => {
                &&& server_set(
                    old(config),
                    final(config),
                    id,
                    match status {
                        Status::Up => ServerConfig {
                            up_message: text,
                            ..old(config).server_configs@[id]
                        },
                        Status::Down => ServerConfig {
                            down_message: text,
                            ..old(config).server_configs@[id]
                        },
                    },
                )
                &&& reply.says(
                    "Changed "@ + status.label() + " message to "@ + text@ + "!"@,
                    true,
                )
            },
        },
{
    let id = match get_server_config_entry(guild_id, config) {
        Ok(id) => id,
        Err(error) => {
            return CommandReply::text(error.message(), false);
        },
    };
    let mut server = settings_of(config, id);
    let mut answer = String::from_str("Changed ");
    match status {
        Status::Up => {
            answer.append("Up");
            answer.append(" message to ");
            answer.append(text.as_str());
            server.up_message = text;
        },
        Status::Down => {
            answer.append("Down");
            answer.append(" message to ");
            answer.append(text.as_str());
            server.down_message = text;
        },
    }
    answer.append("!");
    store_server(config, id, server);
    CommandReply::text(answer, true)
}

} // verus!
