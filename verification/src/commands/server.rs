//! Commands that keep the registry of destinations.

use crate::commands::{
    framed_number, get_server_config_vacant_entry, is_master, master_check, only_servers_differ,
    reply_colour, spec_reply_colour, CommandError, CommandReply, ReplyBody, MASTER_ONLY,
};
use crate::config::{Config, ServerConfig};
use crate::embed::{EmbedContent, EmbedField, EmbedFieldView};
use crate::order::{ascending, sorted_keys};
use crate::text::{decimal_nat, push_decimal};
use vstd::prelude::*;

verus! {

pub const REGISTERED: &'static str =
    "server registered! Do not forget to use */config role* and */config channgel*! Also consider using */config message*";

pub const ALL_REMOVED: &'static str = "All servers were removed!";

pub const MASTER_STAYS: &'static str = "You can not remove master server!";

pub const ID_NEEDED: &'static str = "You need to provide server ID, if you want to remove one!";

pub const SHOW_TITLE: &'static str = "Registered servers";

/// Which servers `remove` is to take out of the registry.
#[derive(Debug, Clone, Copy, PartialEq, Eq, Structural)]
pub enum RemovalOptions {
    All,
    One,
}

/// What `register` answers when the registry is full.
pub open spec fn registry_full(registered: nat, allowed: nat) -> Seq<char> {
    "There are already "@ + decimal_nat(registered) + " servers registered, and bot hoster allows only "@
        + decimal_nat(allowed) + " registrations. Contact them to increase this number!"@
}

/// The server that `register` would add.
pub open spec fn vacant_server(guild_id: Option<u64>, config: &Config) -> Result<u64, CommandError> {
    match guild_id {
        Some(id) => if config.server_configs@.contains_key(id) {
            Err(CommandError::AlreadyRegistered)
        } else {
            Ok(id)
        },
        None => Err(CommandError::NotInServer),
    }
}

/// Adds the server from which the command comes to the registry, under
/// `server_name` and with default settings, unless the registry is full or
/// the server is in it already.
pub fn register(guild_id: Option<u64>, server_name: String, config: &mut Config) -> (reply:
    CommandReply)
    ensures
        old(config).server_configs@.len() >= old(config).max_servers ==> *final(config) == *old(
            config,
        ) && reply.says(
            registry_full(old(config).server_configs@.len(), old(config).max_servers as nat),
            false,
        ),
        old(config).server_configs@.len() < old(config).max_servers ==> match vacant_server(
            guild_id,
            old(config),
        ) {
            Err(error) => *final(config) == *old(config) && reply.says(
                error.spec_message(),
                false,
            ),
            Ok(id) => {
                &&& only_servers_differ(old(config), final(config))
                &&& final(config).server_configs@ == old(config).server_configs@.insert(
                    id,
                    final(config).server_configs@[id],
                )
                &&& final(config).server_configs@[id]@ == ServerConfig::named(server_name@)
                &&& reply.says(REGISTERED@, true)
            },
        },
{
    let registered = config.server_configs.len();
    if registered >= config.max_servers {
        let mut text = String::from_str("There are already ");
        push_decimal(&mut text, registered as u64);
        text.append(" servers registered, and bot hoster allows only ");
        push_decimal(&mut text, config.max_servers as u64);
        text.append(" registrations. Contact them to increase this number!");
        return CommandReply::text(text, false);
    }
    let id = match get_server_config_vacant_entry(guild_id, config) {
        Ok(id) => id,
        Err(error) => {
            return CommandReply::text(error.message(), false);
        },
    };
    config.server_configs.insert(id, ServerConfig::with_name(server_name));
    CommandReply::text(String::from_str(REGISTERED), true)
}

/// Master only. Changes how many servers may be registered.
pub fn limit(guild_id: Option<u64>, max_servers: usize, config: &mut Config) -> (reply:
    CommandReply)
    ensures
        !is_master(guild_id, old(config)) ==> *final(config) == *old(config) && reply.says(
            MASTER_ONLY@,
            false,
        ),
        is_master(guild_id, old(config)) ==> {
            &&& final(config).max_servers == max_servers
            &&& final(config).master_server == old(config).master_server
            &&& final(config).ping_config == old(config).ping_config
            &&& final(config).server_configs == old(config).server_configs
            &&& reply.says(
                "Changed servers limit to "@ + decimal_nat(max_servers as nat) + "!"@,
                true,
            )
        },
{
    if !master_check(guild_id, config) {
        return CommandReply::text(String::from_str(MASTER_ONLY), false);
    }
    config.max_servers = max_servers;
    CommandReply::text(framed_number("Changed servers limit to ", max_servers as u64, "!"), true)
}

/// The line that `show` has for the server `id`.
pub open spec fn server_line(id: u64, server: ServerConfig) -> EmbedFieldView {
    EmbedFieldView { name: server.name@, value: decimal_nat(id as nat), inline: false }
}

/// Master only. Lists the registered servers, each with its name and its
/// identifier, in ascending order of identifier.
pub fn show(guild_id: Option<u64>, config: &Config) -> (reply: CommandReply)
    ensures
        !is_master(guild_id, config) ==> reply.says(MASTER_ONLY@, false),
        is_master(guild_id, config) ==> {
            &&& reply.save
            &&& reply.body matches ReplyBody::Embed(embed)
            &&& embed@.colour == spec_reply_colour()
            &&& embed@.title == SHOW_TITLE@
            &&& embed@.description is None
            &&& embed@.fields.len() == config.server_configs@.dom().len()
            &&& exists|ids: Seq<u64>|
                {
                    &&& ascending(ids)
                    &&& ids.to_set() == config.server_configs@.dom()
                    &&& ids.len() == embed@.fields.len()
                    &&& forall|i: int|
                        0 <= i < ids.len() ==> #[trigger] embed@.fields[i] == server_line(
                            ids[i],
                            config.server_configs@[ids[i]],
                        )
                }
        },
{
    if !master_check(guild_id, config) {
        return CommandReply::text(String::from_str(MASTER_ONLY), false);
    }
    let ids = sorted_keys(&config.server_configs);
    let mut fields: Vec<EmbedField> = Vec::new();
    let mut at: usize = 0;
    while at < ids.len()
        invariant
            at <= ids.len(),
            fields@.len() == at,
            ids@.to_set() == config.server_configs@.dom(),
            forall|i: int|
                0 <= i < at ==> (#[trigger] fields@[i])@ == server_line(
                    ids@[i],
                    config.server_configs@[ids@[i]],
                ),
        decreases ids.len() - at,
    {
        let id = ids[at];
        assert(ids@.to_set().contains(ids@[at as int]));
        match config.server_configs.get(&id) {
            Some(server) => {
                let mut value = String::new();
                push_decimal(&mut value, id);
                assert(value@ =~= decimal_nat(id as nat));
                fields.push(EmbedField { name: server.name.clone(), value, inline: false });
            },
            None => {
                assert(false);
            },
        }
        at = at + 1;
    }
    let embed = EmbedContent {
        colour: reply_colour(),
        title: String::from_str(SHOW_TITLE),
        description: None,
        fields,
    };
    proof {
        assert forall|i: int| 0 <= i < ids@.len() implies #[trigger] embed@.fields[i]
            == server_line(ids@[i], config.server_configs@[ids@[i]]) by {
            assert(embed@.fields[i] == embed.fields@[i]@);
        }
    }
    CommandReply { body: ReplyBody::Embed(embed), save: true }
}

/// The registry after every server but the master has been taken out.
pub open spec fn master_only_registry(master: u64, servers: Map<u64, ServerConfig>) -> Map<
    u64,
    ServerConfig,
> {
    if servers.contains_key(master) {
        Map::<u64, ServerConfig>::empty().insert(master, servers[master])
    } else {
        Map::<u64, ServerConfig>::empty()
    }
}

/// What `remove` answers when it has taken out the server `id`.
pub open spec fn removed_line(id: u64, server: ServerConfig) -> Seq<char> {
    "server "@ + server.name@ + " ("@ + decimal_nat(id as nat) + ") was removed!"@
}

/// Master only. Takes all servers but the master out of the registry, or
/// the one with the given identifier. The master server itself is never
/// removed. Removing a server that is not registered changes nothing and
/// answers nothing.
pub fn remove(
    guild_id: Option<u64>,
    options: RemovalOptions,
    id: Option<u64>,
    config: &mut Config,
) -> (reply: CommandReply)
    ensures
        only_servers_differ(old(config), final(config)),
        !is_master(guild_id, old(config)) ==> *final(config) == *old(config) && reply.says(
            MASTER_ONLY@,
            false,
        ),
        is_master(guild_id, old(config)) ==> match (options, id) {
            (RemovalOptions::All, _) => {
                &&& final(config).server_configs@ == master_only_registry(
                    guild_id->0,
                    old(config).server_configs@,
                )
                &&& reply.says(ALL_REMOVED@, true)
            },
            (RemovalOptions::One, None) => *final(config) == *old(config) && reply.says(
                ID_NEEDED@,
                false,
            ),
            (RemovalOptions::One, Some(target)) => if target == guild_id->0 {
                *final(config) == *old(config) && reply.says(MASTER_STAYS@, false)
            } else {
                &&& final(config).server_configs@ == old(config).server_configs@.remove(target)
                &&& reply.save
                &&& if old(config).server_configs@.contains_key(target) {
                    reply.says(removed_line(target, old(config).server_configs@[target]), true)
                } else {
                    reply.body is Nothing
                }
            },
        },
{
    if !master_check(guild_id, config) {
        return CommandReply::text(String::from_str(MASTER_ONLY), false);
    }
    let master = match guild_id {
        Some(master) => master,
        None => {
            return CommandReply::text(String::from_str(MASTER_ONLY), false);
        },
    };
    match options {
        RemovalOptions::All => {
            let kept = match config.server_configs.get(&master) {
                Some(server) => Some(server.duplicate()),
                None => None,
            };
            config.server_configs.clear();
            match kept {
                Some(server) => {
                    config.server_configs.insert(master, server);
                },
                None => {},
            }
            CommandReply::text(String::from_str(ALL_REMOVED), true)
        },
        RemovalOptions::One => match id {
            None => CommandReply::text(String::from_str(ID_NEEDED), false),
            Some(target) => {
                if target == master {
                    return CommandReply::text(String::from_str(MASTER_STAYS), false);
                }
                match config.server_configs.remove(&target) {
                    Some(server) => {
                        let mut text = String::from_str("server ");
                        text.append(server.name.as_str());
                        text.append(" (");
                        push_decimal(&mut text, target);
                        text.append(") was removed!");
                        CommandReply::text(text, true)
                    },
                    None => {
                        assert(config.server_configs@ =~= old(config).server_configs@);
                        CommandReply { body: ReplyBody::Nothing, save: true }
                    },
                }
            },
        },
    }
}

} // verus!
