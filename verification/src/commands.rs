//! The administration surface: what each command changes in the
//! configuration and what it answers. Talking to the chat service, reading
//! files and saving the state are the driver's.

pub mod config;
pub mod debug;
pub mod server;

use crate::config::{Config, ServerConfig};
use crate::embed::Colour;
use crate::embed::EmbedContent;
use crate::text::{decimal_nat, push_decimal};
use vstd::prelude::*;

verus! {

pub const MASTER_ONLY: &'static str =
    "This command can only be executed in the Master server (bot's host)";

pub const NOT_IN_SERVER: &'static str = "You need to be within a server to execute this command!";

pub const NOT_REGISTERED: &'static str =
    "Your server is not registered yet! Use */server register*!";

pub const ALREADY_REGISTERED: &'static str = "Your server is already registered!";

/// What a command answers with.
#[derive(Debug, Clone, PartialEq, Eq)]
pub enum ReplyBody {
    Nothing,
    Text(String),
    Embed(EmbedContent),
}

/// The answer of a command, and whether the state is to be saved after
/// it.
#[derive(Debug, Clone, PartialEq, Eq)]
pub struct CommandReply {
    pub body: ReplyBody,
    pub save: bool,
}

impl CommandReply {
    /// The reply is the text `text`, and the state is saved exactly if
    /// `save`.
    pub open spec fn says(&self, text: Seq<char>, save: bool) -> bool {
        &&& self.body matches ReplyBody::Text(body)
        &&& body@ == text
        &&& self.save == save
    }

    /// A reply of plain text.
    pub fn text(text: String, save: bool) -> (reply: CommandReply)
        ensures
            reply.says(text@, save),
    {
        CommandReply { body: ReplyBody::Text(text), save }
    }
}

/// Why a command cannot find the destination it is about.
#[derive(Debug, Clone, Copy, PartialEq, Eq, Structural)]
pub enum CommandError {
    /// The command was not given inside a server.
    NotInServer,
    /// The server is not registered.
    NotRegistered,
    /// The server is registered already.
    AlreadyRegistered,
}

impl CommandError {
    pub open spec fn spec_message(self) -> Seq<char> {
        match self {
            CommandError::NotInServer => NOT_IN_SERVER@,
            CommandError::NotRegistered => NOT_REGISTERED@,
            CommandError::AlreadyRegistered => ALREADY_REGISTERED@,
        }
    }

    /// The error as the user reads it.
    pub fn message(self) -> (text: String)
        ensures
            text@ == self.spec_message(),
    {
        match self {
            CommandError::NotInServer => String::from_str(NOT_IN_SERVER),
            CommandError::NotRegistered => String::from_str(NOT_REGISTERED),
            CommandError::AlreadyRegistered => String::from_str(ALREADY_REGISTERED),
        }
    }
}

/// The command comes from the master server.
pub open spec fn is_master(guild_id: Option<u64>, config: &Config) -> bool {
    guild_id is Some && config.master_server == guild_id
}

/// Whether the command comes from the master server. A command given
/// outside any server never does.
pub fn master_check(guild_id: Option<u64>, config: &Config) -> (master: bool)
    ensures
        master == is_master(guild_id, config),
{
    match guild_id {
        Some(id) => match config.master_server {
            Some(master) => id == master,
            None => false,
        },
        None => false,
    }
}

/// The registered server that a command is about.
pub open spec fn registered_server(guild_id: Option<u64>, config: &Config) -> Result<
    u64,
    CommandError,
> {
    match guild_id {
        Some(id) => if config.server_configs@.contains_key(id) {
            Ok(id)
        } else {
            Err(CommandError::NotRegistered)
        },
        None => Err(CommandError::NotInServer),
    }
}

/// The server that a command is about, which must be registered.
pub fn get_server_config_entry(guild_id: Option<u64>, config: &Config) -> (entry: Result<
    u64,
    CommandError,
>)
    ensures
        entry == registered_server(guild_id, config),
{
    match guild_id {
        Some(id) => {
            if config.server_configs.contains_key(&id) {
                Ok(id)
            } else {
                Err(CommandError::NotRegistered)
            }
        },
        None => Err(CommandError::NotInServer),
    }
}

/// The server that a command is about, which must not be registered yet.
pub fn get_server_config_vacant_entry(guild_id: Option<u64>, config: &Config) -> (entry: Result<
    u64,
    CommandError,
>)
    ensures
        entry == match guild_id {
            Some(id) => if config.server_configs@.contains_key(id) {
                Err::<u64, CommandError>(CommandError::AlreadyRegistered)
            } else {
                Ok::<u64, CommandError>(id)
            },
            None => Err::<u64, CommandError>(CommandError::NotInServer),
        },
{
    match guild_id {
        Some(id) => {
            if config.server_configs.contains_key(&id) {
                Err(CommandError::AlreadyRegistered)
            } else {
                Ok(id)
            }
        },
        None => Err(CommandError::NotInServer),
    }
}

/// `before`, then `middle`, then `after`.
pub fn framed(before: &str, middle: &str, after: &str) -> (text: String)
    ensures
        text@ == before@ + middle@ + after@,
{
    let mut text = String::from_str(before);
    text.append(middle);
    text.append(after);
    text
}

/// `before`, then the decimal numeral of `number`, then `after`.
pub fn framed_number(before: &str, number: u64, after: &str) -> (text: String)
    ensures
        text@ == before@ + decimal_nat(number as nat) + after@,
{
    let mut text = String::from_str(before);
    push_decimal(&mut text, number);
    text.append(after);
    text
}

/// Everything but the destinations is the same in both.
pub open spec fn only_servers_differ(before: &Config, after: &Config) -> bool {
    &&& after.master_server == before.master_server
    &&& after.max_servers == before.max_servers
    &&& after.ping_config == before.ping_config
}

/// The configuration after the destination `id` has been given the
/// settings `server`: that entry is replaced and nothing else changes.
pub open spec fn server_set(before: &Config, after: &Config, id: u64, server: ServerConfig) -> bool {
    &&& only_servers_differ(before, after)
    &&& after.server_configs@ == before.server_configs@.insert(id, server)
}

/// Puts `server` in the place of the destination `id`.
pub(crate) fn store_server(config: &mut Config, id: u64, server: ServerConfig)
    ensures
        server_set(old(config), final(config), id, server),
{
    config.server_configs.insert(id, server);
}

/// A copy of the settings of the registered destination `id`.
pub(crate) fn settings_of(config: &Config, id: u64) -> (server: ServerConfig)
    requires
        config.server_configs@.contains_key(id),
    ensures
        server == config.server_configs@[id],
{
    match config.server_configs.get(&id) {
        Some(server) => server.duplicate(),
        None => ServerConfig::default(),
    }
}

/// The colour of the embeds that commands answer with.
pub open spec fn spec_reply_colour() -> Colour {
    Colour { red: 45, green: 114, blue: 178 }
}

#[verifier::when_used_as_spec(spec_reply_colour)]
pub fn reply_colour() -> (colour: Colour)
    ensures
        colour == spec_reply_colour(),
{
    Colour { red: 45, green: 114, blue: 178 }
}

} // verus!
