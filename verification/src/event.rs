//! Gateway events, reduced to what the services read.
//!
//! Ids are plain `u64` snowflakes. An event that no service looks at is
//! [`Event::Other`].

use vstd::prelude::*;

verus! {

/// The emoji of a reaction as the gateway reports it.
#[derive(Debug, PartialEq)]
pub enum ReactionType {
    /// An emoji of a guild, known by its id.
    Custom { id: u64 },
    /// A unicode emoji, given by its text.
    Unicode { name: String },
}

/// A message that was posted.
#[derive(Debug, PartialEq)]
pub struct Message {
    /// The id of the author.
    pub author_id: u64,
    /// Whether the author is a bot.
    pub author_bot: bool,
    /// The guild the message was posted in, if it was posted in one.
    pub guild_id: Option<u64>,
}

/// A reaction that was added to or removed from a message.
#[derive(Debug, PartialEq)]
pub struct Reaction {
    pub channel_id: u64,
    pub emoji: ReactionType,
    /// The guild of the message, if it is in one.
    pub guild_id: Option<u64>,
    pub message_id: u64,
    /// The user who reacted.
    pub user_id: u64,
}

/// One option that a user filled in for a command.
#[derive(Debug, PartialEq)]
#[allow(inconsistent_fields)]
pub enum CommandDataOption {
    String { name: String, value: String },
    Integer { name: String, value: i64 },
    Boolean { name: String, value: bool },
    SubCommand { name: String, options: Vec<CommandDataOption> },
}

impl CommandDataOption {
    /// The name of the option, whatever its kind.
    pub open spec fn spec_name(&self) -> Seq<char> {
        match self {
            CommandDataOption::String { name, .. } => name@,
            CommandDataOption::Integer { name, .. } => name@,
            CommandDataOption::Boolean { name, .. } => name@,
            CommandDataOption::SubCommand { name, .. } => name@,
        }
    }

    /// The name of the kind of the option.
    pub open spec fn spec_kind(&self) -> &'static str {
        match self {
            CommandDataOption::String { .. } => "String",
            CommandDataOption::Integer { .. } => "Integer",
            CommandDataOption::Boolean { .. } => "Boolean",
            CommandDataOption::SubCommand { .. } => "SubCommand",
        }
    }

    pub fn name(&self) -> (name: &str)
        ensures
            name@ == self.spec_name(),
    {
        match self {
            CommandDataOption::String { name, .. } => name.as_str(),
            CommandDataOption::Integer { name, .. } => name.as_str(),
            CommandDataOption::Boolean { name, .. } => name.as_str(),
            CommandDataOption::SubCommand { name, .. } => name.as_str(),
        }
    }

    pub fn kind(&self) -> (kind: &'static str)
        ensures
            kind == self.spec_kind(),
    {
        match self {
            CommandDataOption::String { .. } => "String",
            CommandDataOption::Integer { .. } => "Integer",
            CommandDataOption::Boolean { .. } => "Boolean",
            CommandDataOption::SubCommand { .. } => "SubCommand",
        }
    }
}

/// A slash command that a user invoked.
#[derive(Debug, PartialEq)]
pub struct ApplicationCommand {
    /// The id of the interaction.
    pub id: u64,
    /// The token to respond with.
    pub token: String,
    /// The name of the command.
    pub name: String,
    /// The guild the command was used in, if it was used in one.
    pub guild_id: Option<u64>,
    /// The user behind the invoking guild member. Present when the command is
    /// used in a guild and the member carries its user.
    pub member_user: Option<u64>,
    /// The invoking user. Present when the command is used in a direct
    /// message.
    pub user: Option<u64>,
    /// The options the user filled in.
    pub options: Vec<CommandDataOption>,
}

/// An interaction with the application.
#[derive(Debug, PartialEq)]
pub enum Interaction {
    ApplicationCommand(ApplicationCommand),
    /// A ping or a message component.
    Other,
}

/// An event from the gateway.
#[derive(Debug, PartialEq)]
pub enum Event {
    InteractionCreate(Interaction),
    MessageCreate(Message),
    ReactionAdd(Reaction),
    ReactionRemove(Reaction),
    ShardConnected,
    ShardDisconnected,
    /// Any event that no service reads.
    Other,
}

impl Event {
    /// The guild an event happened in: the scope that waiters are matched by.
    pub open spec fn spec_guild_id(&self) -> Option<u64> {
        match self {
            Event::InteractionCreate(Interaction::ApplicationCommand(command)) => command.guild_id,
            Event::MessageCreate(message) => message.guild_id,
            Event::ReactionAdd(reaction) => reaction.guild_id,
            Event::ReactionRemove(reaction) => reaction.guild_id,
            _ => None,
        }
    }

    pub fn guild_id(&self) -> (guild_id: Option<u64>)
        ensures
            guild_id == self.spec_guild_id(),
    {
        match self {
            Event::InteractionCreate(Interaction::ApplicationCommand(command)) => command.guild_id,
            Event::MessageCreate(message) => message.guild_id,
            Event::ReactionAdd(reaction) => reaction.guild_id,
            Event::ReactionRemove(reaction) => reaction.guild_id,
            _ => None,
        }
    }
}

} // verus!
