//! Models pertaining to reaction roles.

use vstd::prelude::*;
use super::super::{Emoji, Error, Query};
use crate::text::same_text;

verus! {

/// A role that is given to whoever reacts to a message with an emoji.
#[derive(Debug, PartialEq)]
pub struct ReactionRole {
    guild_id: i64,
    message_id: i64,
    channel_id: i64,
    role_id: i64,
    emoji: Emoji,
}

impl ReactionRole {
    /// A reaction role as a row of the table holds it.
    pub fn new(
        guild_id: i64,
        message_id: i64,
        channel_id: i64,
        role_id: i64,
        emoji: Emoji,
    ) -> (row: ReactionRole)
        ensures
            row.spec_role_id() == role_id as u64,
            row.spec_emoji() == emoji,
    {
        ReactionRole { guild_id, message_id, channel_id, role_id, emoji }
    }

    pub closed spec fn spec_role_id(&self) -> u64 {
        self.role_id as u64
    }

    pub closed spec fn spec_emoji(&self) -> Emoji {
        self.emoji
    }

    /// The role id the reaction role pertains to.
    pub fn role_id(&self) -> (id: u64)
        ensures
            id == self.spec_role_id(),
    {
        #[verifier::truncate]
        (self.role_id as u64)
    }

    /// The statement that gets a `ReactionRole` by a message and the emoji.
    pub fn get(message_id: u64, emoji: &Emoji) -> (query: Query)
        ensures
            query == (Query::ReactionRole { message_id: message_id as i64, emoji: emoji.spec_as_i64() }),
    {
        Query::ReactionRole {
            message_id: #[verifier::truncate]
            (message_id as i64),
            emoji: emoji.as_i64(),
        }
    }
}

/// A message that reaction roles are attached to.
#[derive(Debug, PartialEq)]
pub struct Message {
    guild_id: u64,
    message_id: u64,
    channel_id: u64,
}

impl Message {
    pub closed spec fn spec_guild_id(&self) -> u64 {
        self.guild_id
    }

    pub closed spec fn spec_message_id(&self) -> u64 {
        self.message_id
    }

    pub closed spec fn spec_channel_id(&self) -> u64 {
        self.channel_id
    }

    pub fn new(guild_id: u64, message_id: u64, channel_id: u64) -> (message: Message)
        ensures
            message.spec_guild_id() == guild_id,
            message.spec_message_id() == message_id,
            message.spec_channel_id() == channel_id,
    {
        Message { guild_id, message_id, channel_id }
    }

    /// The id of the message.
    pub fn message_id(&self) -> (id: u64)
        ensures
            id == self.spec_message_id(),
    {
        self.message_id
    }

    /// The statement that creates a new [`ReactionRole`] on this message.
    pub fn create(&self, role_id: u64, emoji: &Emoji) -> (query: Query)
        ensures
            query == (Query::CreateReactionRole {
                guild_id: self.spec_guild_id() as i64,
                message_id: self.spec_message_id() as i64,
                channel_id: self.spec_channel_id() as i64,
                role_id: role_id as i64,
                emoji: emoji.spec_as_i64(),
            }),
    {
        Query::CreateReactionRole {
            guild_id: #[verifier::truncate]
            (self.guild_id as i64),
            message_id: #[verifier::truncate]
            (self.message_id as i64),
            channel_id: #[verifier::truncate]
            (self.channel_id as i64),
            role_id: #[verifier::truncate]
            (role_id as i64),
            emoji: emoji.as_i64(),
        }
    }
}

/// Specialized error for [`Message::create`].
#[derive(Debug, PartialEq)]
pub enum CreateError {
    AlreadyExists,
    Other(Error),
}

impl CreateError {
    /// Whether a database failure is a violated unique constraint: the row
    /// that was to be created is already there.
    pub open spec fn is_unique_violation(err: &Error) -> bool {
        err.code matches Some(code) && code@ == "23505"@
    }

    /// Tells a reaction role that already exists from any other failure.
    pub fn from(err: Error) -> (error: CreateError)
        ensures
            error == (if CreateError::is_unique_violation(&err) {
                CreateError::AlreadyExists
            } else {
                CreateError::Other(err)
            }),
    {
        // 23505 is the code of unique_violation
        let unique = match &err.code {
            Some(code) => same_text(code.as_str(), "23505"),
            None => false,
        };
        if unique {
            CreateError::AlreadyExists
        } else {
            CreateError::Other(err)
        }
    }

    /// Whether the reaction role was refused because it already exists.
    pub fn already_exists(&self) -> (refused: bool)
        ensures
            refused == (self is AlreadyExists),
    {
        match self {
            CreateError::AlreadyExists => true,
            CreateError::Other(_) => false,
        }
    }

    /// The text of the error.
    pub fn message(&self) -> (text: String)
        ensures
            text@ == (match self {
                CreateError::AlreadyExists => "reaction role already exists"@,
                CreateError::Other(err) => err.message@,
            }),
    {
        match self {
            CreateError::AlreadyExists => String::from_str("reaction role already exists"),
            CreateError::Other(err) => err.message.clone(),
        }
    }
}

} // verus!
