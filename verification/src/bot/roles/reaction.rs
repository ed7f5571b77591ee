//! Reaction role services.

use vstd::prelude::*;
use crate::command::chat::Arguments;
use crate::command::{Response, ResponseType, ResponseView};
use crate::event::{Event, Interaction, Reaction};
use crate::model::roles::reaction::{CreateError, Message, ReactionRole};
use crate::model::{Emoji, Query};
use crate::service::wait::{Predicate, WaitState, Waiter};
use crate::service::{finish, spec_finish, Failure, Flow, Reply, Request, RequestView, Service, Step, StepView};
use crate::text::{mention_role, parse_u64, same_text, spec_mention_role, spec_parse_u64};

verus! {

/// The error code with which the chat platform refuses what the bot lacks the
/// permissions for.
pub const PERMISSIONS_LACKING: u64 = 50013;

/// The seconds that a user has to react after `/reactionroles add`.
pub const REACTION_TIMEOUT: u64 = 60;

/// Whether a role is given or taken away.
#[derive(Clone, Copy, Debug, PartialEq, Eq, Structural)]
pub enum RoleChange {
    Add,
    Remove,
}

impl RoleChange {
    /// The reason that the change is made with.
    pub open spec fn spec_reason(&self) -> &'static str {
        match self {
            RoleChange::Add => "reaction role add",
            RoleChange::Remove => "reaction role remove",
        }
    }

    /// The request that changes the roles of a member.
    pub open spec fn spec_request(&self, guild_id: u64, user_id: u64, role_id: u64) -> RequestView {
        match self {
            RoleChange::Add => RequestView::AddRole { guild_id, user_id, role_id, reason: self.spec_reason() },
            RoleChange::Remove => RequestView::RemoveRole {
                guild_id,
                user_id,
                role_id,
                reason: self.spec_reason(),
            },
        }
    }

    pub fn request(&self, guild_id: u64, user_id: u64, role_id: u64) -> (request: Request)
        ensures
            request@ == self.spec_request(guild_id, user_id, role_id),
    {
        match self {
            RoleChange::Add => Request::AddRole { guild_id, user_id, role_id, reason: "reaction role add" },
            RoleChange::Remove => Request::RemoveRole {
                guild_id,
                user_id,
                role_id,
                reason: "reaction role remove",
            },
        }
    }
}

/// Reaction role service.
///
/// Gives a role to whoever adds the reaction of a reaction role to its
/// message, and takes the role away from whoever removes the reaction.
pub struct ReactionRoles {}

/// Where the work on one reaction stands.
#[derive(Debug, PartialEq)]
pub enum ReactionRolesState {
    /// The reaction role of the message and the emoji was asked for.
    Lookup { guild_id: u64, user_id: u64, change: RoleChange },
    /// The change of the member's roles was asked for.
    Change,
}

impl ReactionRoles {
    /// The statement that finds the reaction role of a reaction, where the
    /// reaction has an emoji.
    pub open spec fn spec_get_reaction_role(reaction: &Reaction) -> Option<Query> {
        match Emoji::spec_try_from(reaction.emoji) {
            Some(emoji) => Some(
                Query::ReactionRole { message_id: reaction.message_id as i64, emoji: emoji.spec_as_i64() },
            ),
            None => None,
        }
    }

    /// What a reaction starts. A reaction outside of a guild is passed over;
    /// for any other the reaction role of its message and emoji is looked up.
    pub open spec fn spec_reaction(reaction: &Reaction, change: RoleChange) -> StepView<ReactionRolesState> {
        match reaction.guild_id {
            None => StepView::Done(Ok(())),
            Some(guild_id) => match Self::spec_get_reaction_role(reaction) {
                Some(query) => StepView::Ask(
                    RequestView::Query(query),
                    ReactionRolesState::Lookup { guild_id, user_id: reaction.user_id, change },
                ),
                None => StepView::Done(Err(Failure::EmojiMissing)),
            },
        }
    }

    /// What an event starts: an added reaction may give a role, a removed one
    /// may take it away, and no other event starts anything.
    pub open spec fn spec_handle(ev: &Event) -> StepView<ReactionRolesState> {
        match ev {
            Event::ReactionAdd(reaction) => Self::spec_reaction(reaction, RoleChange::Add),
            Event::ReactionRemove(reaction) => Self::spec_reaction(reaction, RoleChange::Remove),
            _ => StepView::Done(Ok(())),
        }
    }

    pub fn new() -> (service: ReactionRoles) {
        ReactionRoles {  }
    }

    fn reaction_add(&self, reaction: &Reaction) -> (step: Step<ReactionRolesState>)
        ensures
            step@ == Self::spec_reaction(reaction, RoleChange::Add),
    {
        let guild_id = match reaction.guild_id {
            Some(id) => id,
            // if we are not in a guild, silently discard the reaction event
            None => return Step::Done(Ok(())),
        };
        match self.get_reaction_role(reaction) {
            Some(query) => Step::Ask(
                Request::Query(query),
                ReactionRolesState::Lookup { guild_id, user_id: reaction.user_id, change: RoleChange::Add },
            ),
            None => Step::Done(Err(Failure::EmojiMissing)),
        }
    }

    fn reaction_remove(&self, reaction: &Reaction) -> (step: Step<ReactionRolesState>)
        ensures
            step@ == Self::spec_reaction(reaction, RoleChange::Remove),
    {
        let guild_id = match reaction.guild_id {
            Some(id) => id,
            // if we are not in a guild, silently discard the reaction event
            None => return Step::Done(Ok(())),
        };
        match self.get_reaction_role(reaction) {
            Some(query) => Step::Ask(
                Request::Query(query),
                ReactionRolesState::Lookup { guild_id, user_id: reaction.user_id, change: RoleChange::Remove },
            ),
            None => Step::Done(Err(Failure::EmojiMissing)),
        }
    }

    fn get_reaction_role(&self, reaction: &Reaction) -> (query: Option<Query>)
        ensures
            query == Self::spec_get_reaction_role(reaction),
    {
        let message_id = reaction.message_id;
        match Emoji::try_from(&reaction.emoji) {
            // find the related reaction role
            Some(emoji) => Some(ReactionRole::get(message_id, &emoji)),
            None => None,
        }
    }
}

impl Service for ReactionRoles {
    type Work = Step<ReactionRolesState>;

    open spec fn handlers(&self) -> nat {
        1
    }

    open spec fn handles(&self, ev: &Event, after: &Self, work: &Self::Work) -> bool {
        work@ == Self::spec_handle(ev) && *after == *self
    }

    fn handle(&mut self, ev: &Event) -> (work: Self::Work) {
        match ev {
            Event::ReactionAdd(reaction) => self.reaction_add(reaction),
            Event::ReactionRemove(reaction) => self.reaction_remove(reaction),
            _ => Step::Done(Ok(())),
        }
    }
}

impl Flow for ReactionRolesState {
    /// A reaction that belongs to a reaction role changes the roles of the
    /// member who reacted; any other is a normal reaction. A change that the
    /// platform refuses for lack of permissions is passed over in silence.
    open spec fn next(self, reply: Reply) -> StepView<Self> {
        match self {
            ReactionRolesState::Lookup { guild_id, user_id, change } => match reply {
                Reply::ReactionRole(Some(rr)) => StepView::Ask(
                    change.spec_request(guild_id, user_id, rr.spec_role_id()),
                    ReactionRolesState::Change,
                ),
                Reply::ReactionRole(None) => StepView::Done(Ok(())),
                Reply::Database(err) => StepView::Done(Err(Failure::Database(err))),
                _ => StepView::Done(Err(Failure::Unexpected)),
            },
            ReactionRolesState::Change => match reply {
                Reply::Done => StepView::Done(Ok(())),
                Reply::Http(err) => if err.code == Some(PERMISSIONS_LACKING) {
                    StepView::Done(Ok(()))
                } else {
                    StepView::Done(Err(Failure::Http(err)))
                },
                _ => StepView::Done(Err(Failure::Unexpected)),
            },
        }
    }

    open spec fn requests_left(&self) -> nat {
        match self {
            ReactionRolesState::Lookup { .. } => 1,
            ReactionRolesState::Change => 0,
        }
    }

    fn resume(self, reply: Reply) -> (step: Step<Self>) {
        match self {
            ReactionRolesState::Lookup { guild_id, user_id, change } => match reply {
                // this is a reaction for a role!
                Reply::ReactionRole(Some(rr)) => Step::Ask(
                    change.request(guild_id, user_id, rr.role_id()),
                    ReactionRolesState::Change,
                ),
                // this is just a normal reaction
                Reply::ReactionRole(None) => Step::Done(Ok(())),
                Reply::Database(err) => Step::Done(Err(Failure::Database(err))),
                _ => Step::Done(Err(Failure::Unexpected)),
            },
            ReactionRolesState::Change => match reply {
                Reply::Done => Step::Done(Ok(())),
                Reply::Http(err) => {
                    let lacking = match err.code {
                        // silently discard permissions lacking errors
                        Some(code) => code == PERMISSIONS_LACKING,
                        None => false,
                    };
                    if lacking {
                        Step::Done(Ok(()))
                    } else {
                        Step::Done(Err(Failure::Http(err)))
                    }
                },
                _ => Step::Done(Err(Failure::Unexpected)),
            },
        }
    }
}

/// Allows easy creation of reaction roles.
///
/// `/reactionroles add` asks its user to react to a message, waits a minute
/// for that reaction, and makes the role of the command the reaction role of
/// the message and the emoji that the user reacted with.
pub struct CreateReactionRole {}

/// Where the work on one `/reactionroles add` stands.
#[derive(Debug, PartialEq)]
pub enum CreateReactionRoleState {
    /// The user was asked to react.
    Prompted { id: u64, token: String, guild_id: u64, user_id: u64, role_id: u64 },
    /// The reaction of the user is waited for.
    Waiting { id: u64, token: String, guild_id: u64, role_id: u64 },
    /// The reaction role was handed to the database.
    Creating { id: u64, token: String, role_id: u64, message_id: u64, emoji: Emoji },
    /// The reaction role that stands in the way was asked for.
    Existing { id: u64, token: String, emoji: Emoji },
    /// The last message to the user was sent.
    Closing,
}

/// What the user is asked to do.
pub const PROMPT: &'static str =
    "react with the emoji of your choice to the message of your choice to set up the reaction role!. \u{26a0}\u{fe0f} this will expire in a minute!";

/// What the user is told when the minute has passed.
pub const EXPIRED: &'static str = "request has expired! try `/reactionroles add` again to continue";

/// What the user is told once the reaction role is set up.
pub open spec fn spec_created_notice(role_id: u64, emoji: Emoji) -> Seq<char> {
    "reaction role set up!\ni will now give the "@ + spec_mention_role(role_id)
        + " role to anyone who reacts with "@ + emoji.spec_text() + " to that message!"@
}

/// What the user is told when the message has a reaction role for the emoji
/// already.
pub open spec fn spec_exists_notice(role_id: u64, emoji: Emoji) -> Seq<char> {
    "a reaction role that gives "@ + spec_mention_role(role_id) + " has already been set up for the emoji "@
        + emoji.spec_text() + "! try removing it first!"@
}

/// The request that sends an ephemeral follow-up message.
pub open spec fn spec_followup(id: u64, token: Seq<char>, content: Seq<char>) -> RequestView {
    ResponseView::new(id, token, ResponseType::Followup).content(content).ephemeral().exec()
}

fn followup(id: u64, token: &String, content: String) -> (request: Request)
    ensures
        request@ == spec_followup(id, token@, content@),
{
    Response::new(id, token.as_str(), ResponseType::Followup).content(content).ephemeral().exec()
}

fn created_notice(role_id: u64, emoji: &Emoji) -> (content: String)
    ensures
        content@ == spec_created_notice(role_id, *emoji),
{
    let mut content = String::from_str("reaction role set up!\ni will now give the ");
    content.append(mention_role(role_id).as_str());
    content.append(" role to anyone who reacts with ");
    emoji.push_to(&mut content);
    content.append(" to that message!");
    content
}

fn exists_notice(role_id: u64, emoji: &Emoji) -> (content: String)
    ensures
        content@ == spec_exists_notice(role_id, *emoji),
{
    let mut content = String::from_str("a reaction role that gives ");
    content.append(mention_role(role_id).as_str());
    content.append(" has already been set up for the emoji ");
    emoji.push_to(&mut content);
    content.append("! try removing it first!");
    content
}

impl CreateReactionRole {
    /// What an event starts: the subcommand `add` of the command
    /// `reactionroles` starts the set-up of a reaction role, and nothing else
    /// starts anything.
    pub open spec fn spec_handle(ev: &Event) -> StepView<CreateReactionRoleState> {
        match ev {
            Event::InteractionCreate(Interaction::ApplicationCommand(cmd)) => {
                if cmd.name@ == "reactionroles"@ {
                    match crate::command::chat::find_option(cmd.options@, "add"@) {
                        None => StepView::Done(Ok(())),
                        Some(crate::event::CommandDataOption::SubCommand { options, .. }) => {
                            Self::spec_add(cmd, options@)
                        },
                        Some(other) => StepView::Done(
                            Err(Failure::Argument(crate::command::chat::ArgError::InvalidType(other.spec_kind()))),
                        ),
                    }
                } else {
                    StepView::Done(Ok(()))
                }
            },
            _ => StepView::Done(Ok(())),
        }
    }

    /// What the subcommand `add` starts, given its own options: the command
    /// must come from a guild, name its user and carry the id of a role, and
    /// then its user is asked to react.
    pub open spec fn spec_add(
        cmd: &crate::event::ApplicationCommand,
        options: Seq<crate::event::CommandDataOption>,
    ) -> StepView<CreateReactionRoleState> {
        match cmd.guild_id {
            None => StepView::Done(Err(Failure::GuildMissing)),
            Some(guild_id) => match crate::command::chat::spec_invoker(cmd) {
                None => StepView::Done(Err(Failure::UserMissing)),
                Some(user_id) => match crate::command::chat::spec_string_option(options, "role"@) {
                    Err(err) => StepView::Done(Err(Failure::Argument(err))),
                    Ok(None) => StepView::Done(Err(Failure::RoleMissing)),
                    Ok(Some(text)) => match spec_parse_u64(text) {
                        Err(err) => StepView::Done(Err(Failure::ParseInt(err))),
                        Ok(role_id) => StepView::Ask(
                            ResponseView::new(cmd.id, cmd.token@, ResponseType::Initial).content(
                                PROMPT@,
                            ).ephemeral().exec(),
                            CreateReactionRoleState::Prompted {
                                id: cmd.id,
                                token: cmd.token,
                                guild_id,
                                user_id,
                                role_id,
                            },
                        ),
                    },
                },
            },
        }
    }

    pub fn new() -> (service: CreateReactionRole) {
        CreateReactionRole {  }
    }

    fn command(&self, command: Arguments<'_>) -> (step: Step<CreateReactionRoleState>)
        ensures
            step@ == Self::spec_add(&command.command(), command.options()),
    {
        let guild_id = match command.guild_id() {
            Some(guild_id) => guild_id,
            None => return Step::Done(Err(Failure::GuildMissing)),
        };
        if !command.has_user() {
            return Step::Done(Err(Failure::UserMissing));
        }
        let user_id = command.user_id();
        let role = match command.get_string("role") {
            Ok(Some(role)) => role,
            Ok(None) => return Step::Done(Err(Failure::RoleMissing)),
            Err(err) => return Step::Done(Err(Failure::Argument(err))),
        };
        let role_id = match parse_u64(role) {
            Ok(role_id) => role_id,
            Err(err) => return Step::Done(Err(Failure::ParseInt(err))),
        };
        // create a response
        let request = command.respond().content(String::from_str(PROMPT)).ephemeral().exec();
        Step::Ask(
            request,
            CreateReactionRoleState::Prompted {
                id: command.id(),
                token: command.top().token.clone(),
                guild_id,
                user_id,
                role_id,
            },
        )
    }
}

impl Service for CreateReactionRole {
    type Work = Step<CreateReactionRoleState>;

    open spec fn handlers(&self) -> nat {
        1
    }

    open spec fn handles(&self, ev: &Event, after: &Self, work: &Self::Work) -> bool {
        work@ == Self::spec_handle(ev) && *after == *self
    }

    fn handle(&mut self, ev: &Event) -> (work: Self::Work) {
        match ev {
            Event::InteractionCreate(Interaction::ApplicationCommand(cmd)) => {
                let args = Arguments::new(cmd);
                if same_text(args.name(), "reactionroles") {
                    match args.get_subcommand("add") {
                        Ok(Some(args)) => self.command(args),
                        Ok(None) => Step::Done(Ok(())),
                        Err(err) => Step::Done(Err(Failure::Argument(err))),
                    }
                } else {
                    Step::Done(Ok(()))
                }
            },
            _ => Step::Done(Ok(())),
        }
    }
}

impl CreateReactionRoleState {
    /// How the wait for the reaction goes on: with the reaction role of the
    /// message and the emoji that the user reacted with, or with the notice
    /// that the request has expired.
    pub open spec fn spec_waited(
        id: u64,
        token: String,
        guild_id: u64,
        role_id: u64,
        waiter: Waiter,
    ) -> StepView<CreateReactionRoleState> {
        match waiter.state {
            WaitState::TimedOut => StepView::Ask(
                spec_followup(id, token@, EXPIRED@),
                CreateReactionRoleState::Closing,
            ),
            WaitState::Fulfilled(Event::ReactionAdd(reaction)) => match Emoji::spec_try_from(reaction.emoji) {
                Some(emoji) => StepView::Ask(
                    RequestView::Query(
                        Query::CreateReactionRole {
                            guild_id: guild_id as i64,
                            message_id: reaction.message_id as i64,
                            channel_id: reaction.channel_id as i64,
                            role_id: role_id as i64,
                            emoji: emoji.spec_as_i64(),
                        },
                    ),
                    CreateReactionRoleState::Creating { id, token, role_id, message_id: reaction.message_id, emoji },
                ),
                None => StepView::Done(Err(Failure::EmojiMissing)),
            },
            WaitState::Cancelled => StepView::Done(Err(Failure::Canceled)),
            _ => StepView::Done(Err(Failure::Unexpected)),
        }
    }

    fn waited(
        id: u64,
        token: String,
        guild_id: u64,
        role_id: u64,
        waiter: Waiter,
    ) -> (step: Step<CreateReactionRoleState>)
        ensures
            step@ == Self::spec_waited(id, token, guild_id, role_id, waiter),
    {
        match waiter.state {
            WaitState::TimedOut => {
                // send expiration message
                let request = followup(id, &token, String::from_str(EXPIRED));
                Step::Ask(request, CreateReactionRoleState::Closing)
            },
            WaitState::Fulfilled(Event::ReactionAdd(reaction)) => {
                match Emoji::try_from(&reaction.emoji) {
                    Some(emoji) => {
                        // cool! we now have everything needed to create a rr!
                        let message = Message::new(guild_id, reaction.message_id, reaction.channel_id);
                        Step::Ask(
                            Request::Query(message.create(role_id, &emoji)),
                            CreateReactionRoleState::Creating {
                                id,
                                token,
                                role_id,
                                message_id: reaction.message_id,
                                emoji,
                            },
                        )
                    },
                    None => Step::Done(Err(Failure::EmojiMissing)),
                }
            },
            WaitState::Cancelled => Step::Done(Err(Failure::Canceled)),
            _ => Step::Done(Err(Failure::Unexpected)),
        }
    }
}

impl Flow for CreateReactionRoleState {
    open spec fn next(self, reply: Reply) -> StepView<Self> {
        match self {
            CreateReactionRoleState::Prompted { id, token, guild_id, user_id, role_id } => match reply {
                Reply::Done => StepView::Ask(
                    RequestView::Wait(
                        Waiter {
                            scope: guild_id,
                            predicate: Predicate::ReactionBy { user_id },
                            timeout: REACTION_TIMEOUT,
                            state: WaitState::Created,
                        },
                    ),
                    CreateReactionRoleState::Waiting { id, token, guild_id, role_id },
                ),
                Reply::Http(err) => StepView::Done(Err(Failure::Http(err))),
                _ => StepView::Done(Err(Failure::Unexpected)),
            },
            CreateReactionRoleState::Waiting { id, token, guild_id, role_id } => match reply {
                Reply::Waited(waiter) => Self::spec_waited(id, token, guild_id, role_id, waiter),
                _ => StepView::Done(Err(Failure::Unexpected)),
            },
            CreateReactionRoleState::Creating { id, token, role_id, message_id, emoji } => match reply {
                Reply::Done => StepView::Ask(
                    spec_followup(id, token@, spec_created_notice(role_id, emoji)),
                    CreateReactionRoleState::Closing,
                ),
                Reply::Rows(_) => StepView::Ask(
                    spec_followup(id, token@, spec_created_notice(role_id, emoji)),
                    CreateReactionRoleState::Closing,
                ),
                Reply::Database(err) => if CreateError::is_unique_violation(&err) {
                    StepView::Ask(
                        RequestView::Query(
                            Query::ReactionRole { message_id: message_id as i64, emoji: emoji.spec_as_i64() },
                        ),
                        CreateReactionRoleState::Existing { id, token, emoji },
                    )
                } else {
                    StepView::Done(Err(Failure::Database(err)))
                },
                _ => StepView::Done(Err(Failure::Unexpected)),
            },
            CreateReactionRoleState::Existing { id, token, emoji } => match reply {
                Reply::ReactionRole(Some(rr)) => StepView::Ask(
                    spec_followup(id, token@, spec_exists_notice(rr.spec_role_id(), emoji)),
                    CreateReactionRoleState::Closing,
                ),
                Reply::ReactionRole(None) => StepView::Done(Err(Failure::ReactionRoleLost)),
                Reply::Database(err) => StepView::Done(Err(Failure::Database(err))),
                _ => StepView::Done(Err(Failure::Unexpected)),
            },
            CreateReactionRoleState::Closing => StepView::Done(spec_finish(reply)),
        }
    }

    open spec fn requests_left(&self) -> nat {
        match self {
            CreateReactionRoleState::Prompted { .. } => 4,
            CreateReactionRoleState::Waiting { .. } => 3,
            CreateReactionRoleState::Creating { .. } => 2,
            CreateReactionRoleState::Existing { .. } => 1,
            CreateReactionRoleState::Closing => 0,
        }
    }

    fn resume(self, reply: Reply) -> (step: Step<Self>) {
        match self {
            CreateReactionRoleState::Prompted { id, token, guild_id, user_id, role_id } => match reply {
                // wait for a reaction, or the timeout
                Reply::Done => Step::Ask(
                    Request::Wait(Waiter::new(guild_id, Predicate::ReactionBy { user_id }, REACTION_TIMEOUT)),
                    CreateReactionRoleState::Waiting { id, token, guild_id, role_id },
                ),
                Reply::Http(err) => Step::Done(Err(Failure::Http(err))),
                _ => Step::Done(Err(Failure::Unexpected)),
            },
            CreateReactionRoleState::Waiting { id, token, guild_id, role_id } => match reply {
                Reply::Waited(waiter) => Self::waited(id, token, guild_id, role_id, waiter),
                _ => Step::Done(Err(Failure::Unexpected)),
            },
            CreateReactionRoleState::Creating { id, token, role_id, message_id, emoji } => match reply {
                Reply::Done | Reply::Rows(_) => {
                    let request = followup(id, &token, created_notice(role_id, &emoji));
                    Step::Ask(request, CreateReactionRoleState::Closing)
                },
                Reply::Database(err) => match CreateError::from(err) {
                    CreateError::AlreadyExists => {
                        // get the existing reaction role
                        Step::Ask(
                            Request::Query(ReactionRole::get(message_id, &emoji)),
                            CreateReactionRoleState::Existing { id, token, emoji },
                        )
                    },
                    CreateError::Other(err) => Step::Done(Err(Failure::Database(err))),
                },
                _ => Step::Done(Err(Failure::Unexpected)),
            },
            CreateReactionRoleState::Existing { id, token, emoji } => match reply {
                Reply::ReactionRole(Some(rr)) => {
                    let request = followup(id, &token, exists_notice(rr.role_id(), &emoji));
                    Step::Ask(request, CreateReactionRoleState::Closing)
                },
                Reply::ReactionRole(None) => Step::Done(Err(Failure::ReactionRoleLost)),
                Reply::Database(err) => Step::Done(Err(Failure::Database(err))),
                _ => Step::Done(Err(Failure::Unexpected)),
            },
            CreateReactionRoleState::Closing => Step::Done(finish(reply)),
        }
    }
}

} // verus!
