//! Types to make chat commands less of a pain.

use vstd::prelude::*;
use crate::event::{ApplicationCommand, CommandDataOption};
use crate::text::{same_text, ParseIntError};
use super::{Response, ResponseType, ResponseView};

verus! {

/// An easy way to index into a chat input interaction's arguments.
pub struct Arguments<'a> {
    top: &'a ApplicationCommand,
    options: &'a [CommandDataOption],
}

/// An error returned by any of the `Arguments::get_*` functions.
#[derive(Debug, PartialEq)]
pub enum ArgError {
    InvalidType(&'static str),
    ParseInt(ParseIntError),
    Unresolved(u64),
}

/// The first of the options that has the name, if one has it.
pub open spec fn find_option(
    options: Seq<CommandDataOption>,
    name: Seq<char>,
) -> Option<CommandDataOption>
    decreases options.len(),
{
    if options.len() == 0 {
        None
    } else if options[0].spec_name() == name {
        Some(options[0])
    } else {
        find_option(options.skip(1), name)
    }
}

/// The id of the user that executed a command, as far as the command names
/// one: the user of the member comes before the user.
pub open spec fn spec_invoker(command: &ApplicationCommand) -> Option<u64> {
    match command.member_user {
        Some(id) => Some(id),
        None => command.user,
    }
}

/// What asking a list of options for a string argument gives.
pub open spec fn spec_string_option(
    options: Seq<CommandDataOption>,
    name: Seq<char>,
) -> Result<Option<Seq<char>>, ArgError> {
    match find_option(options, name) {
        None => Ok(None),
        Some(CommandDataOption::String { value, .. }) => Ok(Some(value@)),
        Some(other) => Err(ArgError::InvalidType(other.spec_kind())),
    }
}

/// What asking a list of options for a subcommand gives: the options of the
/// subcommand.
pub open spec fn spec_subcommand(
    options: Seq<CommandDataOption>,
    name: Seq<char>,
) -> Result<Option<Seq<CommandDataOption>>, ArgError> {
    match find_option(options, name) {
        None => Ok(None),
        Some(CommandDataOption::SubCommand { options, .. }) => Ok(Some(options@)),
        Some(other) => Err(ArgError::InvalidType(other.spec_kind())),
    }
}

impl<'a> Arguments<'a> {
    /// The command that the arguments belong to.
    pub closed spec fn command(&self) -> ApplicationCommand {
        *self.top
    }

    /// The options that the arguments index into: those of the command, or
    /// those of one of its subcommands.
    pub closed spec fn options(&self) -> Seq<CommandDataOption> {
        self.options@
    }

    /// The id of the user that executed the interaction, as far as the
    /// command names one: the user of the member comes before the user.
    pub open spec fn spec_user_id(&self) -> Option<u64> {
        spec_invoker(&self.command())
    }

    /// What asking for a string argument gives.
    pub open spec fn spec_get_string(&self, name: Seq<char>) -> Result<Option<Seq<char>>, ArgError> {
        spec_string_option(self.options(), name)
    }

    /// What asking for a subcommand gives.
    pub open spec fn spec_get_subcommand(
        &self,
        name: Seq<char>,
    ) -> Result<Option<Seq<CommandDataOption>>, ArgError> {
        spec_subcommand(self.options(), name)
    }

    /// Create a new `Arguments`.
    pub fn new(top: &'a ApplicationCommand) -> (args: Arguments<'a>)
        ensures
            args.command() == *top,
            args.options() == top.options@,
    {
        Arguments { top, options: top.options.as_slice() }
    }

    /// The command that the arguments belong to.
    pub fn top(&self) -> (top: &'a ApplicationCommand)
        ensures
            *top == self.command(),
    {
        self.top
    }

    /// The name of the command.
    pub fn name(&self) -> (name: &'a str)
        ensures
            name@ == self.command().name@,
    {
        self.top.name.as_str()
    }

    /// The interaction's token.
    pub fn token(&self) -> (token: &'a str)
        ensures
            token@ == self.command().token@,
    {
        self.top.token.as_str()
    }

    /// The id of the interaction.
    pub fn id(&self) -> (id: u64)
        ensures
            id == self.command().id,
    {
        self.top.id
    }

    /// The guild id of the interaction.
    pub fn guild_id(&self) -> (guild_id: Option<u64>)
        ensures
            guild_id == self.command().guild_id,
    {
        self.top.guild_id
    }

    /// Whether the command names the user that executed it.
    pub fn has_user(&self) -> (has: bool)
        ensures
            has == self.spec_user_id().is_some(),
    {
        self.top.member_user.is_some() || self.top.user.is_some()
    }

    /// The id of the user that executed the interaction.
    pub fn user_id(&self) -> (id: u64)
        requires
            self.spec_user_id().is_some(),
        ensures
            Some(id) == self.spec_user_id(),
    {
        match self.top.member_user {
            Some(id) => id,
            None => self.top.user.unwrap(),
        }
    }

    /// Gets a subcommand, if it exists.
    pub fn get_subcommand(&self, name: &str) -> (sub: Result<Option<Arguments<'a>>, ArgError>)
        ensures
            match (sub, self.spec_get_subcommand(name@)) {
                (Ok(None), Ok(None)) => true,
                (Ok(Some(args)), Ok(Some(options))) => args.command() == self.command()
                    && args.options() == options,
                (Err(error), Err(spec_error)) => error == spec_error,
                _ => false,
            },
    {
        match self.get(name) {
            None => Ok(None),
            Some(CommandDataOption::SubCommand { options, .. }) => Ok(
                Some(Arguments { top: self.top, options: options.as_slice() }),
            ),
            Some(opt) => Err(ArgError::InvalidType(opt.kind())),
        }
    }

    /// Gets a string argument.
    pub fn get_string(&self, name: &str) -> (value: Result<Option<&'a str>, ArgError>)
        ensures
            match (value, self.spec_get_string(name@)) {
                (Ok(None), Ok(None)) => true,
                (Ok(Some(text)), Ok(Some(spec_text))) => text@ == spec_text,
                (Err(error), Err(spec_error)) => error == spec_error,
                _ => false,
            },
    {
        match self.get(name) {
            None => Ok(None),
            Some(CommandDataOption::String { value, .. }) => Ok(Some(value.as_str())),
            Some(opt) => Err(ArgError::InvalidType(opt.kind())),
        }
    }

    /// Starts building a [`Response`].
    pub fn respond(&self) -> (response: Response)
        ensures
            response@ == ResponseView::new(self.command().id, self.command().token@, ResponseType::Initial),
    {
        Response::new(self.top.id, self.top.token.as_str(), ResponseType::Initial)
    }

    /// Starts building a [`Response`] for a followup.
    pub fn followup(&self) -> (response: Response)
        ensures
            response@ == ResponseView::new(self.command().id, self.command().token@, ResponseType::Followup),
    {
        Response::new(self.top.id, self.top.token.as_str(), ResponseType::Followup)
    }

    fn get(&self, name: &str) -> (found: Option<&'a CommandDataOption>)
        ensures
            match (found, find_option(self.options(), name@)) {
                (None, None) => true,
                (Some(option), Some(spec_option)) => *option == spec_option,
                _ => false,
            },
    {
        let options = self.options;
        let mut i: usize = 0;
        assert(options@.skip(0) =~= options@);
        while i < options.len()
            invariant
                i <= options@.len(),
                options@ == self.options(),
                find_option(self.options(), name@) == find_option(options@.skip(i as int), name@),
            decreases options@.len() - i,
        {
            let option = &options[i];
            if same_text(option.name(), name) {
                return Some(option);
            }
            assert(options@.skip(i as int).skip(1) =~= options@.skip(i + 1));
            i = i + 1;
        }
        None
    }
}

impl ArgError {
    /// The text of the error.
    pub open spec fn spec_message(&self) -> Seq<char> {
        match self {
            ArgError::InvalidType(ty) => "unexpected type "@ + ty@,
            ArgError::ParseInt(err) => match err {
                ParseIntError::Empty => "cannot parse integer from empty string"@,
                ParseIntError::InvalidDigit => "invalid digit found in string"@,
                ParseIntError::PosOverflow => "number too large to fit in target type"@,
            },
            ArgError::Unresolved(id) => "unresolved id: "@ + crate::text::decimal(*id as nat),
        }
    }

    pub fn message(&self) -> (text: String)
        ensures
            text@ == self.spec_message(),
    {
        match self {
            ArgError::InvalidType(ty) => String::from_str("unexpected type ").concat(ty),
            ArgError::ParseInt(err) => String::from_str(err.message()),
            ArgError::Unresolved(id) => {
                let mut text = String::from_str("unresolved id: ");
                crate::text::push_decimal(&mut text, *id);
                text
            },
        }
    }

    pub fn from(err: ParseIntError) -> (error: ArgError)
        ensures
            error == ArgError::ParseInt(err),
    {
        ArgError::ParseInt(err)
    }
}

} // verus!
