//! The actual services used by the bot.

pub mod info;
pub mod roles;
pub mod xp;

use vstd::prelude::*;
use crate::text::{decimal, push_decimal};

verus! {

/// The link that invites the bot with the given application id to a guild.
pub open spec fn spec_invite_link(id: u64) -> Seq<char> {
    "https://discord.com/api/oauth2/authorize?client_id="@ + decimal(id as nat)
        + "&permissions=0&scope=bot%20applications.commands"@
}

/// Generates a bot invite link.
pub fn invite_link(id: u64) -> (link: String)
    ensures
        link@ == spec_invite_link(id),
{
    let mut link = String::from_str("https://discord.com/api/oauth2/authorize?client_id=");
    push_decimal(&mut link, id);
    link.append("&permissions=0&scope=bot%20applications.commands");
    link
}

} // verus!
