//! What the bot keeps in its database, and the statements that read and
//! write it.

pub mod roles;
pub mod xp;

use vstd::prelude::*;
use crate::event::ReactionType;
use crate::text::{decimal, push_decimal};

verus! {

/// A failure of the database, as far as the bot reads it.
#[derive(Debug, PartialEq)]
pub struct Error {
    /// The code that the database gave for the failure, where it gave one.
    pub code: Option<String>,
    /// The text of the failure.
    pub message: String,
}

/// A statement against the database, with the values that it binds.
///
/// Ids are bound as the table's columns hold them: as `BIGINT`, with the bits
/// of the unsigned id.
#[derive(Debug, PartialEq)]
pub enum Query {
    /// The rows of a guild by descending score, `limit` of them after the
    /// first `offset`.
    Top { guild_id: i64, limit: i64, offset: i64 },
    /// The row of one user in a guild.
    Score { guild_id: i64, user_id: i64 },
    /// Adds `score` to the row of one user in a guild.
    AddScore { guild_id: i64, user_id: i64, score: i32 },
    /// Inserts the row of a user with its first score.
    InsertScore { guild_id: i64, user_id: i64, score: i32 },
    /// The reaction role of a message and an emoji.
    ReactionRole { message_id: i64, emoji: i64 },
    /// Inserts a reaction role.
    CreateReactionRole { guild_id: i64, message_id: i64, channel_id: i64, role_id: i64, emoji: i64 },
}

/// An emoji as it is stored in a record.
///
/// A reaction's emoji may be a unicode character or a custom emoji of a guild,
/// so it is kept in one `BIGINT` column, with one bit that tells the two apart.
#[derive(Clone, Copy, Debug, PartialEq)]
pub enum Emoji {
    Unicode(char),
    Custom(u64),
}

/// The mask of the bit that marks a stored emoji as a custom one.
pub const CUSTOM_MASK: u64 = 0x80;

/// Why a stored emoji could not be read back.
#[derive(Debug, PartialEq, Eq, Structural)]
pub enum DecodeError {
    /// The column holds no unicode scalar value.
    InvalidCodepoint,
}

/// Whether `code` is a unicode scalar value.
pub open spec fn is_scalar_value(code: u32) -> bool {
    code <= 0xD7FF || 0xE000 <= code <= 0x10FFFF
}

/// `char::from_u32` gives the character of a unicode scalar value, and `None`
/// for any other number.
pub assume_specification[ char::from_u32 ](code: u32) -> (ch: Option<char>)
    ensures
        ch == (if is_scalar_value(code) { Some(code as char) } else { None }),
;

impl Emoji {
    /// The column value of an emoji: the code point of a unicode emoji, or the
    /// id of a custom one with the marker bit set.
    pub open spec fn spec_as_i64(&self) -> i64 {
        match self {
            Emoji::Custom(id) => (*id | CUSTOM_MASK) as i64,
            Emoji::Unicode(ch) => *ch as i64,
        }
    }

    /// The emoji that a column value stands for. The marker bit decides; the
    /// low 32 bits of an unmarked value are read as a code point.
    pub open spec fn spec_decode(value: i64) -> Result<Emoji, DecodeError> {
        let data = value as u64;
        if data & CUSTOM_MASK != 0 {
            Ok(Emoji::Custom(data & !CUSTOM_MASK))
        } else if is_scalar_value(data as u32) {
            Ok(Emoji::Unicode((data as u32) as char))
        } else {
            Err(DecodeError::InvalidCodepoint)
        }
    }

    /// The emoji of a reaction: a custom emoji by its id, a unicode emoji by
    /// the first character of its name.
    pub open spec fn spec_from(reaction: ReactionType) -> Emoji {
        match reaction {
            ReactionType::Unicode { name } => Emoji::Unicode(name@[0]),
            ReactionType::Custom { id } => Emoji::Custom(id),
        }
    }

    /// The emoji of a reaction, where it has one: a unicode reaction without
    /// a name has none.
    pub open spec fn spec_try_from(reaction: ReactionType) -> Option<Emoji> {
        match reaction {
            ReactionType::Unicode { name } => if name@.len() == 0 {
                None
            } else {
                Some(Emoji::Unicode(name@[0]))
            },
            ReactionType::Custom { id } => Some(Emoji::Custom(id)),
        }
    }

    pub fn as_i64(&self) -> (value: i64)
        ensures
            value == self.spec_as_i64(),
    {
        match self {
            Emoji::Custom(id) => {
                let marked: u64 = *id | CUSTOM_MASK;
                #[verifier::truncate]
                (marked as i64)
            },
            Emoji::Unicode(ch) => *ch as i64,
        }
    }

    /// Reads an emoji back from its column value.
    pub fn decode(value: i64) -> (emoji: Result<Emoji, DecodeError>)
        ensures
            emoji == Emoji::spec_decode(value),
    {
        let data: u64 = #[verifier::truncate]
        (value as u64);
        if data & CUSTOM_MASK != 0 {
            Ok(Emoji::Custom(data & !CUSTOM_MASK))
        } else {
            let code: u32 = #[verifier::truncate]
            (data as u32);
            match char::from_u32(code) {
                Some(ch) => Ok(Emoji::Unicode(ch)),
                None => Err(DecodeError::InvalidCodepoint),
            }
        }
    }

    /// The emoji of a reaction. A unicode reaction carries the emoji as the
    /// first character of its name.
    pub fn from(reaction: &ReactionType) -> (emoji: Emoji)
        requires
            reaction matches ReactionType::Unicode { name } ==> name@.len() > 0,
        ensures
            emoji == Emoji::spec_from(*reaction),
    {
        match reaction {
            ReactionType::Unicode { name } => Emoji::Unicode(name.as_str().get_char(0)),
            ReactionType::Custom { id } => Emoji::Custom(*id),
        }
    }

    /// The emoji of a reaction, or `None` for a unicode reaction without a
    /// name.
    pub fn try_from(reaction: &ReactionType) -> (emoji: Option<Emoji>)
        ensures
            emoji == Emoji::spec_try_from(*reaction),
    {
        match reaction {
            ReactionType::Unicode { name } => {
                if name.as_str().unicode_len() == 0 {
                    None
                } else {
                    Some(Emoji::Unicode(name.as_str().get_char(0)))
                }
            },
            ReactionType::Custom { id } => Some(Emoji::Custom(*id)),
        }
    }

    /// The emoji as it is written in a message: a unicode emoji as itself, a
    /// custom one as a mention of its id.
    pub open spec fn spec_text(&self) -> Seq<char> {
        match self {
            Emoji::Unicode(ch) => seq![*ch],
            Emoji::Custom(id) => "<:emoji:"@ + decimal(*id as nat) + ">"@,
        }
    }

    /// Appends the emoji to a text, as it is written in a message.
    pub fn push_to(&self, out: &mut String)
        ensures
            final(out)@ == old(out)@ + self.spec_text(),
    {
        match self {
            Emoji::Unicode(ch) => {
                out.push(*ch);
            },
            Emoji::Custom(id) => {
                out.append("<:emoji:");
                push_decimal(out, *id);
                out.append(">");
            },
        }
    }
}

/// A custom emoji comes back from its column value, up to the marker bit of
/// its id, which the column cannot keep.
pub proof fn custom_emoji_round_trip(id: u64)
    ensures
        Emoji::spec_decode(Emoji::Custom(id).spec_as_i64()) == Ok::<Emoji, DecodeError>(
            Emoji::Custom(id & !CUSTOM_MASK),
        ),
{
    let marked = id | CUSTOM_MASK;
    assert(((marked as i64) as u64) == marked) by (bit_vector);
    assert((id | 0x80) & 0x80 != 0) by (bit_vector);
    assert((id | 0x80) & !0x80u64 == id & !0x80u64) by (bit_vector);
}

/// A unicode emoji comes back from its column value exactly when its code
/// point does not hold the marker bit.
pub proof fn unicode_emoji_round_trip(ch: char)
    ensures
        (ch as u64) & CUSTOM_MASK == 0 ==> Emoji::spec_decode(Emoji::Unicode(ch).spec_as_i64())
            == Ok::<Emoji, DecodeError>(Emoji::Unicode(ch)),
        (ch as u64) & CUSTOM_MASK != 0 ==> Emoji::spec_decode(Emoji::Unicode(ch).spec_as_i64())
            == Ok::<Emoji, DecodeError>(Emoji::Custom((ch as u64) & !CUSTOM_MASK)),
{
    let code = ch as u64;
    let value = ch as i64;
    assert((value as u64) == code) by (bit_vector)
        requires
            value == code,
            code <= 0x10FFFF,
    ;
    assert((code as u32) == code) by (bit_vector)
        requires
            code <= 0x10FFFF,
    ;
}

} // verus!
