//! User experience.

use vstd::prelude::*;
use super::Query;

verus! {

/// A user's experience in one guild.
#[derive(Debug, PartialEq)]
pub struct Record {
    guild_id: i64,
    user_id: i64,
    score: i32,
}

impl Record {
    /// A record as a row of the table holds it.
    pub fn new(guild_id: i64, user_id: i64, score: i32) -> (record: Record)
        ensures
            record.spec_guild_id() == guild_id as u64,
            record.spec_user_id() == user_id as u64,
            record.spec_score() == score,
    {
        Record { guild_id, user_id, score }
    }

    pub closed spec fn spec_guild_id(&self) -> u64 {
        self.guild_id as u64
    }

    pub closed spec fn spec_user_id(&self) -> u64 {
        self.user_id as u64
    }

    pub closed spec fn spec_score(&self) -> i32 {
        self.score
    }

    /// The id of the guild this record reflects.
    pub fn guild_id(&self) -> (id: u64)
        ensures
            id == self.spec_guild_id(),
    {
        #[verifier::truncate]
        (self.guild_id as u64)
    }

    /// The id of the user.
    pub fn user_id(&self) -> (id: u64)
        ensures
            id == self.spec_user_id(),
    {
        #[verifier::truncate]
        (self.user_id as u64)
    }

    /// How much experience the user has.
    pub fn score(&self) -> (score: i32)
        ensures
            score == self.spec_score(),
    {
        self.score
    }

    /// What level the user is at.
    pub fn level(&self) -> (l: i32)
        ensures
            is_level(self.spec_score(), l as int),
            l == spec_level(self.spec_score()),
    {
        level(self.score)
    }
}

/// A group of records attached to a certain guild.
pub struct Guild(i64);

impl Guild {
    /// The id of the guild as the table's column holds it.
    pub closed spec fn key(&self) -> i64 {
        self.0
    }

    /// Create a new `Guild` reference.
    ///
    /// This does nothing until operations are made to it.
    pub fn new(id: u64) -> (guild: Guild)
        ensures
            guild.key() == id as i64,
    {
        Guild(
            #[verifier::truncate]
            (id as i64),
        )
    }

    /// The statement that gets the top `count` users in the guild, `page`
    /// pages of that size down the list.
    pub fn top(&self, count: u64, page: u64) -> (query: Query)
        requires
            count * page <= i64::MAX,
            count <= i64::MAX,
        ensures
            query == (Query::Top { guild_id: self.key(), limit: count as i64, offset: (count * page) as i64 }),
    {
        let limit: i64 = count as i64;
        let offset: u64 = count * page;
        Query::Top { guild_id: self.0, limit, offset: offset as i64 }
    }

    /// The statement that gets a user's experience.
    pub fn get(&self, user_id: u64) -> (query: Query)
        ensures
            query == (Query::Score { guild_id: self.key(), user_id: user_id as i64 }),
    {
        Query::Score {
            guild_id: self.0,
            user_id: #[verifier::truncate]
            (user_id as i64),
        }
    }

    /// The record of a user, given the row that [`Guild::get`] found: a user
    /// without a row has zero experience.
    pub fn found(&self, user_id: u64, row: Option<Record>) -> (record: Record)
        ensures
            row matches Some(r) ==> record == r,
            row is None ==> record.spec_guild_id() == self.key() as u64 && record.spec_user_id()
                == (user_id as i64) as u64 && record.spec_score() == 0,
    {
        match row {
            Some(record) => record,
            None => Record::new(
                self.0,
                #[verifier::truncate]
                (user_id as i64),
                0,
            ),
        }
    }

    /// The statement that gives (or takes away) some experience to a user who
    /// has a row.
    pub fn add(&self, user_id: u64, score: i32) -> (query: Query)
        ensures
            query == (Query::AddScore { guild_id: self.key(), user_id: user_id as i64, score }),
    {
        Query::AddScore {
            guild_id: self.0,
            user_id: #[verifier::truncate]
            (user_id as i64),
            score,
        }
    }

    /// What follows [`Guild::add`], given the number of rows it changed: where
    /// it changed none the user has no row yet, and one is inserted.
    pub fn add_missing(&self, user_id: u64, score: i32, rows_affected: u64) -> (query: Option<Query>)
        ensures
            query == (if rows_affected == 0 {
                Some(Query::InsertScore { guild_id: self.key(), user_id: user_id as i64, score })
            } else {
                None
            }),
    {
        if rows_affected == 0 {
            Some(
                Query::InsertScore {
                    guild_id: self.0,
                    user_id: #[verifier::truncate]
                    (user_id as i64),
                    score,
                },
            )
        } else {
            None
        }
    }
}

/// Whether `l` is the level of a score: levels start at one, and level `l` is
/// reached at `30 * (l - 1)^2` points. A score below zero is at level one.
pub open spec fn is_level(score: i32, l: int) -> bool {
    if score < 0 {
        l == 1
    } else {
        l >= 1 && 30 * (l - 1) * (l - 1) <= score < 30 * l * l
    }
}

/// The level of a score.
pub open spec fn spec_level(score: i32) -> int {
    choose|l: int| is_level(score, l)
}

/// A score has one level only.
pub proof fn level_is_unique(score: i32, a: int, b: int)
    requires
        is_level(score, a),
        is_level(score, b),
    ensures
        a == b,
{
    if score >= 0 && a != b {
        if a < b {
            assert(30 * a * a <= 30 * (b - 1) * (b - 1)) by (nonlinear_arith)
                requires
                    1 <= a <= b - 1,
            ;
        } else {
            assert(30 * b * b <= 30 * (a - 1) * (a - 1)) by (nonlinear_arith)
                requires
                    1 <= b <= a - 1,
            ;
        }
    }
}

/// A higher score is never at a lower level.
pub proof fn level_is_monotonic(lower: i32, higher: i32)
    requires
        lower <= higher,
    ensures
        spec_level(lower) <= spec_level(higher),
{
    level_exists(lower);
    level_exists(higher);
    let a = spec_level(lower);
    let b = spec_level(higher);
    if lower >= 0 && a > b {
        assert(30 * b * b <= 30 * (a - 1) * (a - 1)) by (nonlinear_arith)
            requires
                1 <= b <= a - 1,
        ;
    }
}

/// Every score has a level.
pub proof fn level_exists(score: i32)
    ensures
        is_level(score, spec_level(score)),
{
    if score < 0 {
        assert(is_level(score, 1));
    } else {
        level_below(score, 8462);
    }
}

/// A score below the bar of a level has a level, no higher than that one.
proof fn level_below(score: i32, l: int)
    requires
        0 <= score < 30 * l * l,
        l >= 1,
    ensures
        exists|found: int| is_level(score, found),
    decreases l,
{
    if 30 * (l - 1) * (l - 1) <= score {
        assert(is_level(score, l));
    } else {
        assert(l > 1) by (nonlinear_arith)
            requires
                l >= 1,
                score >= 0,
                30 * (l - 1) * (l - 1) > score,
        ;
        level_below(score, l - 1);
    }
}

/// Calculates the level for a given score.
pub fn level(score: i32) -> (l: i32)
    ensures
        is_level(score, l as int),
        l == spec_level(score),
{
    if score < 0 {
        proof {
            level_is_unique(score, 1, spec_level(score));
        }
        return 1;
    }
    let target: i64 = score as i64;
    let mut l: i64 = 1;
    while 30 * l * l <= target
        invariant
            1 <= l <= 8462,
            target == score,
            0 <= score,
            30 * (l - 1) * (l - 1) <= target,
            30 * l * l <= 30 * 8462 * 8462,
        decreases 8462 - l,
    {
        assert(l < 8462) by (nonlinear_arith)
            requires
                30 * l * l <= target,
                target <= 0x7fff_ffff,
                l >= 1,
        ;
        assert(30 * (l + 1) * (l + 1) <= 30 * 8462 * 8462) by (nonlinear_arith)
            requires
                1 <= l < 8462,
        ;
        l = l + 1;
    }
    proof {
        level_is_unique(score, l as int, spec_level(score));
    }
    l as i32
}

} // verus!
