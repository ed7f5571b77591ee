//! Diminishing "experience" tracking services.

use vstd::prelude::*;
use crate::command::chat::Arguments;
use crate::command::{ResponseType, ResponseView};
use crate::event::{ApplicationCommand, Event, Interaction, Message};
use crate::model::xp::{spec_level, Guild, Record};
use crate::model::Query;
use crate::service::{finish, spec_finish, Failure, Flow, Reply, Request, RequestView, Service, Step, StepView};
use crate::command::chat::{spec_invoker, spec_string_option};
use crate::text::{decimal, parse_u64, push_decimal, push_signed, same_text, signed_decimal, spec_parse_u64};
use dashmap::DashMap;
use std::collections::hash_map::RandomState;
use std::time::Instant;

verus! {

/// Maximum experience a user can be awarded at once.
pub const MAX_EXP: i32 = 15;

/// The nanoseconds of one second.
pub const NANOS_PER_SEC: u128 = 1_000_000_000;

/// `dashmap::DashMap`, a concurrent hash map. Its contents are known only
/// through [`table_entries`].
#[verifier::external_type_specification]
#[verifier::external_body]
#[verifier::reject_recursive_types(K)]
#[verifier::reject_recursive_types(V)]
#[verifier::reject_recursive_types(S)]
pub struct ExDashMap<K, V, S>(DashMap<K, V, S>);

/// `std::time::Instant`, a moment of the monotonic clock. Nothing is known
/// of one but what [`clock_between`] measures.
#[verifier::external_type_specification]
#[verifier::external_body]
pub struct ExInstant(Instant);

/// What a table of cooldowns holds: for a guild and a user, the moment of the
/// user's last award in the guild, in nanoseconds since the table was made.
pub type Entries = Map<(u64, u64), u128>;

/// The concurrent map that keeps the entries.
pub type Table = DashMap<(u64, u64), u128, RandomState>;

/// The entries of a table.
pub uninterp spec fn table_entries(table: Table) -> Entries;

/// `DashMap::new` makes a map without entries.
#[verifier::external_body]
fn table_new() -> (table: Table)
    ensures
        table_entries(table) == Entries::empty(),
{
    DashMap::new()
}

/// `DashMap::insert` puts the value under the key and returns the value that
/// was there before, if there was one. No other entry changes.
#[verifier::external_body]
fn table_insert(table: &mut Table, key: (u64, u64), value: u128) -> (previous: Option<u128>)
    ensures
        table_entries(*final(table)) == table_entries(*old(table)).insert(key, value),
        previous == spec_lookup(table_entries(*old(table)), key),
{
    table.insert(key, value)
}

/// `Instant::now` reads the clock. Nothing is known of the moment it gives.
#[verifier::external_body]
fn clock_now() -> (now: Instant) {
    Instant::now()
}

/// `Instant::saturating_duration_since` gives the time from `earlier` to
/// `later`, here in nanoseconds, and no time at all where `earlier` is the
/// later one of the two. Nothing is known of how much that is.
#[verifier::external_body]
fn clock_between(earlier: &Instant, later: &Instant) -> (nanos: u128) {
    later.saturating_duration_since(*earlier).as_nanos()
}

/// The entry of a key, if the table has one.
pub open spec fn spec_lookup(entries: Entries, key: (u64, u64)) -> Option<u128> {
    if entries.contains_key(key) {
        Some(entries[key])
    } else {
        None
    }
}

/// The award for the time that has passed since the last one: one point for
/// each whole second, and no more than [`MAX_EXP`].
pub open spec fn spec_exp(elapsed: u128) -> i32 {
    if elapsed / NANOS_PER_SEC >= MAX_EXP as u128 {
        MAX_EXP
    } else {
        (elapsed / NANOS_PER_SEC) as i32
    }
}

/// The award at the moment `now` for a user whose last award was at
/// `previous`: the full award for a user without one, nothing for a clock
/// that ran backwards.
pub open spec fn spec_award(previous: Option<u128>, now: u128) -> i32 {
    match previous {
        None => MAX_EXP,
        Some(last) => if now >= last {
            spec_exp((now - last) as u128)
        } else {
            0
        },
    }
}

/// One update of a table: the entries after it, and the award.
pub open spec fn spec_update(entries: Entries, key: (u64, u64), now: u128) -> (Entries, i32) {
    (entries.insert(key, now), spec_award(spec_lookup(entries, key), now))
}

/// A table of cooldowns.
pub struct Cooldowns {
    origin: Instant,
    table: Table,
}

impl View for Cooldowns {
    type V = Entries;

    closed spec fn view(&self) -> Entries {
        table_entries(self.table)
    }
}

impl Cooldowns {
    /// Create a new `Cooldowns`.
    pub fn new() -> (cooldowns: Cooldowns)
        ensures
            cooldowns@ == Entries::empty(),
    {
        Cooldowns { origin: clock_now(), table: table_new() }
    }

    /// The moment of the call, in nanoseconds since the table was made.
    fn now(&self) -> (now: u128) {
        let now = clock_now();
        clock_between(&self.origin, &now)
    }

    /// Updates a cooldown in the cooldowns table at the moment `now`, given in
    /// nanoseconds since the table was made, returning a good amount of exp to
    /// reward.
    pub fn update_at(&mut self, guild_id: u64, user_id: u64, now: u128) -> (award: i32)
        ensures
            (final(self)@, award) == spec_update(old(self)@, (guild_id, user_id), now),
            0 <= award <= MAX_EXP,
    {
        // swap instants
        match table_insert(&mut self.table, (guild_id, user_id), now) {
            Some(last) => if now >= last {
                exp(now - last)
            } else {
                // this should not happen, but just in case.
                0
            },
            None => MAX_EXP,
        }
    }

    /// Updates a cooldown in the cooldowns table at the moment of the call,
    /// returning a good amount of exp to reward.
    pub fn update(&mut self, guild_id: u64, user_id: u64) -> (award: i32)
        ensures
            exists|now: u128|
                (final(self)@, award) == #[trigger] spec_update(old(self)@, (guild_id, user_id), now),
            0 <= award <= MAX_EXP,
    {
        let now = self.now();
        self.update_at(guild_id, user_id, now)
    }
}

/// The award for the time `elapsed`, in nanoseconds.
pub fn exp(elapsed: u128) -> (award: i32)
    ensures
        award == spec_exp(elapsed),
        0 <= award <= MAX_EXP,
{
    // get exp from duration
    let secs: u128 = elapsed / NANOS_PER_SEC;
    // clamp exp
    if secs >= 15 {
        MAX_EXP
    } else {
        secs as i32
    }
}

/// A user's first award in a guild is the full one.
pub proof fn first_award_is_full(entries: Entries, key: (u64, u64), now: u128)
    requires
        !entries.contains_key(key),
    ensures
        spec_update(entries, key, now).1 == MAX_EXP,
{
}

/// A second update less than a second after the first awards nothing.
pub proof fn award_within_a_second_is_nothing(entries: Entries, key: (u64, u64), first: u128, second: u128)
    requires
        first <= second < first + NANOS_PER_SEC,
    ensures
        spec_update(spec_update(entries, key, first).0, key, second).1 == 0,
{
}

/// An update [`MAX_EXP`] seconds or more after the one before it awards the
/// full award again, and an award is never more than that nor less than
/// nothing.
pub proof fn award_after_the_cooldown_is_full(entries: Entries, key: (u64, u64), first: u128, second: u128)
    requires
        second >= first + MAX_EXP * NANOS_PER_SEC,
    ensures
        spec_update(spec_update(entries, key, first).0, key, second).1 == MAX_EXP,
{
}

/// An award is one point for each whole second since the update before it, as
/// long as those are fewer than [`MAX_EXP`].
pub proof fn award_counts_whole_seconds(entries: Entries, key: (u64, u64), first: u128, second: u128, secs: u128)
    requires
        secs < MAX_EXP,
        first + secs * NANOS_PER_SEC <= second < first + (secs + 1) * NANOS_PER_SEC,
    ensures
        spec_update(spec_update(entries, key, first).0, key, second).1 == secs,
{
    let elapsed = (second - first) as u128;
    assert(elapsed / NANOS_PER_SEC == secs) by (nonlinear_arith)
        requires
            secs * NANOS_PER_SEC <= elapsed < (secs + 1) * NANOS_PER_SEC,
            NANOS_PER_SEC == 1_000_000_000,
    ;
}

/// An award is never less than nothing and never more than [`MAX_EXP`],
/// whatever the table holds and whatever the clock says.
pub proof fn award_is_within_bounds(entries: Entries, key: (u64, u64), now: u128)
    ensures
        0 <= spec_update(entries, key, now).1 <= MAX_EXP,
{
}

/// A table only grows: an update keeps every entry that was there, changes
/// none but that of its own key, and leaves that one at the moment of the
/// update.
pub proof fn update_keeps_all_entries(entries: Entries, key: (u64, u64), now: u128, other: (u64, u64))
    ensures
        spec_lookup(spec_update(entries, key, now).0, key) == Some(now),
        other != key ==> spec_lookup(spec_update(entries, key, now).0, other) == spec_lookup(entries, other),
        entries.contains_key(other) ==> spec_update(entries, key, now).0.contains_key(other),
{
}

/// Updates of different keys do not touch each other: each awards what it
/// would have awarded alone, and the table ends the same in either order.
pub proof fn updates_of_distinct_keys_are_independent(
    entries: Entries,
    a: (u64, u64),
    at_a: u128,
    b: (u64, u64),
    at_b: u128,
)
    requires
        a != b,
    ensures
        spec_update(spec_update(entries, a, at_a).0, b, at_b).1 == spec_update(entries, b, at_b).1,
        spec_update(spec_update(entries, b, at_b).0, a, at_a).1 == spec_update(entries, a, at_a).1,
        spec_update(spec_update(entries, a, at_a).0, b, at_b).0 == spec_update(
            spec_update(entries, b, at_b).0,
            a,
            at_a,
        ).0,
{
}

/// An update is determined by the entry of its own key and the moment: two
/// tables that agree on the key award the same.
pub proof fn update_reads_its_own_key_only(one: Entries, other: Entries, key: (u64, u64), now: u128)
    requires
        spec_lookup(one, key) == spec_lookup(other, key),
    ensures
        spec_update(one, key, now).1 == spec_update(other, key, now).1,
{
}

/// Experience awarding service.
///
/// Every message that a user posts in a guild awards the user experience:
/// the more, the longer ago the user's last award in the guild was.
pub struct Xp {
    cooldowns: Cooldowns,
}

/// Where the work on one message stands.
#[derive(Debug, PartialEq)]
pub enum XpState {
    /// The award was to be added to the row of the user.
    Adding { guild_id: u64, user_id: u64, exp: i32 },
    /// The row of the user was to be inserted.
    Inserting,
}

impl Xp {
    /// The cooldowns of the service.
    pub closed spec fn cooldowns(&self) -> Entries {
        self.cooldowns@
    }

    /// What a message leads to at the moment `now`: the cooldowns after it,
    /// and the work it starts. A message of a bot or outside of a guild leads
    /// to nothing. Any other updates the cooldown of its author in its guild,
    /// and the award is added to the author's experience.
    pub open spec fn spec_handle_message(entries: Entries, msg: &Message, now: u128) -> (Entries, StepView<XpState>) {
        if msg.author_bot {
            (entries, StepView::Done(Ok(())))
        } else {
            match msg.guild_id {
                None => (entries, StepView::Done(Ok(()))),
                Some(guild_id) => {
                    let (after, exp) = spec_update(entries, (guild_id, msg.author_id), now);
                    (
                        after,
                        StepView::Ask(
                            RequestView::Query(
                                Query::AddScore {
                                    guild_id: guild_id as i64,
                                    user_id: msg.author_id as i64,
                                    score: exp,
                                },
                            ),
                            XpState::Adding { guild_id, user_id: msg.author_id, exp },
                        ),
                    )
                },
            }
        }
    }

    /// What an event leads to at the moment `now`: a message is handled, and
    /// any other event leads to nothing.
    pub open spec fn spec_handle(entries: Entries, ev: &Event, now: u128) -> (Entries, StepView<XpState>) {
        match ev {
            Event::MessageCreate(msg) => Self::spec_handle_message(entries, msg, now),
            _ => (entries, StepView::Done(Ok(()))),
        }
    }

    pub fn new() -> (service: Xp)
        ensures
            service.cooldowns() == Entries::empty(),
    {
        Xp { cooldowns: Cooldowns::new() }
    }

    /// Handles a message at the moment `now`, given in nanoseconds since the
    /// service was made.
    pub fn handle_message_at(&mut self, msg: &Message, now: u128) -> (step: Step<XpState>)
        ensures
            (final(self).cooldowns(), step@) == Self::spec_handle_message(old(self).cooldowns(), msg, now),
    {
        // do not track bot messages
        if msg.author_bot {
            return Step::Done(Ok(()));
        }
        // check if the message was sent in a guild
        let guild_id = match msg.guild_id {
            Some(guild_id) => guild_id,
            // not in a guild, nothing to worry about.
            None => return Step::Done(Ok(())),
        };
        let user_id = msg.author_id;
        // figure out how much exp to award to the user
        let exp = self.cooldowns.update_at(guild_id, user_id, now);
        // add experience to the user
        Step::Ask(
            Request::Query(Guild::new(guild_id).add(user_id, exp)),
            XpState::Adding { guild_id, user_id, exp },
        )
    }

    /// Handles a message.
    pub fn handle_message(&mut self, msg: &Message) -> (step: Step<XpState>)
        ensures
            exists|now: u128|
                (final(self).cooldowns(), step@) == #[trigger] Self::spec_handle_message(
                    old(self).cooldowns(),
                    msg,
                    now,
                ),
    {
        let now = self.cooldowns.now();
        self.handle_message_at(msg, now)
    }
}

impl Service for Xp {
    type Work = Step<XpState>;

    open spec fn handlers(&self) -> nat {
        1
    }

    /// The event is handled at some moment.
    open spec fn handles(&self, ev: &Event, after: &Self, work: &Self::Work) -> bool {
        exists|now: u128| (after.cooldowns(), work@) == #[trigger] Self::spec_handle(self.cooldowns(), ev, now)
    }

    fn handle(&mut self, ev: &Event) -> (work: Self::Work) {
        match ev {
            Event::MessageCreate(msg) => {
                let work = self.handle_message(msg);
                proof {
                    let now = choose|now: u128|
                        (self.cooldowns(), work@) == #[trigger] Self::spec_handle_message(
                            old(self).cooldowns(),
                            msg,
                            now,
                        );
                    assert((self.cooldowns(), work@) == Self::spec_handle(old(self).cooldowns(), ev, now));
                }
                work
            },
            _ => {
                let work = Step::Done(Ok(()));
                assert((self.cooldowns(), work@) == Self::spec_handle(old(self).cooldowns(), ev, 0));
                work
            },
        }
    }
}

impl Flow for XpState {
    /// The award is added to the row of the user. Where the user has no row
    /// yet, one is inserted with the award.
    open spec fn next(self, reply: Reply) -> StepView<Self> {
        match self {
            XpState::Adding { guild_id, user_id, exp } => match reply {
                Reply::Rows(rows_affected) => if rows_affected == 0 {
                    StepView::Ask(
                        RequestView::Query(
                            Query::InsertScore { guild_id: guild_id as i64, user_id: user_id as i64, score: exp },
                        ),
                        XpState::Inserting,
                    )
                } else {
                    StepView::Done(Ok(()))
                },
                Reply::Database(err) => StepView::Done(Err(Failure::Database(err))),
                _ => StepView::Done(Err(Failure::Unexpected)),
            },
            XpState::Inserting => StepView::Done(spec_finish(reply)),
        }
    }

    open spec fn requests_left(&self) -> nat {
        match self {
            XpState::Adding { .. } => 1,
            XpState::Inserting => 0,
        }
    }

    fn resume(self, reply: Reply) -> (step: Step<Self>) {
        match self {
            XpState::Adding { guild_id, user_id, exp } => match reply {
                // if no records were updated, the user record doesn't exist!
                Reply::Rows(rows_affected) => match Guild::new(guild_id).add_missing(user_id, exp, rows_affected) {
                    // insert it instead
                    Some(query) => Step::Ask(Request::Query(query), XpState::Inserting),
                    None => Step::Done(Ok(())),
                },
                Reply::Database(err) => Step::Done(Err(Failure::Database(err))),
                _ => Step::Done(Err(Failure::Unexpected)),
            },
            XpState::Inserting => Step::Done(finish(reply)),
        }
    }
}

/// Service that enables the `/rank` command.
///
/// ```txt
/// /rank - Gets the level and amount of experience a user has accumulated.
///     [user] - The user to check. If omitted, defaults to the user.
/// ```
pub struct RankCommand {}

/// Where the work on one `/rank` stands.
#[derive(Debug, PartialEq)]
pub enum RankState {
    /// The experience of the user was asked for.
    Fetching { id: u64, token: String, guild_id: u64, user_id: u64 },
    /// The answer was sent.
    Closing,
}

/// What `/rank` answers.
pub open spec fn spec_rank_message(user_id: u64, level: int, score: i32) -> Seq<char> {
    "user <@"@ + decimal(user_id as nat) + "> is level "@ + signed_decimal(level) + " with "@
        + signed_decimal(score as int) + "KR"@
}

fn rank_message(user_id: u64, user: &Record) -> (content: String)
    ensures
        content@ == spec_rank_message(user_id, spec_level(user.spec_score()), user.spec_score()),
{
    let mut content = String::from_str("user <@");
    push_decimal(&mut content, user_id);
    content.append("> is level ");
    push_signed(&mut content, user.level());
    content.append(" with ");
    push_signed(&mut content, user.score());
    content.append("KR");
    content
}

impl RankCommand {
    /// The user that `/rank` is about: the one that the option `user` names,
    /// or else the one who used the command.
    pub open spec fn spec_subject(cmd: &ApplicationCommand) -> Result<u64, Failure> {
        match spec_string_option(cmd.options@, "user"@) {
            Err(err) => Err(Failure::Argument(err)),
            Ok(Some(id)) => match spec_parse_u64(id) {
                Ok(user_id) => Ok(user_id),
                Err(err) => Err(Failure::ParseInt(err)),
            },
            Ok(None) => match spec_invoker(cmd) {
                Some(user_id) => Ok(user_id),
                None => Err(Failure::UserMissing),
            },
        }
    }

    /// What `/rank` starts: the command must come from a guild, and then the
    /// experience of its subject in that guild is asked for.
    pub open spec fn spec_command(cmd: &ApplicationCommand) -> StepView<RankState> {
        match cmd.guild_id {
            None => StepView::Done(Err(Failure::GuildMissing)),
            Some(guild_id) => match Self::spec_subject(cmd) {
                Err(failure) => StepView::Done(Err(failure)),
                Ok(user_id) => StepView::Ask(
                    RequestView::Query(Query::Score { guild_id: guild_id as i64, user_id: user_id as i64 }),
                    RankState::Fetching { id: cmd.id, token: cmd.token, guild_id, user_id },
                ),
            },
        }
    }

    /// What an event starts: the command `rank` is answered, and nothing else
    /// starts anything.
    pub open spec fn spec_handle(ev: &Event) -> StepView<RankState> {
        match ev {
            Event::InteractionCreate(Interaction::ApplicationCommand(cmd)) => if cmd.name@ == "rank"@ {
                Self::spec_command(cmd)
            } else {
                StepView::Done(Ok(()))
            },
            _ => StepView::Done(Ok(())),
        }
    }

    pub fn new() -> (service: RankCommand) {
        RankCommand {  }
    }

    fn command(&self, command: Arguments<'_>) -> (step: Step<RankState>)
        requires
            command.options() == command.command().options@,
        ensures
            step@ == Self::spec_command(&command.command()),
    {
        // get guild id
        let guild_id = match command.guild_id() {
            Some(guild_id) => guild_id,
            None => return Step::Done(Err(Failure::GuildMissing)),
        };
        // get the user_id
        let user_id = match command.get_string("user") {
            Ok(Some(id)) => match parse_u64(id) {
                Ok(user_id) => user_id,
                Err(err) => return Step::Done(Err(Failure::ParseInt(err))),
            },
            Ok(None) => {
                if !command.has_user() {
                    return Step::Done(Err(Failure::UserMissing));
                }
                command.user_id()
            },
            Err(err) => return Step::Done(Err(Failure::Argument(err))),
        };
        // finally.... finally... find the exp for the specified user
        Step::Ask(
            Request::Query(Guild::new(guild_id).get(user_id)),
            RankState::Fetching { id: command.id(), token: command.top().token.clone(), guild_id, user_id },
        )
    }
}

impl Service for RankCommand {
    type Work = Step<RankState>;

    open spec fn handlers(&self) -> nat {
        1
    }

    open spec fn handles(&self, ev: &Event, after: &Self, work: &Self::Work) -> bool {
        work@ == Self::spec_handle(ev) && *after == *self
    }

    fn handle(&mut self, ev: &Event) -> (work: Self::Work) {
        match ev {
            Event::InteractionCreate(Interaction::ApplicationCommand(cmd)) => {
                let args = Arguments::new(cmd);
                if same_text(args.name(), "rank") {
                    self.command(args)
                } else {
                    Step::Done(Ok(()))
                }
            },
            _ => Step::Done(Ok(())),
        }
    }
}

impl Flow for RankState {
    /// The answer tells the level and the experience of the user; a user
    /// without a row has none.
    open spec fn next(self, reply: Reply) -> StepView<Self> {
        match self {
            RankState::Fetching { id, token, guild_id, user_id } => match reply {
                Reply::Record(row) => {
                    let score = match row {
                        Some(record) => record.spec_score(),
                        None => 0i32,
                    };
                    StepView::Ask(
                        ResponseView::new(id, token@, ResponseType::Initial).content(
                            spec_rank_message(user_id, spec_level(score), score),
                        ).exec(),
                        RankState::Closing,
                    )
                },
                Reply::Database(err) => StepView::Done(Err(Failure::Database(err))),
                _ => StepView::Done(Err(Failure::Unexpected)),
            },
            RankState::Closing => StepView::Done(spec_finish(reply)),
        }
    }

    open spec fn requests_left(&self) -> nat {
        match self {
            RankState::Fetching { .. } => 1,
            RankState::Closing => 0,
        }
    }

    fn resume(self, reply: Reply) -> (step: Step<Self>) {
        match self {
            RankState::Fetching { id, token, guild_id, user_id } => match reply {
                Reply::Record(row) => {
                    let user = Guild::new(guild_id).found(user_id, row);
                    // create a response
                    let content = rank_message(user_id, &user);
                    let request = crate::command::Response::new(id, token.as_str(), ResponseType::Initial).content(
                        content,
                    ).exec();
                    Step::Ask(request, RankState::Closing)
                },
                Reply::Database(err) => Step::Done(Err(Failure::Database(err))),
                _ => Step::Done(Err(Failure::Unexpected)),
            },
            RankState::Closing => Step::Done(finish(reply)),
        }
    }
}

/// Returns the exp leaders of a guild.
pub struct TopCommand {}

/// Where the work on one `/top` stands.
#[derive(Debug, PartialEq)]
pub enum TopState {
    /// The leaders of the guild were asked for.
    Fetching { id: u64, token: String },
    /// The answer was sent.
    Closing,
}

/// The number of leaders that `/top` lists.
pub const TOP_COUNT: u64 = 10;

impl TopCommand {
    /// What `/top` starts: the command must come from a guild, and then the
    /// first ten of that guild are asked for.
    pub open spec fn spec_command(cmd: &ApplicationCommand) -> StepView<TopState> {
        match cmd.guild_id {
            None => StepView::Done(Err(Failure::GuildMissing)),
            Some(guild_id) => StepView::Ask(
                RequestView::Query(Query::Top { guild_id: guild_id as i64, limit: 10, offset: 0 }),
                TopState::Fetching { id: cmd.id, token: cmd.token },
            ),
        }
    }

    /// What an event starts: the command `top` is answered, and nothing else
    /// starts anything.
    pub open spec fn spec_handle(ev: &Event) -> StepView<TopState> {
        match ev {
            Event::InteractionCreate(Interaction::ApplicationCommand(cmd)) => if cmd.name@ == "top"@ {
                Self::spec_command(cmd)
            } else {
                StepView::Done(Ok(()))
            },
            _ => StepView::Done(Ok(())),
        }
    }

    pub fn new() -> (service: TopCommand) {
        TopCommand {  }
    }

    fn command(&self, command: Arguments<'_>) -> (step: Step<TopState>)
        ensures
            step@ == Self::spec_command(&command.command()),
    {
        // get guild id and role id
        let guild_id = match command.guild_id() {
            Some(guild_id) => guild_id,
            None => return Step::Done(Err(Failure::GuildMissing)),
        };
        // get the top listing
        Step::Ask(
            Request::Query(Guild::new(guild_id).top(TOP_COUNT, 0)),
            TopState::Fetching { id: command.id(), token: command.top().token.clone() },
        )
    }
}

impl Service for TopCommand {
    type Work = Step<TopState>;

    open spec fn handlers(&self) -> nat {
        1
    }

    open spec fn handles(&self, ev: &Event, after: &Self, work: &Self::Work) -> bool {
        work@ == Self::spec_handle(ev) && *after == *self
    }

    fn handle(&mut self, ev: &Event) -> (work: Self::Work) {
        match ev {
            Event::InteractionCreate(Interaction::ApplicationCommand(cmd)) => {
                let args = Arguments::new(cmd);
                if same_text(args.name(), "top") {
                    self.command(args)
                } else {
                    Step::Done(Ok(()))
                }
            },
            _ => Step::Done(Ok(())),
        }
    }
}

impl Flow for TopState {
    /// The answer lists the leaders.
    open spec fn next(self, reply: Reply) -> StepView<Self> {
        match self {
            TopState::Fetching { id, token } => match reply {
                Reply::Records(top) => StepView::Ask(
                    ResponseView::new(id, token@, ResponseType::Initial).content(spec_top_message(top@)).exec(),
                    TopState::Closing,
                ),
                Reply::Database(err) => StepView::Done(Err(Failure::Database(err))),
                _ => StepView::Done(Err(Failure::Unexpected)),
            },
            TopState::Closing => StepView::Done(spec_finish(reply)),
        }
    }

    open spec fn requests_left(&self) -> nat {
        match self {
            TopState::Fetching { .. } => 1,
            TopState::Closing => 0,
        }
    }

    fn resume(self, reply: Reply) -> (step: Step<Self>) {
        match self {
            TopState::Fetching { id, token } => match reply {
                Reply::Records(top) => {
                    // create a response
                    let content = create_top_message(top.as_slice());
                    let request = crate::command::Response::new(id, token.as_str(), ResponseType::Initial).content(
                        content,
                    ).exec();
                    Step::Ask(request, TopState::Closing)
                },
                Reply::Database(err) => Step::Done(Err(Failure::Database(err))),
                _ => Step::Done(Err(Failure::Unexpected)),
            },
            TopState::Closing => Step::Done(finish(reply)),
        }
    }
}

/// The emoji before the entry at `idx` of a list of leaders: a medal for each
/// of the first three, a banknote for the rest.
pub open spec fn spec_top_emoji(idx: int) -> char {
    if idx == 0 {
        '\u{1F947}'
    } else if idx == 1 {
        '\u{1F948}'
    } else if idx == 2 {
        '\u{1F949}'
    } else {
        '\u{1F4B4}'
    }
}

/// The entry of a list of leaders at `idx`.
pub open spec fn spec_top_entry(idx: int, record: Record) -> Seq<char> {
    seq![spec_top_emoji(idx)] + " "@ + signed_decimal(record.spec_score() as int) + "KR > <@"@ + decimal(
        record.spec_user_id() as nat,
    ) + "> "@
}

/// The entries of a list of leaders, one to a line.
pub open spec fn spec_top_entries(top: Seq<Record>) -> Seq<char>
    decreases top.len(),
{
    if top.len() == 0 {
        Seq::empty()
    } else if top.len() == 1 {
        spec_top_entry(0, top[0])
    } else {
        spec_top_entries(top.drop_last()) + seq!['\n'] + spec_top_entry(top.len() - 1, top.last())
    }
}

/// What `/top` answers: the leaders, or that there are none.
pub open spec fn spec_top_message(top: Seq<Record>) -> Seq<char> {
    if top.len() > 0 {
        spec_top_entries(top)
    } else {
        "NO MEMBERS HAVE SPOKEN SINCE I JOINED!!!"@
    }
}

pub fn create_top_message(top: &[Record]) -> (content: String)
    ensures
        content@ == spec_top_message(top@),
{
    if top.len() > 0 {
        let mut content = String::new();
        let mut i: usize = 0;
        while i < top.len()
            invariant
                i <= top@.len(),
                content@ == spec_top_entries(top@.take(i as int)),
            decreases top@.len() - i,
        {
            if i > 0 {
                content.push('\n');
            }
            let record = &top[i];
            content.push(top_emoji(i));
            content.append(" ");
            push_signed(&mut content, record.score());
            content.append("KR > <@");
            push_decimal(&mut content, record.user_id());
            content.append("> ");
            assert(top@.take(i + 1).drop_last() =~= top@.take(i as int));
            i = i + 1;
        }
        assert(top@.take(i as int) =~= top@);
        content
    } else {
        // fallback in case there is no records
        String::from_str("NO MEMBERS HAVE SPOKEN SINCE I JOINED!!!")
    }
}

pub fn top_emoji(idx: usize) -> (emoji: char)
    ensures
        emoji == spec_top_emoji(idx as int),
{
    match idx {
        0 => '\u{1F947}',
        1 => '\u{1F948}',
        2 => '\u{1F949}',
        _ => '\u{1F4B4}',
    }
}

} // verus!
