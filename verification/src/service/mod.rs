//! The different, independent components of the bot, and what they ask of
//! the outside world.

pub mod cons;
pub mod wait;

use vstd::prelude::*;
use crate::command::{text_view, CallbackData, CallbackDataView};
use crate::event::Event;
use crate::command::chat::ArgError;
use crate::model::{Error, Query};
use crate::model::roles::reaction::ReactionRole;
use crate::model::xp::Record;
use crate::text::{decimal, push_decimal, ParseIntError};
use wait::Waiter;

pub use cons::Cons;

verus! {

/// A failure of a call to the chat platform, as far as the bot reads it.
#[derive(Debug, PartialEq)]
pub struct HttpError {
    /// The error code of the platform's answer, where it answered with a
    /// general error.
    pub code: Option<u64>,
    /// The text of the failure.
    pub message: String,
}

/// An outside call that a service needs made.
#[derive(Debug, PartialEq)]
pub enum Request {
    /// Run a statement against the database.
    Query(Query),
    /// Answer an interaction for the first time.
    Callback { id: u64, token: String, data: CallbackData },
    /// Follow an answered interaction up with another message.
    Followup { token: String, content: Option<String>, ephemeral: Option<bool> },
    /// Give a role to a member of a guild.
    AddRole { guild_id: u64, user_id: u64, role_id: u64, reason: &'static str },
    /// Take a role from a member of a guild.
    RemoveRole { guild_id: u64, user_id: u64, role_id: u64, reason: &'static str },
    /// Offer the waiter the events of its guild until one fulfils it or its
    /// timeout has passed, and hand it back.
    Wait(Waiter),
}

/// What a request says.
pub enum RequestView {
    Query(Query),
    Callback { id: u64, token: Seq<char>, data: CallbackDataView },
    Followup { token: Seq<char>, content: Option<Seq<char>>, ephemeral: Option<bool> },
    AddRole { guild_id: u64, user_id: u64, role_id: u64, reason: &'static str },
    RemoveRole { guild_id: u64, user_id: u64, role_id: u64, reason: &'static str },
    Wait(Waiter),
}

impl View for Request {
    type V = RequestView;

    open spec fn view(&self) -> RequestView {
        match *self {
            Request::Query(query) => RequestView::Query(query),
            Request::Callback { id, token, data } => RequestView::Callback { id, token: token@, data: data@ },
            Request::Followup { token, content, ephemeral } => RequestView::Followup {
                token: token@,
                content: text_view(content),
                ephemeral,
            },
            Request::AddRole { guild_id, user_id, role_id, reason } => RequestView::AddRole {
                guild_id,
                user_id,
                role_id,
                reason,
            },
            Request::RemoveRole { guild_id, user_id, role_id, reason } => RequestView::RemoveRole {
                guild_id,
                user_id,
                role_id,
                reason,
            },
            Request::Wait(waiter) => RequestView::Wait(waiter),
        }
    }
}

/// What an outside call returned.
#[derive(Debug, PartialEq)]
pub enum Reply {
    /// The call went through and has nothing to tell.
    Done,
    /// The number of rows that a statement changed.
    Rows(u64),
    /// The row that a statement found, if it found one.
    Record(Option<Record>),
    /// The rows that a statement found.
    Records(Vec<Record>),
    /// The reaction role that a statement found, if it found one.
    ReactionRole(Option<ReactionRole>),
    /// The waiter, after the wait.
    Waited(Waiter),
    /// The database refused or could not be reached.
    Database(Error),
    /// The chat platform refused or could not be reached.
    Http(HttpError),
}

/// Why the work of a service for one event failed.
#[derive(Debug, PartialEq)]
pub enum Failure {
    /// The command was not used in a guild.
    GuildMissing,
    /// The command names nobody who used it.
    UserMissing,
    /// The command lacks the role it is about.
    RoleMissing,
    /// An option of the command is of the wrong kind.
    Argument(ArgError),
    /// An option of the command is no id.
    ParseInt(ParseIntError),
    /// A reaction without an emoji.
    EmojiMissing,
    /// A statement failed.
    Database(Error),
    /// A call to the chat platform failed.
    Http(HttpError),
    /// The wait for an event was given up.
    Canceled,
    /// The database holds a reaction role that it cannot find.
    ReactionRoleLost,
    /// A reply that does not answer the request.
    Unexpected,
}

impl Failure {
    /// The text of the failure.
    pub open spec fn spec_message(&self) -> Seq<char> {
        match self {
            Failure::GuildMissing => "guild_id is missing"@,
            Failure::UserMissing => "both `member` and `user` are missing!"@,
            Failure::RoleMissing => "role is missing for /reactionroles add!"@,
            Failure::Argument(err) => err.spec_message(),
            Failure::ParseInt(err) => ArgError::ParseInt(*err).spec_message(),
            Failure::EmojiMissing => "reaction has no emoji"@,
            Failure::Database(err) => err.message@,
            Failure::Http(err) => err.message@,
            Failure::Canceled => "wait for an event was canceled"@,
            Failure::ReactionRoleLost => "db told us a RR already exists, but we can't find it!"@,
            Failure::Unexpected => "reply does not answer the request"@,
        }
    }

    pub fn message(&self) -> (text: String)
        ensures
            text@ == self.spec_message(),
    {
        match self {
            Failure::GuildMissing => String::from_str("guild_id is missing"),
            Failure::UserMissing => String::from_str("both `member` and `user` are missing!"),
            Failure::RoleMissing => String::from_str("role is missing for /reactionroles add!"),
            Failure::Argument(err) => err.message(),
            Failure::ParseInt(err) => String::from_str(err.message()),
            Failure::EmojiMissing => String::from_str("reaction has no emoji"),
            Failure::Database(err) => err.message.clone(),
            Failure::Http(err) => err.message.clone(),
            Failure::Canceled => String::from_str("wait for an event was canceled"),
            Failure::ReactionRoleLost => String::from_str("db told us a RR already exists, but we can't find it!"),
            Failure::Unexpected => String::from_str("reply does not answer the request"),
        }
    }
}

/// Where the work of a service stands: done, or waiting for one outside call,
/// with the state to go on from when its reply is there.
#[derive(Debug, PartialEq)]
pub enum Step<S> {
    Done(Result<(), Failure>),
    Ask(Request, S),
}

/// What a step says.
pub enum StepView<S> {
    Done(Result<(), Failure>),
    Ask(RequestView, S),
}

impl<S> View for Step<S> {
    type V = StepView<S>;

    open spec fn view(&self) -> StepView<S> {
        match *self {
            Step::Done(result) => StepView::Done(result),
            Step::Ask(request, state) => StepView::Ask(request@, state),
        }
    }
}

/// The state of a piece of work that waits for the reply to a request.
pub trait Flow: Sized {
    /// Where the work stands once the reply is there.
    spec fn next(self, reply: Reply) -> StepView<Self>;

    /// The most requests that the work can still make once the one it waits
    /// for is answered.
    spec fn requests_left(&self) -> nat;

    /// Goes on with the work, given the reply to the request it waited for.
    /// Whatever the replies are, the work is done after a bounded number of
    /// requests: each one leaves fewer to come.
    fn resume(self, reply: Reply) -> (step: Step<Self>)
        ensures
            step@ == self.next(reply),
            step matches Step::Ask(_, state) ==> state.requests_left() < self.requests_left(),
    ;
}

/// How work ends on the reply to its last request: well if the call went
/// through, and with the failure of the call if it did not.
pub open spec fn spec_finish(reply: Reply) -> Result<(), Failure> {
    match reply {
        Reply::Done => Ok(()),
        Reply::Rows(_) => Ok(()),
        Reply::Database(err) => Err(Failure::Database(err)),
        Reply::Http(err) => Err(Failure::Http(err)),
        _ => Err(Failure::Unexpected),
    }
}

/// How work ends on the reply to its last request.
pub fn finish(reply: Reply) -> (result: Result<(), Failure>)
    ensures
        result == spec_finish(reply),
{
    match reply {
        Reply::Done => Ok(()),
        Reply::Rows(_) => Ok(()),
        Reply::Database(err) => Err(Failure::Database(err)),
        Reply::Http(err) => Err(Failure::Http(err)),
        _ => Err(Failure::Unexpected),
    }
}

impl<S> Step<S> {
    /// The line that work is logged with once it is done: one for work that
    /// failed, none for work that went well or is not done yet.
    pub open spec fn spec_report(&self) -> Option<Seq<char>> {
        match self {
            Step::Done(Err(failure)) => Some("service: "@ + failure.spec_message()),
            _ => None,
        }
    }

    pub fn report(&self) -> (line: Option<String>)
        ensures
            text_view(line) == self.spec_report(),
    {
        match self {
            Step::Done(Err(failure)) => {
                let mut line = String::from_str("service: ");
                line.append(failure.message().as_str());
                Some(line)
            },
            _ => None,
        }
    }

    /// Whether the work is done.
    pub fn is_done(&self) -> (done: bool)
        ensures
            done == (self is Done),
    {
        match self {
            Step::Done(_) => true,
            Step::Ask(_, _) => false,
        }
    }
}

/// Work that events have started and that is in flight.
pub trait Work {
    /// The number of handlers whose work this is.
    spec fn handlers(&self) -> nat;
}

impl<S> Work for Step<S> {
    /// A step is the work of one handler, at whatever point it stands.
    open spec fn handlers(&self) -> nat {
        1
    }
}

/// How the work of several services for one event is run.
#[derive(Clone, Copy, Debug, PartialEq, Eq, Structural)]
pub enum Composition {
    /// The work of a service goes on once that of the service added before
    /// it is done.
    Sequential,
    /// The work of every service goes on at once, and none waits for
    /// another.
    Concurrent,
}

/// A service type.
///
/// A service is handed every event and answers each with the work that the
/// event starts: work that tells nothing back and whose failures end with it.
pub trait Service: Sized {
    /// The work that an event starts in this service.
    type Work: Work;

    /// The number of handlers that stand behind this service.
    spec fn handlers(&self) -> nat;

    /// Whether handling `ev` may start `work` and leave the service as
    /// `after`.
    spec fn handles(&self, ev: &Event, after: &Self, work: &Self::Work) -> bool;

    /// Handles a gateway event. Every handler behind the service is invoked
    /// once, and the work that comes back is the work of all of them.
    fn handle(&mut self, ev: &Event) -> (work: Self::Work)
        ensures
            old(self).handles(ev, final(self), &work),
            work.handlers() == old(self).handlers(),
            final(self).handlers() == old(self).handlers(),
    ;
}

/// What one event of the stream leads to.
#[derive(Debug, PartialEq)]
pub struct Intake<W> {
    /// A line for the log, for an event that tells of the connection itself.
    pub notice: Option<String>,
    /// The work that the event started in the services.
    pub work: W,
}

/// The line that an event is logged with: one for a shard that connected or
/// disconnected, none for any other event.
pub open spec fn spec_notice(shard_id: u64, ev: &Event) -> Option<Seq<char>> {
    match ev {
        Event::ShardConnected => Some("shard #"@ + decimal(shard_id as nat) + " connected"@),
        Event::ShardDisconnected => Some("shard #"@ + decimal(shard_id as nat) + " disconnected"@),
        _ => None,
    }
}

/// Whether a line is the one that an event is logged with.
pub open spec fn is_notice(notice: Option<String>, shard_id: u64, ev: &Event) -> bool {
    match (notice, spec_notice(shard_id, ev)) {
        (Some(line), Some(text)) => line@ == text,
        (None, None) => true,
        _ => false,
    }
}

/// The line that an event is logged with, if it is logged.
pub fn notice(shard_id: u64, ev: &Event) -> (notice: Option<String>)
    ensures
        is_notice(notice, shard_id, ev),
{
    match ev {
        Event::ShardConnected => {
            let mut line = String::from_str("shard #");
            push_decimal(&mut line, shard_id);
            line.append(" connected");
            Some(line)
        },
        Event::ShardDisconnected => {
            let mut line = String::from_str("shard #");
            push_decimal(&mut line, shard_id);
            line.append(" disconnected");
            Some(line)
        },
        _ => None,
    }
}

/// A collection of services.
///
/// The collection is put together once, service by service, and handed every
/// event from then on. The work that an event starts in one service never
/// waits for that of another event.
pub struct Services<T> {
    service: T,
    composition: Composition,
}

impl<T> Services<T> {
    /// The services of the collection: one service, or a [`Cons`] of those
    /// that were added, the first one innermost.
    pub closed spec fn service(&self) -> T {
        self.service
    }

    /// How the work of the services for one event is run.
    pub closed spec fn spec_composition(&self) -> Composition {
        self.composition
    }

    pub fn composition(&self) -> (composition: Composition)
        ensures
            composition == self.spec_composition(),
    {
        self.composition
    }

    /// Has the work of each service wait for that of the one added before it.
    pub fn sequential(self) -> (services: Services<T>)
        ensures
            services.service() == self.service(),
            services.spec_composition() == Composition::Sequential,
    {
        Services { service: self.service, composition: Composition::Sequential }
    }
}

impl Services<()> {
    /// Create a new `Services` instance, without a service, whose services
    /// will work side by side.
    pub fn new() -> (services: Services<()>)
        ensures
            services.spec_composition() == Composition::Concurrent,
    {
        Services { service: (), composition: Composition::Concurrent }
    }

    /// Add a service to the service collection.
    pub fn add<S: Service>(self, service: S) -> (services: Services<S>)
        ensures
            services.service() == service,
            services.spec_composition() == self.spec_composition(),
    {
        Services { service, composition: self.composition }
    }
}

impl<T: Service> Services<T> {
    /// Whether taking in the event `ev` of shard `shard_id` may lead to
    /// `intake` and leave the collection as `after`.
    pub open spec fn accepts(&self, shard_id: u64, ev: &Event, after: &Self, intake: &Intake<T::Work>) -> bool {
        &&& is_notice(intake.notice, shard_id, ev)
        &&& self.service().handles(ev, &after.service(), &intake.work)
        &&& intake.work.handlers() == self.service().handlers()
        &&& after.service().handlers() == self.service().handlers()
        &&& after.spec_composition() == self.spec_composition()
    }

    /// Whether the collection may pass through `states` while it takes in
    /// `events`, one after the other, and so lead to `intakes`: each event
    /// takes the collection from one state to the next.
    pub open spec fn runs_through(states: Seq<Self>, events: Seq<(u64, Event)>, intakes: Seq<Intake<T::Work>>) -> bool {
        &&& states.len() == events.len() + 1
        &&& intakes.len() == events.len()
        &&& forall|i: int|
            0 <= i < events.len() ==> (#[trigger] states[i]).accepts(
                events[i].0,
                &events[i].1,
                &states[i + 1],
                &intakes[i],
            )
    }

    /// Whether taking in `events`, one after the other, may lead to `intakes`
    /// and leave the collection as `after`.
    pub open spec fn runs(&self, events: Seq<(u64, Event)>, after: &Self, intakes: Seq<Intake<T::Work>>) -> bool {
        exists|states: Seq<Self>|
            {
                &&& #[trigger] Self::runs_through(states, events, intakes)
                &&& states.first() == *self
                &&& states.last() == *after
            }
    }

    /// Add a service to the service collection.
    pub fn add<S: Service>(self, service: S) -> (services: Services<Cons<T, S>>)
        ensures
            services.service() == Cons(self.service(), service),
            services.spec_composition() == self.spec_composition(),
    {
        Services { service: Cons::new(self.service, service), composition: self.composition }
    }

    /// Takes in one event of the stream: every service is handed the event
    /// once, and what comes back is the work that it started in all of them.
    pub fn accept(&mut self, shard_id: u64, ev: &Event) -> (intake: Intake<T::Work>)
        ensures
            old(self).accepts(shard_id, ev, final(self), &intake),
    {
        // print status info
        let notice = notice(shard_id, ev);
        let work = self.service.handle(ev);
        Intake { notice, work }
    }

    /// Runs the services for each event in the stream, in the order of the
    /// stream. No event waits for the work of an earlier one.
    pub fn run(&mut self, events: &Vec<(u64, Event)>) -> (intakes: Vec<Intake<T::Work>>)
        ensures
            old(self).runs(events@, final(self), intakes@),
            intakes@.len() == events@.len(),
            forall|i: int|
                0 <= i < intakes@.len() ==> (#[trigger] intakes@[i]).work.handlers() == old(
                    self,
                ).service().handlers(),
    {
        let mut intakes: Vec<Intake<T::Work>> = Vec::new();
        let mut i: usize = 0;
        let ghost mut states: Seq<Self> = seq![*self];
        while i < events.len()
            invariant
                i <= events@.len(),
                Self::runs_through(states, events@.take(i as int), intakes@),
                states.first() == *old(self),
                states.last() == *self,
            decreases events@.len() - i,
        {
            let ghost before = states;
            let intake = self.accept(events[i].0, &events[i].1);
            intakes.push(intake);
            proof {
                states = states.push(*self);
                assert forall|j: int| 0 <= j < i + 1 implies (#[trigger] states[j]).accepts(
                    events@.take(i + 1)[j].0,
                    &events@.take(i + 1)[j].1,
                    &states[j + 1],
                    &intakes@[j],
                ) by {
                    if j < i {
                        assert(before[j].accepts(
                            events@.take(i as int)[j].0,
                            &events@.take(i as int)[j].1,
                            &before[j + 1],
                            &intakes@[j],
                        ));
                    }
                }
            }
            i = i + 1;
        }
        proof {
            assert forall|j: int| 0 <= j < intakes@.len() implies (#[trigger] intakes@[j]).work.handlers()
                == old(self).service().handlers() by {
                handlers_stay(states, events@, intakes@, j);
            }
        }
        intakes
    }
}

/// The number of handlers behind a collection stays what it is while the
/// collection takes in events.
pub proof fn handlers_stay<T: Service>(
    states: Seq<Services<T>>,
    events: Seq<(u64, Event)>,
    intakes: Seq<Intake<T::Work>>,
    i: int,
)
    requires
        Services::<T>::runs_through(states, events, intakes),
        0 <= i < events.len(),
    ensures
        states[i].service().handlers() == states[0].service().handlers(),
        intakes[i].work.handlers() == states[0].service().handlers(),
    decreases i,
{
    if i > 0 {
        handlers_stay(states, events, intakes, i - 1);
    }
}

} // verus!
