//! Waiting for an event that is yet to come.
//!
//! A service that needs an answer from a user parks a [`Waiter`]: a guild, a
//! predicate on events and a timeout. Whoever runs the event loop offers the
//! events of that guild to the waiter and starts a timer beside it. The first
//! of the two that comes decides how the wait ends, and nothing that comes
//! after it changes that.

use vstd::prelude::*;
use crate::event::Event;

verus! {

/// What a waiter looks for in an event.
#[derive(Clone, Copy, Debug, PartialEq)]
pub enum Predicate {
    /// A reaction that the user added.
    ReactionBy { user_id: u64 },
}

impl Predicate {
    /// Whether an event is what the predicate looks for.
    pub open spec fn holds(&self, event: &Event) -> bool {
        match self {
            Predicate::ReactionBy { user_id } => match event {
                Event::ReactionAdd(reaction) => reaction.user_id == *user_id,
                _ => false,
            },
        }
    }

    pub fn test(&self, event: &Event) -> (holds: bool)
        ensures
            holds == self.holds(event),
    {
        match self {
            Predicate::ReactionBy { user_id } => match event {
                Event::ReactionAdd(reaction) => reaction.user_id == *user_id,
                _ => false,
            },
        }
    }
}

/// How far a wait has come. `Created` is the one state that a wait leaves.
#[derive(Debug, PartialEq)]
pub enum WaitState {
    /// Nothing has decided the wait yet.
    Created,
    /// The event that the waiter looked for came first.
    Fulfilled(Event),
    /// The timer ran out first.
    TimedOut,
    /// The wait was given up before either.
    Cancelled,
}

/// What can reach a waiter.
#[derive(Debug, PartialEq)]
pub enum Signal {
    /// An event came in.
    Offered(Event),
    /// The timer ran out.
    Elapsed,
    /// Whoever waited, or whoever offered events, is gone.
    Abandoned,
}

/// A one-shot listener for a future event of one guild.
#[derive(Debug, PartialEq)]
pub struct Waiter {
    /// The guild whose events the waiter is offered.
    pub scope: u64,
    pub predicate: Predicate,
    /// The seconds after which the wait times out.
    pub timeout: u64,
    pub state: WaitState,
}

impl Waiter {
    /// Whether an event fulfils the waiter: it happened in the waiter's guild
    /// and the predicate holds of it.
    pub open spec fn matches(&self, event: &Event) -> bool {
        event.spec_guild_id() == Some(self.scope) && self.predicate.holds(event)
    }

    /// The waiter after a signal. Only a waiter that is still `Created` moves:
    /// to `Fulfilled` on an event that matches, to `TimedOut` when the timer
    /// runs out, to `Cancelled` when the wait is abandoned.
    pub open spec fn after(self, signal: Signal) -> Waiter {
        if !(self.state is Created) {
            self
        } else {
            match signal {
                Signal::Offered(event) => if self.matches(&event) {
                    Waiter { state: WaitState::Fulfilled(event), ..self }
                } else {
                    self
                },
                Signal::Elapsed => Waiter { state: WaitState::TimedOut, ..self },
                Signal::Abandoned => Waiter { state: WaitState::Cancelled, ..self },
            }
        }
    }

    /// The waiter after a run of signals, in the order in which they came.
    pub open spec fn after_all(self, signals: Seq<Signal>) -> Waiter
        decreases signals.len(),
    {
        if signals.len() == 0 {
            self
        } else {
            self.after(signals[0]).after_all(signals.skip(1))
        }
    }

    /// Parks a waiter.
    pub fn new(scope: u64, predicate: Predicate, timeout: u64) -> (waiter: Waiter)
        ensures
            waiter == (Waiter { scope, predicate, timeout, state: WaitState::Created }),
    {
        Waiter { scope, predicate, timeout, state: WaitState::Created }
    }

    /// Whether nothing has decided the wait yet.
    pub fn is_pending(&self) -> (pending: bool)
        ensures
            pending == (self.state is Created),
    {
        match self.state {
            WaitState::Created => true,
            _ => false,
        }
    }

    /// Whether an event fulfils the waiter.
    pub fn test(&self, event: &Event) -> (matches: bool)
        ensures
            matches == self.matches(event),
    {
        match event.guild_id() {
            Some(guild_id) => guild_id == self.scope && self.predicate.test(event),
            None => false,
        }
    }

    /// Offers an event to the waiter.
    pub fn offer(self, event: Event) -> (waiter: Waiter)
        ensures
            waiter == self.after(Signal::Offered(event)),
    {
        if self.is_pending() && self.test(&event) {
            Waiter { scope: self.scope, predicate: self.predicate, timeout: self.timeout, state: WaitState::Fulfilled(event) }
        } else {
            self
        }
    }

    /// Tells the waiter that its timer ran out.
    pub fn expire(self) -> (waiter: Waiter)
        ensures
            waiter == self.after(Signal::Elapsed),
    {
        if self.is_pending() {
            Waiter { scope: self.scope, predicate: self.predicate, timeout: self.timeout, state: WaitState::TimedOut }
        } else {
            self
        }
    }

    /// Gives the wait up.
    pub fn cancel(self) -> (waiter: Waiter)
        ensures
            waiter == self.after(Signal::Abandoned),
    {
        if self.is_pending() {
            Waiter { scope: self.scope, predicate: self.predicate, timeout: self.timeout, state: WaitState::Cancelled }
        } else {
            self
        }
    }

    /// Hands one signal to the waiter.
    pub fn signal(self, signal: Signal) -> (waiter: Waiter)
        ensures
            waiter == self.after(signal),
    {
        match signal {
            Signal::Offered(event) => self.offer(event),
            Signal::Elapsed => self.expire(),
            Signal::Abandoned => self.cancel(),
        }
    }
}

/// A wait that has been decided stays as it is, whatever reaches it later.
pub proof fn decided_wait_is_final(waiter: Waiter, signals: Seq<Signal>)
    requires
        !(waiter.state is Created),
    ensures
        waiter.after_all(signals) == waiter,
    decreases signals.len(),
{
    if signals.len() > 0 {
        decided_wait_is_final(waiter, signals.skip(1));
    }
}

/// A signal never changes what a waiter waits for.
pub proof fn wait_keeps_its_terms(waiter: Waiter, signals: Seq<Signal>)
    ensures
        waiter.after_all(signals).scope == waiter.scope,
        waiter.after_all(signals).predicate == waiter.predicate,
        waiter.after_all(signals).timeout == waiter.timeout,
    decreases signals.len(),
{
    if signals.len() > 0 {
        wait_keeps_its_terms(waiter.after(signals[0]), signals.skip(1));
    }
}

/// The first signal that decides a fresh wait: the first one that is no event
/// the waiter passes over. `signals.len()` if there is none.
pub open spec fn first_deciding(waiter: Waiter, signals: Seq<Signal>) -> int
    decreases signals.len(),
{
    if signals.len() == 0 {
        0
    } else if decides(waiter, signals[0]) {
        0
    } else {
        1 + first_deciding(waiter, signals.skip(1))
    }
}

/// Whether a signal decides a wait that is still open.
pub open spec fn decides(waiter: Waiter, signal: Signal) -> bool {
    match signal {
        Signal::Offered(event) => waiter.matches(&event),
        _ => true,
    }
}

/// A wait is decided by the first signal that can decide it, and by no other:
/// it ends as exactly that signal says, and it stays open only as long as no
/// deciding signal has come.
pub proof fn wait_resolves_once(waiter: Waiter, signals: Seq<Signal>)
    requires
        waiter.state is Created,
    ensures
        0 <= first_deciding(waiter, signals) <= signals.len(),
        first_deciding(waiter, signals) == signals.len() ==> waiter.after_all(signals) == waiter,
        first_deciding(waiter, signals) < signals.len() ==> waiter.after_all(signals)
            == waiter.after(signals[first_deciding(waiter, signals)]) && !(waiter.after_all(
            signals,
        ).state is Created),
    decreases signals.len(),
{
    if signals.len() > 0 {
        if decides(waiter, signals[0]) {
            decided_wait_is_final(waiter.after(signals[0]), signals.skip(1));
        } else {
            wait_resolves_once(waiter, signals.skip(1));
        }
    }
}

/// A wait beside a timer ends in exactly one of two ways. Whatever events are
/// offered, once the timer has run out a wait that nobody gave up is either
/// fulfilled or timed out: not both, and not neither.
pub proof fn wait_is_fulfilled_or_timed_out(waiter: Waiter, signals: Seq<Signal>)
    requires
        waiter.state is Created,
        exists|i: int| 0 <= i < signals.len() && #[trigger] signals[i] is Elapsed,
        forall|i: int| 0 <= i < signals.len() ==> !(#[trigger] signals[i] is Abandoned),
    ensures
        (waiter.after_all(signals).state is Fulfilled) != (waiter.after_all(signals).state is TimedOut),
        !(waiter.after_all(signals).state is Created),
        !(waiter.after_all(signals).state is Cancelled),
    decreases signals.len(),
{
    let i = choose|i: int| 0 <= i < signals.len() && #[trigger] signals[i] is Elapsed;
    if decides(waiter, signals[0]) {
        decided_wait_is_final(waiter.after(signals[0]), signals.skip(1));
    } else {
        let rest = signals.skip(1);
        assert(rest[i - 1] is Elapsed);
        wait_is_fulfilled_or_timed_out(waiter, rest);
    }
}

/// Two waiters of one guild wait side by side: an event that only one of them
/// looks for fulfils that one, with that event, and leaves the other waiting.
pub proof fn event_fulfils_only_its_waiter(first: Waiter, second: Waiter, event: Event)
    requires
        first.state is Created,
        second.state is Created,
        first.scope == second.scope,
        first.matches(&event),
        !second.matches(&event),
    ensures
        first.after(Signal::Offered(event)).state == WaitState::Fulfilled(event),
        second.after(Signal::Offered(event)) == second,
{
}

} // verus!
