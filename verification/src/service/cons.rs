//! Two services side by side, and the join of their work.

use vstd::prelude::*;
use super::{Composition, Service, Work};
use crate::event::Event;

verus! {

/// Two services that are handed every event together.
pub struct Cons<T, U>(pub T, pub U);

impl<T, U> Cons<T, U> {
    /// Puts two services side by side.
    pub fn new(first: T, second: U) -> (cons: Cons<T, U>)
        ensures
            cons.0 == first,
            cons.1 == second,
    {
        Cons(first, second)
    }
}

impl<T: Service, U: Service> Service for Cons<T, U> {
    type Work = Future<T::Work, U::Work>;

    open spec fn handlers(&self) -> nat {
        self.0.handlers() + self.1.handlers()
    }

    /// Both services handle the event, and the work is the join of theirs.
    open spec fn handles(&self, ev: &Event, after: &Self, work: &Self::Work) -> bool {
        &&& work.first() matches Some(first)
        &&& work.second() matches Some(second)
        &&& self.0.handles(ev, &after.0, &first)
        &&& self.1.handles(ev, &after.1, &second)
    }

    fn handle(&mut self, ev: &Event) -> (work: Self::Work) {
        let first = self.0.handle(ev);
        let second = self.1.handle(ev);
        Future::new(first, second)
    }
}

/// The join of two pieces of work: one slot for each. A slot holds its work
/// for as long as that is running and is empty from the moment it is done.
#[derive(Debug)]
pub struct Future<F, G>(Option<F>, Option<G>);

impl<F, G> Future<F, G> {
    /// The first slot: the work that is still running in it, if any is.
    pub closed spec fn first(&self) -> Option<F> {
        self.0
    }

    /// The second slot.
    pub closed spec fn second(&self) -> Option<G> {
        self.1
    }

    /// Whether both slots are done.
    pub open spec fn is_done(&self) -> bool {
        self.first() is None && self.second() is None
    }

    /// Whether a round of polling under `composition` reaches the second slot,
    /// given the first slot after its turn: side by side always, in sequence
    /// only once the first slot is done.
    pub open spec fn reaches_second(composition: Composition, first: Option<F>) -> bool {
        composition is Concurrent || first is None
    }

    /// Joins two pieces of work, both running.
    pub fn new(fut1: F, fut2: G) -> (join: Future<F, G>)
        ensures
            join.first() == Some(fut1),
            join.second() == Some(fut2),
    {
        Future(Some(fut1), Some(fut2))
    }

    /// Whether both slots are done.
    pub fn done(&self) -> (done: bool)
        ensures
            done == self.is_done(),
    {
        self.0.is_none() && self.1.is_none()
    }

    /// Takes the join apart.
    pub fn into_parts(self) -> (parts: (Option<F>, Option<G>))
        ensures
            parts.0 == self.first(),
            parts.1 == self.second(),
    {
        (self.0, self.1)
    }

    /// One round of polling. `poll_first` and `poll_second` each take the work
    /// of a slot and give it back unless it is done. A slot that is done is
    /// not polled again, and stays done. The result tells whether the join is
    /// done: whether both slots are.
    pub fn poll<P, Q>(&mut self, composition: Composition, poll_first: P, poll_second: Q) -> (ready: bool)
        where
            P: FnOnce(F) -> Option<F>,
            Q: FnOnce(G) -> Option<G>,
        requires
            old(self).first() matches Some(fut) ==> poll_first.requires((fut,)),
            old(self).second() matches Some(fut) ==> poll_second.requires((fut,)),
        ensures
            match old(self).first() {
                Some(fut) => poll_first.ensures((fut,), final(self).first()),
                None => final(self).first() is None,
            },
            match old(self).second() {
                Some(fut) => if Self::reaches_second(composition, final(self).first()) {
                    poll_second.ensures((fut,), final(self).second())
                } else {
                    final(self).second() == Some(fut)
                },
                None => final(self).second() is None,
            },
            ready == final(self).is_done(),
    {
        run_optional_future(&mut self.0, poll_first);
        let reaches = match composition {
            Composition::Concurrent => true,
            Composition::Sequential => self.0.is_none(),
        };
        if reaches {
            run_optional_future(&mut self.1, poll_second);
        }
        self.0.is_none() && self.1.is_none()
    }
}

impl<F: Work, G: Work> Work for Future<F, G> {
    /// The handlers whose work is still running in the two slots.
    open spec fn handlers(&self) -> nat {
        (match self.first() {
            Some(fut) => fut.handlers(),
            None => 0,
        }) + (match self.second() {
            Some(fut) => fut.handlers(),
            None => 0,
        })
    }
}

/// Polls one slot of a join: the work in it, if there is any, is handed to
/// `poll` and put back unless `poll` found it done. An empty slot is left
/// alone.
pub fn run_optional_future<F, P>(fut: &mut Option<F>, poll: P)
    where
        P: FnOnce(F) -> Option<F>,
    requires
        *old(fut) matches Some(inner) ==> poll.requires((inner,)),
    ensures
        match *old(fut) {
            Some(inner) => poll.ensures((inner,), *final(fut)),
            None => *final(fut) is None,
        },
{
    match fut.take() {
        Some(inner) => {
            *fut = poll(inner);
        },
        None => {},
    }
}

/// What one poll leaves of work that needs `left` more polls to be done.
/// `None` stands for work that is done, as an empty slot does.
pub open spec fn polled(left: Option<nat>) -> Option<nat> {
    match left {
        Some(n) => if n > 1 {
            Some((n - 1) as nat)
        } else {
            None
        },
        None => None,
    }
}

/// The polls that work needs to be done.
pub open spec fn polls_left(left: Option<nat>) -> nat {
    match left {
        Some(n) => if n > 1 {
            n
        } else {
            1
        },
        None => 0,
    }
}

/// What one round of polling leaves of two pieces of work: what
/// [`Future::poll`] does to a join whose slots are polled by [`polled`].
pub open spec fn round(composition: Composition, slots: (Option<nat>, Option<nat>)) -> (Option<nat>, Option<nat>) {
    let first = polled(slots.0);
    let second = if Future::<nat, nat>::reaches_second(composition, first) {
        polled(slots.1)
    } else {
        slots.1
    };
    (first, second)
}

/// A round of [`Future::poll`] on a join whose work counts its polls down is
/// a [`round`]: whatever the contract of `poll` allows the join to be after
/// such a round is what `round` says.
pub proof fn poll_of_countdowns_is_a_round(
    composition: Composition,
    before: Future<nat, nat>,
    after: Future<nat, nat>,
)
    requires
        match before.first() {
            Some(left) => after.first() == polled(Some(left)),
            None => after.first() is None,
        },
        match before.second() {
            Some(left) => if Future::<nat, nat>::reaches_second(composition, after.first()) {
                after.second() == polled(Some(left))
            } else {
                after.second() == Some(left)
            },
            None => after.second() is None,
        },
    ensures
        (after.first(), after.second()) == round(composition, (before.first(), before.second())),
{
}

/// What `n` rounds of polling leave of two pieces of work.
pub open spec fn rounds(composition: Composition, slots: (Option<nat>, Option<nat>), n: nat) -> (Option<nat>, Option<nat>)
    decreases n,
{
    if n == 0 {
        slots
    } else {
        rounds(composition, round(composition, slots), (n - 1) as nat)
    }
}

/// The rounds that a join takes side by side: as many as the slower of its
/// slots needs polls.
pub open spec fn concurrent_rounds(slots: (Option<nat>, Option<nat>)) -> nat {
    if polls_left(slots.0) >= polls_left(slots.1) {
        polls_left(slots.0)
    } else {
        polls_left(slots.1)
    }
}

/// The rounds that a join takes in sequence: as many as both of its slots
/// need polls, less the one round in which the first slot ends and the
/// second begins.
pub open spec fn sequential_rounds(slots: (Option<nat>, Option<nat>)) -> nat {
    if polls_left(slots.0) == 0 {
        polls_left(slots.1)
    } else if polls_left(slots.1) == 0 {
        polls_left(slots.0)
    } else {
        (polls_left(slots.0) + polls_left(slots.1) - 1) as nat
    }
}

/// Side by side, a join is done after exactly as many rounds as the slower of
/// its slots needs polls: a slot that takes long keeps the other from
/// nothing.
pub proof fn concurrent_join_takes_its_slower_slot(slots: (Option<nat>, Option<nat>), n: nat)
    ensures
        rounds(Composition::Concurrent, slots, n) == (None::<nat>, None::<nat>) <==> n >= concurrent_rounds(slots),
    decreases n,
{
    if n > 0 {
        concurrent_join_takes_its_slower_slot(round(Composition::Concurrent, slots), (n - 1) as nat);
    }
}

/// In sequence, a join is done after exactly as many rounds as both of its
/// slots need together.
pub proof fn sequential_join_takes_both_slots(slots: (Option<nat>, Option<nat>), n: nat)
    ensures
        rounds(Composition::Sequential, slots, n) == (None::<nat>, None::<nat>) <==> n >= sequential_rounds(slots),
    decreases n,
{
    if n > 0 {
        sequential_join_takes_both_slots(round(Composition::Sequential, slots), (n - 1) as nat);
    }
}

} // verus!
