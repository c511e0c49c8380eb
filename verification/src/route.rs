//! The mathematical model of a route: what it holds, what it has taken in and
//! what became of each envelope, with the transitions it can make.

use vstd::prelude::*;
use crate::env::Env;
use crate::status::{CallMode, Status};

verus! {

/// What one delivery attempt did.
#[derive(Clone, Copy, Debug, PartialEq, Eq, Structural)]
pub enum Delivery {
    /// There was no envelope to deliver. Nothing happened.
    Drained,
    /// There was an envelope but no execution context: the envelope was
    /// destroyed and the callback did not run.
    Discarded,
    /// The callback ran once, with the execution context and the payload.
    Delivered,
}

/// How one envelope left the queue: its payload, and the execution context
/// of the delivery attempt that took it out. With a context the envelope was
/// taken for the callback to run on its payload; without one, to be discarded.
pub struct Settled<T> {
    pub payload: T,
    pub context: Option<Env>,
}

/// The state of a route.
pub struct Route<T> {
    /// How many envelopes may be queued at a time; 0 sets no limit.
    pub capacity: nat,
    /// Whether this route alone keeps the coordinating thread's loop alive.
    pub referenced: bool,
    /// Whether the loop was seen going away. Once set, it stays set.
    pub closing: bool,
    /// The payloads that are queued, oldest first.
    pub pending: Seq<T>,
    /// Every payload that was ever queued, in the order of submission.
    pub accepted: Seq<T>,
    /// Every envelope that left the queue, in the order in which it left.
    pub settled: Seq<Settled<T>>,
}

/// What a delivery attempt does, given whether an execution context and an
/// envelope are there.
pub open spec fn delivery_of(context: bool, envelope: bool) -> Delivery {
    if !envelope {
        Delivery::Drained
    } else if !context {
        Delivery::Discarded
    } else {
        Delivery::Delivered
    }
}

impl<T> Route<T> {
    /// A route as it is right after its creation.
    pub open spec fn created(capacity: nat) -> Self {
        Route {
            capacity,
            referenced: true,
            closing: false,
            pending: Seq::empty(),
            accepted: Seq::empty(),
            settled: Seq::empty(),
        }
    }

    /// A bounded route that holds as many envelopes as it may.
    pub open spec fn full(self) -> bool {
        self.capacity > 0 && self.pending.len() >= self.capacity
    }

    /// Whether a submission in `mode` has to wait: it is blocking, the route
    /// is full, and the route is still open, so that room may yet be made.
    pub open spec fn waits(self, mode: CallMode) -> bool {
        mode == CallMode::Blocking && self.full() && !self.closing
    }

    /// What a submission in `mode` that does not wait is answered with.
    pub open spec fn verdict(self, mode: CallMode) -> Status
        recommends
            !self.waits(mode),
    {
        if self.full() && mode == CallMode::NonBlocking {
            Status::QueueFull
        } else if self.closing {
            Status::Closing
        } else {
            Status::Success
        }
    }

    /// The route after it has queued `data`.
    pub open spec fn accept(self, data: T) -> Self {
        Route {
            pending: self.pending.push(data),
            accepted: self.accepted.push(data),
            ..self
        }
    }

    /// The route after a submission of `data` in `mode` that did not wait:
    /// unchanged unless the submission was taken.
    pub open spec fn submit(self, data: T, mode: CallMode) -> Self
        recommends
            !self.waits(mode),
    {
        if self.verdict(mode) == Status::Success {
            self.accept(data)
        } else {
            self
        }
    }

    /// What the next delivery attempt does under `env`.
    pub open spec fn outcome(self, env: Option<Env>) -> Delivery {
        delivery_of(env is Some, self.pending.len() > 0)
    }

    /// The route after a delivery attempt under `env`: the oldest envelope,
    /// if there is one, has left the queue, and an absent execution context
    /// has closed the route.
    pub open spec fn settle(self, env: Option<Env>) -> Self {
        if self.pending.len() == 0 {
            Route { closing: self.closing || env is None, ..self }
        } else {
            Route {
                closing: self.closing || env is None,
                pending: self.pending.drop_first(),
                settled: self.settled.push(Settled { payload: self.pending[0], context: env }),
                ..self
            }
        }
    }

    /// The route after `n` delivery attempts in a row, each under `env`.
    pub open spec fn settle_times(self, env: Option<Env>, n: nat) -> Self
        decreases n,
    {
        if n == 0 {
            self
        } else {
            self.settle(env).settle_times(env, (n - 1) as nat)
        }
    }

    /// The route after it was told whether to keep the loop alive.
    pub open spec fn hold(self, referenced: bool) -> Self {
        Route { referenced, ..self }
    }

    /// A bounded route never holds more than its capacity.
    pub open spec fn bounded(self) -> bool {
        self.capacity > 0 ==> self.pending.len() <= self.capacity
    }

    /// Nothing is lost and nothing is made up: the payloads taken in are those
    /// that have left the queue followed by those still in it, in that order.
    pub open spec fn conserved(self) -> bool {
        self.accepted == self.settled.map_values(|s: Settled<T>| s.payload) + self.pending
    }

    /// While the route is open, no envelope has been discarded.
    pub open spec fn attended(self) -> bool {
        !self.closing ==> forall|i: int|
            0 <= i < self.settled.len() ==> (#[trigger] self.settled[i]).context is Some
    }

    /// What holds of a route in every state it can reach.
    pub open spec fn inv(self) -> bool {
        &&& self.bounded()
        &&& self.conserved()
        &&& self.attended()
    }

    /// A route starts out in a state that meets the invariant.
    pub proof fn lemma_created_inv(capacity: nat)
        ensures
            Self::created(capacity).inv(),
    {
        let route = Self::created(capacity);
        assert(route.settled.map_values(|s: Settled<T>| s.payload) + route.pending =~= route.accepted);
    }

    /// A submission that does not wait keeps the invariant.
    pub proof fn lemma_submit_keeps_inv(self, data: T, mode: CallMode)
        requires
            self.inv(),
            !self.waits(mode),
        ensures
            self.submit(data, mode).inv(),
    {
        let left = self.settled.map_values(|s: Settled<T>| s.payload);
        assert(left + self.pending.push(data) =~= (left + self.pending).push(data));
    }

    /// A delivery attempt keeps the invariant.
    pub proof fn lemma_settle_keeps_inv(self, env: Option<Env>)
        requires
            self.inv(),
        ensures
            self.settle(env).inv(),
    {
        let payload = |s: Settled<T>| s.payload;
        let next = self.settle(env);
        assert(next.settled.map_values(payload) + next.pending =~= self.settled.map_values(payload)
            + self.pending);
    }

    /// Every payload that was taken in is in exactly one place, and the
    /// places follow the order of submission: the payload taken in as number
    /// `i` is the one that left the queue as number `i`, or, where fewer have
    /// left, it is queued with exactly the later arrivals behind it. It left
    /// to be discarded only if the route is closing.
    pub proof fn lemma_accounted_once(self, i: int)
        requires
            self.inv(),
            0 <= i < self.accepted.len(),
        ensures
            self.accepted.len() == self.settled.len() + self.pending.len(),
            i < self.settled.len() ==> self.settled[i].payload == self.accepted[i],
            i < self.settled.len() && self.settled[i].context is None ==> self.closing,
            i >= self.settled.len() ==> self.pending[i - self.settled.len()] == self.accepted[i],
    {
        let left = self.settled.map_values(|s: Settled<T>| s.payload);
        assert(self.accepted.len() == (left + self.pending).len());
        assert(self.accepted[i] == (left + self.pending)[i]);
    }

    /// Every queued payload gets its turn, and gets it once: the payload at
    /// place `i` of the queue leaves with delivery attempt number `i + 1`
    /// from now, under the execution context of that attempt, after the
    /// payloads queued before it and before those queued behind it.
    pub proof fn lemma_turn_comes(self, env: Option<Env>, i: nat)
        requires
            i < self.pending.len(),
        ensures
            self.settle_times(env, i).pending.len() > 0,
            self.settle_times(env, i).pending[0] == self.pending[i as int],
            self.settle_times(env, i + 1).settled.len() == self.settled.len() + i + 1,
            self.settle_times(env, i + 1).settled.last() == (Settled {
                payload: self.pending[i as int],
                context: env,
            }),
            self.settle_times(env, i + 1).pending == self.pending.skip(i as int + 1),
        decreases i,
    {
        let next = self.settle(env);
        if i == 0 {
            assert(self.settle_times(env, 1) == next.settle_times(env, 0));
            assert(next.pending =~= self.pending.skip(1));
        } else {
            next.lemma_turn_comes(env, (i - 1) as nat);
            assert(self.settle_times(env, i + 1) == next.settle_times(env, i as nat));
            assert(next.pending.skip(i as int) =~= self.pending.skip(i as int + 1));
        }
    }

    /// A delivery attempt always leaves room: after it the route is not full,
    /// so a submission that had to wait is answered, with success where the
    /// route is still open and with `Closing` where it is not.
    pub proof fn lemma_delivery_makes_room(self, env: Option<Env>, mode: CallMode)
        requires
            self.bounded(),
        ensures
            !self.settle(env).full(),
            !self.settle(env).waits(mode),
            self.settle(env).verdict(mode) == if self.closing || env is None {
                Status::Closing
            } else {
                Status::Success
            },
    {
    }

    /// Telling a route again whether to keep the loop alive changes nothing,
    /// and of two tellings the later one stands.
    pub proof fn lemma_last_hold_wins(self, first: bool, last: bool)
        ensures
            self.hold(first).hold(last) == self.hold(last),
            self.hold(last).referenced == last,
    {
    }
}

} // verus!
