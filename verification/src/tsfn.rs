//! The gateway handle: one registered route from any number of submitting
//! contexts to the callback that runs on the coordinating thread.

use std::collections::VecDeque;
use vstd::prelude::*;
use crate::env::Env;
use crate::error::CallError;
use crate::route::{delivery_of, Delivery, Route, Settled};
use crate::status::{mode_of, resolve_mode, CallMode, Status};

verus! {

/// One payload in flight, paired with the callback that is to receive it.
///
/// An envelope is made by a submission and destroyed exactly once: by
/// `callback`, which the delivery attempt that took it out of the queue hands
/// it to, or at once by the submission itself where the route did not take
/// it.
pub struct Callback<T, F> {
    pub callback: F,
    pub data: T,
}

/// A route on which payloads are submitted, to be handed one by one, in the
/// order of their submission, to the callback it was created with.
///
/// The handle owns the queue. `release` gives the handle up and keeps what is
/// queued deliverable; a handle that merely goes out of scope takes its queue
/// with it, and the callback runs for none of it.
pub struct ThreadsafeFunction<T, F> {
    callback: F,
    capacity: usize,
    referenced: bool,
    closing: bool,
    queue: VecDeque<Callback<T, F>>,
    accepted: Ghost<Seq<T>>,
    settled: Ghost<Seq<Settled<T>>>,
}

impl<T, F> View for ThreadsafeFunction<T, F> {
    type V = Route<T>;

    closed spec fn view(&self) -> Route<T> {
        Route {
            capacity: self.capacity as nat,
            referenced: self.referenced,
            closing: self.closing,
            pending: self.queue@.map_values(|envelope: Callback<T, F>| envelope.data),
            accepted: self.accepted@,
            settled: self.settled@,
        }
    }
}

impl<T, F: Fn(Env, T) + Copy> ThreadsafeFunction<T, F> {
    /// The callback that the route was created with.
    pub closed spec fn handler(&self) -> F {
        self.callback
    }

    /// Every queued envelope carries the callback of the route.
    pub closed spec fn stamped(&self) -> bool {
        forall|i: int| 0 <= i < self.queue@.len() ==> (#[trigger] self.queue@[i]).callback == self.callback
    }

    /// The callback may be called with any execution context and payload.
    pub open spec fn callable(&self) -> bool {
        forall|env: Env, data: T| call_requires(self.handler(), (env, data))
    }

    /// The invariant of a handle.
    pub open spec fn wf(&self) -> bool {
        &&& self.stamped()
        &&& self.callable()
        &&& self@.inv()
    }

    /// Creates a route without a limit on the number of queued envelopes.
    pub fn new(env: Env, callback: F) -> (handle: Self)
        requires
            forall|env: Env, data: T| call_requires(callback, (env, data)),
        ensures
            handle.wf(),
            handle.handler() == callback,
            handle@ == Route::<T>::created(0),
    {
        Self::with_capacity(env, 0, callback)
    }

    /// Creates a route that queues at most `max_queue_size` envelopes at a
    /// time, or any number where `max_queue_size` is 0. The route starts
    /// open, empty, and keeping the loop alive.
    pub fn with_capacity(env: Env, max_queue_size: usize, callback: F) -> (handle: Self)
        requires
            forall|env: Env, data: T| call_requires(callback, (env, data)),
        ensures
            handle.wf(),
            handle.handler() == callback,
            handle@ == Route::<T>::created(max_queue_size as nat),
    {
        let handle = ThreadsafeFunction {
            callback,
            capacity: max_queue_size,
            referenced: true,
            closing: false,
            queue: VecDeque::new(),
            accepted: Ghost(Seq::empty()),
            settled: Ghost(Seq::empty()),
        };
        proof {
            assert(handle@.pending =~= Seq::<T>::empty());
            Route::<T>::lemma_created_inv(max_queue_size as nat);
        }
        handle
    }

    /// Whether a submission in the given mode would have to wait for room:
    /// it is blocking (`None` stands for `Blocking`), the route is bounded and
    /// full, and the route is not closing.
    pub fn must_wait(&self, is_blocking: Option<CallMode>) -> (wait: bool)
        ensures
            wait == self@.waits(mode_of(is_blocking)),
    {
        match resolve_mode(is_blocking) {
            CallMode::Blocking => self.is_full() && !self.closing,
            CallMode::NonBlocking => false,
        }
    }

    /// Whether the route is bounded and holds as many envelopes as it may.
    fn is_full(&self) -> (full: bool)
        ensures
            full == self@.full(),
    {
        self.capacity > 0 && self.queue.len() >= self.capacity
    }

    /// Puts an envelope at the end of the queue, or hands it back with the
    /// reason why the queue did not take it.
    fn enqueue(&mut self, envelope: Callback<T, F>, mode: CallMode) -> (result: Result<
        (),
        (Status, Callback<T, F>),
    >)
        requires
            old(self).wf(),
            !old(self)@.waits(mode),
            envelope.callback == old(self).handler(),
        ensures
            final(self).wf(),
            final(self).handler() == old(self).handler(),
            final(self)@ == old(self)@.submit(envelope.data, mode),
            match result {
                Ok(()) => old(self)@.verdict(mode) == Status::Success,
                Err((status, back)) => status == old(self)@.verdict(mode) && status != Status::Success
                    && back == envelope,
            },
    {
        let full = self.is_full();
        if full && mode == CallMode::NonBlocking {
            return Err((Status::QueueFull, envelope));
        }
        if self.closing {
            return Err((Status::Closing, envelope));
        }
        proof {
            self.accepted@ = self.accepted@.push(envelope.data);
        }
        self.queue.push_back(envelope);
        proof {
            assert(self@.pending =~= old(self)@.pending.push(envelope.data));
            old(self)@.lemma_submit_keeps_inv(envelope.data, mode);
        }
        Ok(())
    }

    /// Schedules the callback to run with `data` on the coordinating thread.
    ///
    /// `is_blocking` chooses what a full bounded route means: `NonBlocking`
    /// fails at once; `Blocking`, which `None` stands for, waits for room. The
    /// handle is held exclusively for the length of the call, so no room can
    /// be made meanwhile: the waiting, where `must_wait` calls for it, is done
    /// before the call.
    ///
    /// On success the payload belongs to the route. On failure the route is
    /// unchanged and the error carries the payload back.
    pub fn call(&mut self, data: T, is_blocking: Option<CallMode>) -> (result: Result<
        (),
        CallError<T>,
    >)
        requires
            old(self).wf(),
            !old(self)@.waits(mode_of(is_blocking)),
        ensures
            final(self).wf(),
            final(self).handler() == old(self).handler(),
            final(self)@ == old(self)@.submit(data, mode_of(is_blocking)),
            match result {
                Ok(()) => old(self)@.verdict(mode_of(is_blocking)) == Status::Success,
                Err(error) => error.failure() == old(self)@.verdict(mode_of(is_blocking))
                    && error.failure() != Status::Success && error.payload() == data,
            },
            old(self)@.full() && is_blocking == Some(CallMode::NonBlocking) ==> (result matches Err(error)
                && error.failure() == Status::QueueFull && error.payload() == data),
    {
        let mode = resolve_mode(is_blocking);
        let envelope = Callback { callback: self.callback, data };
        match self.enqueue(envelope, mode) {
            Ok(()) => Ok(()),
            // The queue did not take the envelope, so the callback will not
            // run for it: take the payload out again.
            Err((status, envelope)) => Err(CallError::reclaimed(status, envelope.data)),
        }
    }

    /// Makes this route keep the coordinating thread's loop alive, as it does
    /// from its creation on. Calling it again changes nothing.
    pub fn reference(&mut self, env: Env)
        requires
            old(self).wf(),
        ensures
            final(self).wf(),
            final(self).handler() == old(self).handler(),
            final(self)@ == old(self)@.hold(true),
    {
        self.referenced = true;
        assert(self.handler() == old(self).handler());
    }

    /// Lets the coordinating thread's loop end while this route exists.
    /// Calling it again changes nothing.
    pub fn unref(&mut self, env: Env)
        requires
            old(self).wf(),
        ensures
            final(self).wf(),
            final(self).handler() == old(self).handler(),
            final(self)@ == old(self)@.hold(false),
    {
        self.referenced = false;
        assert(self.handler() == old(self).handler());
    }

    /// Delivers one envelope on the coordinating thread.
    ///
    /// This is the only place where the callback of a route runs. It tells
    /// three situations apart. Without an envelope there is nothing to do.
    /// With an envelope but without an execution context the loop ended
    /// between submission and delivery: the envelope is destroyed and the
    /// callback does not run. With both, the callback runs once with the
    /// execution context and the payload.
    pub fn callback(env: Option<Env>, data: Option<Callback<T, F>>) -> (outcome: Delivery)
        requires
            match (env, data) {
                (Some(e), Some(c)) => call_requires(c.callback, (e, c.data)),
                _ => true,
            },
        ensures
            outcome == delivery_of(env is Some, data is Some),
            match (env, data) {
                (Some(e), Some(c)) => call_ensures(c.callback, (e, c.data), ()),
                _ => true,
            },
    {
        match data {
            None => Delivery::Drained,
            Some(envelope) => {
                let Callback { callback, data } = envelope;
                match env {
                    None => Delivery::Discarded,
                    Some(env) => {
                        callback(env, data);
                        Delivery::Delivered
                    },
                }
            },
        }
    }

    /// Opens a delivery attempt under `env`: takes the oldest envelope out of
    /// the queue, if there is one, and hands it over. The callback does not
    /// run here; whoever gets the envelope passes it to `callback` together
    /// with the same `env`, and owes the route nothing while doing so.
    ///
    /// An absent execution context says that the coordinating thread's loop
    /// has ended: the route is closing from now on.
    pub fn take(&mut self, env: Option<Env>) -> (envelope: Option<Callback<T, F>>)
        requires
            old(self).wf(),
        ensures
            final(self).wf(),
            final(self).handler() == old(self).handler(),
            final(self)@ == old(self)@.settle(env),
            match envelope {
                Some(taken) => old(self)@.pending.len() > 0 && taken.data == old(self)@.pending[0]
                    && taken.callback == old(self).handler(),
                None => old(self)@.pending.len() == 0,
            },
    {
        let envelope = self.queue.pop_front();
        if env.is_none() {
            self.closing = true;
        }
        let ghost gone = envelope;
        proof {
            assert(self.handler() == old(self).handler());
            match gone {
                Some(taken) => {
                    assert(taken == old(self).queue@[0]);
                    self.settled@ = self.settled@.push(Settled { payload: taken.data, context: env });
                    assert(self@.pending =~= old(self)@.pending.drop_first());
                },
                None => {
                    assert(self@.pending =~= old(self)@.pending);
                },
            }
            old(self)@.lemma_settle_keeps_inv(env);
        }
        envelope
    }

    /// Makes one whole delivery attempt on the coordinating thread: takes the
    /// oldest envelope out of the queue, if there is one, and delivers it
    /// under `env`.
    ///
    /// An absent execution context says that the coordinating thread's loop
    /// has ended: the envelope is then discarded, and the route is closing
    /// from now on.
    pub fn dispatch(&mut self, env: Option<Env>) -> (outcome: Delivery)
        requires
            old(self).wf(),
        ensures
            final(self).wf(),
            final(self).handler() == old(self).handler(),
            final(self)@ == old(self)@.settle(env),
            outcome == old(self)@.outcome(env),
            match env {
                Some(e) => old(self)@.pending.len() > 0 ==> call_ensures(
                    old(self).handler(),
                    (e, old(self)@.pending[0]),
                    (),
                ),
                None => true,
            },
    {
        let envelope = self.take(env);
        Self::callback(env, envelope)
    }

    /// Gives the handle up. Nothing more can be submitted; what is queued
    /// stays as it is and is handed over, oldest first, for the coordinating
    /// thread to pass to `callback` one by one. No envelope is destroyed and
    /// the callback does not run here.
    pub fn release(self) -> (left: VecDeque<Callback<T, F>>)
        requires
            self.wf(),
        ensures
            left@.len() == self@.pending.len(),
            forall|i: int|
                0 <= i < left@.len() ==> (#[trigger] left@[i]).data == self@.pending[i] && left@[i].callback
                    == self.handler(),
    {
        self.queue
    }

    /// How many envelopes may be queued at a time; 0 sets no limit.
    pub fn capacity(&self) -> (capacity: usize)
        ensures
            capacity == self@.capacity,
    {
        self.capacity
    }

    /// How many envelopes are queued.
    pub fn len(&self) -> (len: usize)
        ensures
            len == self@.pending.len(),
    {
        self.queue.len()
    }

    /// Whether this route keeps the coordinating thread's loop alive.
    pub fn is_referenced(&self) -> (referenced: bool)
        ensures
            referenced == self@.referenced,
    {
        self.referenced
    }

    /// Whether the coordinating thread's loop was seen going away.
    pub fn is_closing(&self) -> (closing: bool)
        ensures
            closing == self@.closing,
    {
        self.closing
    }
}

} // verus!
