use std::cell::{Cell, RefCell};
use std::collections::VecDeque;
use std::rc::Rc;

use threadsafe_function::env::Env;
use threadsafe_function::route::Delivery;
use threadsafe_function::status::{CallMode, Status};
use threadsafe_function::tsfn::{Callback, ThreadsafeFunction};

/// A payload that counts how often it is destroyed.
struct Counted {
    tag: u32,
    drops: Rc<Cell<usize>>,
}

impl Drop for Counted {
    fn drop(&mut self) {
        self.drops.set(self.drops.get() + 1);
    }
}

/// The delivery entry point of the route that `left` was released from.
fn trampoline_of<T, F: Fn(Env, T) + Copy>(
    _left: &VecDeque<Callback<T, F>>,
    env: Option<Env>,
    data: Option<Callback<T, F>>,
) -> Delivery {
    ThreadsafeFunction::<T, F>::callback(env, data)
}

/// The delivery entry point of the routes that carry `T` to `callback`.
fn trampoline<T, F: Fn(Env, T) + Copy>(
    _callback: F,
    env: Option<Env>,
    data: Option<Callback<T, F>>,
) -> Delivery {
    ThreadsafeFunction::<T, F>::callback(env, data)
}

#[test]
fn trampoline_without_envelope_does_nothing() {
    let calls = Cell::new(0usize);
    let callback = |_env: Env, _data: u32| calls.set(calls.get() + 1);
    assert_eq!(trampoline(callback, Some(Env { id: 1 }), None), Delivery::Drained);
    assert_eq!(trampoline(callback, None, None), Delivery::Drained);
    assert_eq!(calls.get(), 0);
}

#[test]
fn trampoline_without_context_destroys_the_envelope_unseen() {
    let calls = Cell::new(0usize);
    let drops = Rc::new(Cell::new(0usize));
    let callback = |_env: Env, _data: Counted| calls.set(calls.get() + 1);
    let envelope = Callback { callback, data: Counted { tag: 1, drops: drops.clone() } };
    assert_eq!(trampoline(callback, None, Some(envelope)), Delivery::Discarded);
    assert_eq!(calls.get(), 0);
    assert_eq!(drops.get(), 1);
}

#[test]
fn trampoline_with_both_runs_the_callback_once() {
    let seen: RefCell<Vec<(usize, u32)>> = RefCell::new(Vec::new());
    let drops = Rc::new(Cell::new(0usize));
    let callback = |env: Env, data: Counted| seen.borrow_mut().push((env.id, data.tag));
    let envelope = Callback { callback, data: Counted { tag: 77, drops: drops.clone() } };
    assert_eq!(trampoline(callback, Some(Env { id: 9 }), Some(envelope)), Delivery::Delivered);
    assert_eq!(*seen.borrow(), vec![(9, 77)]);
    assert_eq!(drops.get(), 1);
}

#[test]
fn trampoline_runs_the_callback_of_the_envelope() {
    let left = Cell::new(0u32);
    let right = Cell::new(0u32);
    let env = Env { id: 1 };
    let to_left = |_env: Env, data: u32| left.set(data);
    let to_right = |_env: Env, data: u32| right.set(data);
    let first = Callback { callback: to_left, data: 5 };
    let second = Callback { callback: to_right, data: 6 };
    assert_eq!(trampoline(to_left, Some(env), Some(first)), Delivery::Delivered);
    assert_eq!(trampoline(to_right, Some(env), Some(second)), Delivery::Delivered);
    assert_eq!(left.get(), 5);
    assert_eq!(right.get(), 6);
}

#[test]
fn delivered_payload_is_destroyed_once() {
    let drops = Rc::new(Cell::new(0usize));
    let env = Env { id: 1 };
    let mut handle = ThreadsafeFunction::new(env, |_env: Env, _data: Counted| {});
    assert!(handle.call(Counted { tag: 1, drops: drops.clone() }, None).is_ok());
    assert_eq!(drops.get(), 0);
    assert_eq!(handle.dispatch(Some(env)), Delivery::Delivered);
    assert_eq!(drops.get(), 1);
    drop(handle);
    assert_eq!(drops.get(), 1);
}

#[test]
fn rejected_payload_comes_back_alive() {
    let drops = Rc::new(Cell::new(0usize));
    let env = Env { id: 1 };
    let mut handle = ThreadsafeFunction::with_capacity(env, 1, |_env: Env, _data: Counted| {});
    assert!(handle.call(Counted { tag: 1, drops: drops.clone() }, Some(CallMode::NonBlocking)).is_ok());
    let error = match handle.call(Counted { tag: 2, drops: drops.clone() }, Some(CallMode::NonBlocking)) {
        Ok(()) => panic!("a full route takes nothing"),
        Err(error) => error,
    };
    assert_eq!(error.kind(), Status::QueueFull);
    assert_eq!(drops.get(), 0);
    let payload = error.into_inner();
    assert_eq!(payload.tag, 2);
    assert_eq!(drops.get(), 0);
    drop(payload);
    assert_eq!(drops.get(), 1);
}

#[test]
fn giving_the_handle_up_frees_no_envelope() {
    let calls = Cell::new(0usize);
    let drops = Rc::new(Cell::new(0usize));
    let env = Env { id: 1 };
    let mut handle = ThreadsafeFunction::new(env, |_env: Env, _data: Counted| calls.set(calls.get() + 1));
    for tag in 0..5u32 {
        assert!(handle.call(Counted { tag, drops: drops.clone() }, None).is_ok());
    }
    assert_eq!(handle.dispatch(Some(env)), Delivery::Delivered);
    assert_eq!(calls.get(), 1);
    assert_eq!(drops.get(), 1);
    let mut left = handle.release();
    // Giving up ran nothing and destroyed nothing.
    assert_eq!(calls.get(), 1);
    assert_eq!(drops.get(), 1);
    assert_eq!(left.len(), 4);
    let tags: Vec<u32> = left.iter().map(|envelope| envelope.data.tag).collect();
    assert_eq!(tags, vec![1, 2, 3, 4]);
    // Each of them now meets one end: two are delivered, then the loop goes
    // away and two are discarded.
    for _ in 0..2 {
        let envelope = left.pop_front();
        assert_eq!(trampoline_of(&left, Some(env), envelope), Delivery::Delivered);
    }
    assert_eq!(calls.get(), 3);
    assert_eq!(drops.get(), 3);
    for _ in 0..2 {
        let envelope = left.pop_front();
        assert_eq!(trampoline_of(&left, None, envelope), Delivery::Discarded);
    }
    assert_eq!(calls.get(), 3);
    assert_eq!(drops.get(), 5);
    let envelope = left.pop_front();
    assert_eq!(trampoline_of(&left, Some(env), envelope), Delivery::Drained);
    assert_eq!(drops.get(), 5);
    assert_eq!(Rc::strong_count(&drops), 1);
}

#[test]
fn released_envelopes_carry_the_callback_of_the_route() {
    let left_total = Cell::new(0u32);
    let right_total = Cell::new(0u32);
    let env = Env { id: 1 };
    let mut left = ThreadsafeFunction::new(env, |_env: Env, data: u32| left_total.set(left_total.get() + data));
    let mut right =
        ThreadsafeFunction::new(env, |_env: Env, data: u32| right_total.set(right_total.get() + data));
    assert!(left.call(1, None).is_ok());
    assert!(right.call(10, None).is_ok());
    assert!(left.call(2, None).is_ok());
    for envelope in left.release() {
        assert_eq!(ThreadsafeFunction::callback(Some(env), Some(envelope)), Delivery::Delivered);
    }
    assert_eq!(left_total.get(), 3);
    assert_eq!(right_total.get(), 0);
    for envelope in right.release() {
        assert_eq!(ThreadsafeFunction::callback(Some(env), Some(envelope)), Delivery::Delivered);
    }
    assert_eq!(right_total.get(), 10);
}

/// A payload that knows its own route, so that the callback can submit.
struct Job {
    route: Rc<RefCell<ThreadsafeFunction<Job, fn(Env, Job)>>>,
    rounds: u32,
    log: Rc<RefCell<Vec<u32>>>,
}

fn resubmit(_env: Env, job: Job) {
    job.log.borrow_mut().push(job.rounds);
    if job.rounds > 0 {
        let next = Job { route: job.route.clone(), rounds: job.rounds - 1, log: job.log.clone() };
        assert!(job.route.borrow_mut().call(next, Some(CallMode::NonBlocking)).is_ok());
    }
}

#[test]
fn callback_may_submit_to_its_own_route() {
    let env = Env { id: 1 };
    let callback: fn(Env, Job) = resubmit;
    let route = Rc::new(RefCell::new(ThreadsafeFunction::with_capacity(env, 1, callback)));
    let log = Rc::new(RefCell::new(Vec::new()));
    let first = Job { route: route.clone(), rounds: 3, log: log.clone() };
    assert!(route.borrow_mut().call(first, None).is_ok());
    let mut delivered = 0;
    loop {
        // The route is let go before the callback runs.
        let envelope = route.borrow_mut().take(Some(env));
        if ThreadsafeFunction::callback(Some(env), envelope) == Delivery::Drained {
            break;
        }
        delivered += 1;
    }
    assert_eq!(delivered, 4);
    assert_eq!(*log.borrow(), vec![3, 2, 1, 0]);
    assert_eq!(route.borrow().len(), 0);
    assert_eq!(Rc::strong_count(&route), 1);
}

#[test]
fn discarded_payload_is_destroyed_once() {
    let calls = Cell::new(0usize);
    let drops = Rc::new(Cell::new(0usize));
    let env = Env { id: 1 };
    let mut handle = ThreadsafeFunction::new(env, |_env: Env, _data: Counted| calls.set(calls.get() + 1));
    assert!(handle.call(Counted { tag: 1, drops: drops.clone() }, None).is_ok());
    assert!(handle.call(Counted { tag: 2, drops: drops.clone() }, None).is_ok());
    assert_eq!(handle.dispatch(None), Delivery::Discarded);
    assert_eq!(drops.get(), 1);
    assert_eq!(handle.dispatch(None), Delivery::Discarded);
    assert_eq!(drops.get(), 2);
    assert_eq!(handle.dispatch(None), Delivery::Drained);
    assert_eq!(calls.get(), 0);
    assert_eq!(drops.get(), 2);
}

fn bump(env: Env, cell: Rc<Cell<usize>>) {
    cell.set(cell.get() + env.id);
}

#[test]
fn function_pointer_serves_as_callback() {
    let callback: fn(Env, Rc<Cell<usize>>) = bump;
    let cell = Rc::new(Cell::new(0usize));
    let env = Env { id: 3 };
    let mut handle = ThreadsafeFunction::with_capacity(env, 2, callback);
    assert!(handle.call(cell.clone(), None).is_ok());
    assert!(handle.call(cell.clone(), Some(CallMode::NonBlocking)).is_ok());
    assert_eq!(cell.get(), 0);
    assert_eq!(handle.dispatch(Some(env)), Delivery::Delivered);
    assert_eq!(cell.get(), 3);
    assert_eq!(handle.dispatch(Some(env)), Delivery::Delivered);
    assert_eq!(cell.get(), 6);
    assert_eq!(handle.dispatch(Some(env)), Delivery::Drained);
    assert_eq!(cell.get(), 6);
    assert_eq!(Rc::strong_count(&cell), 1);
}
