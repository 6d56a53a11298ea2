//! Launching independent workers and waiting for every one of them.
//!
//! [`TaskCoordinator::spawn`] begins a unit of work on its own execution
//! context and returns a [`WorkHandle`], a completion token that can be
//! waited on at most once. [`TaskCoordinator::join`] blocks until the worker
//! terminates and returns its [`Outcome`]; a second wait on the same handle
//! reports [`Outcome::DoubleJoin`] instead, deterministically.
//! [`TaskCoordinator::join_all`] waits for a whole batch and returns the
//! outcomes in the order of the handles it was given, whatever order the
//! workers actually finished in.

use vstd::prelude::*;
use vstd::*;
use crate::container::{AccessOutcome, ReadError, SharedContainer};

verus! {

/// Completion token for one spawned worker: one handle per worker.
///
/// A handle may be waited on at most once; the first wait consumes it.
#[verifier::reject_recursive_types(R)]
pub struct WorkHandle<R> {
    task: Option<thread::JoinHandle<R>>,
}

/// What waiting on a [`WorkHandle`] yielded.
#[derive(Debug, PartialEq, Eq)]
pub enum Outcome<R> {
    /// The worker ran to completion and returned this value.
    Completed(R),
    /// The worker terminated abnormally; its failure is captured here as
    /// data and is never re-raised.
    WorkerFailed,
    /// The handle had already been waited on: a usage error.
    DoubleJoin,
}

impl<R> WorkHandle<R> {
    /// Whether the handle has not yet been consumed by a wait.
    pub closed spec fn is_joinable(&self) -> bool {
        self.task is Some
    }

    /// Whether `r` is a value the worker behind this handle may return,
    /// per the postcondition of the closure it was spawned with.
    pub closed spec fn can_complete_with(&self, r: R) -> bool {
        self.task matches Some(j) && j.predicate(r)
    }
}

/// Spawns concurrent units of work and collects their completion signals.
pub struct TaskCoordinator {}

impl TaskCoordinator {
    /// A coordinator that has spawned nothing yet.
    pub fn new() -> (c: TaskCoordinator) {
        TaskCoordinator {}
    }

    /// Begins executing `work` concurrently with the caller and with all
    /// previously spawned work; returns immediately with a fresh handle,
    /// without blocking the caller.
    pub fn spawn<R, F>(&self, work: F) -> (h: WorkHandle<R>) where
        R: Send + 'static,
        F: FnOnce() -> R + Send + 'static,

        requires
            work.requires(()),
        ensures
            h.is_joinable(),
            forall|r: R| #[trigger] h.can_complete_with(r) ==> work.ensures((), r),
    {
        WorkHandle { task: Some(thread::spawn(work)) }
    }

    /// Blocks the calling context until the worker behind `h` terminates,
    /// and returns its outcome; the handle is consumed, so waiting on it
    /// again yields [`Outcome::DoubleJoin`] — always, and nothing else.
    /// An abnormal termination of the worker is returned as
    /// [`Outcome::WorkerFailed`]; it does not make `join` itself fail.
    pub fn join<R>(&self, h: &mut WorkHandle<R>) -> (out: Outcome<R>)
        ensures
            !final(h).is_joinable(),
            out is DoubleJoin <==> !old(h).is_joinable(),
            out matches Outcome::Completed(r) ==> old(h).can_complete_with(r),
    {
        match h.task.take() {
            None => Outcome::DoubleJoin,
            Some(task) => match task.join() {
                Ok(r) => Outcome::Completed(r),
                Err(_) => Outcome::WorkerFailed,
            },
        }
    }

    /// Waits on each handle, in the order given; the returned outcomes
    /// match that order position by position, although the workers may have
    /// finished in any order. Every handle is consumed.
    pub fn join_all<R>(&self, hs: &mut Vec<WorkHandle<R>>) -> (outs: Vec<Outcome<R>>)
        ensures
            outs.len() == old(hs).len(),
            final(hs).len() == old(hs).len(),
            forall|i: int| 0 <= i < old(hs).len() ==> !final(hs)[i].is_joinable(),
            forall|i: int|
                0 <= i < old(hs).len() ==> ((#[trigger] outs[i]) is DoubleJoin <==> !old(
                    hs,
                )[i].is_joinable()),
            forall|i: int, r: R|
                0 <= i < old(hs).len() && outs[i] == Outcome::Completed(r) ==> old(
                    hs,
                )[i].can_complete_with(r),
    {
        let ghost orig = hs@;
        let mut outs: Vec<Outcome<R>> = Vec::new();
        let n = hs.len();
        let mut i: usize = 0;
        while i < n
            invariant
                i <= n,
                n == orig.len(),
                hs@.len() == orig.len(),
                outs@.len() == i,
                forall|k: int| i <= k < orig.len() ==> hs@[k] == orig[k],
                forall|k: int| 0 <= k < i ==> !hs@[k].is_joinable(),
                forall|k: int|
                    0 <= k < i ==> ((#[trigger] outs@[k]) is DoubleJoin <==> !orig[k].is_joinable()),
                forall|k: int, r: R|
                    0 <= k < i && outs@[k] == Outcome::Completed(r) ==> orig[k].can_complete_with(
                        r,
                    ),
            decreases n - i,
        {
            let out = self.join(&mut hs[i]);
            outs.push(out);
            i += 1;
        }
        outs
    }
}

/// One worker's entire job in the counter scenario: a single increment on
/// its handle, under exclusive access, that never drives the counter past
/// `bound`. The critical section always completes, and the container rules
/// poison out altogether, so the access is always applied.
fn increment_once(handle: SharedContainer<u64>, bound: u64) -> (out: AccessOutcome<u8>)
    requires
        forall|t: u64| #[trigger] handle.accepts(t) == (t <= bound),
        !handle.may_poison(),
    ensures
        out is Applied,
{
    let step = |v: u64| -> (res: Result<u64, u8>)
        requires
            v <= bound,
        ensures
            res is Ok,
            res is Ok ==> res->Ok_0 <= bound,
        {
            if v < bound {
                Ok(v + 1)
            } else {
                Ok(v)
            }
        };
    handle.with_exclusive_access(step)
}

/// The counter scenario, end to end: a container initialized to 0, `n`
/// workers that each increment it once under exclusive access, a barrier
/// over all of them, and one final read.
///
/// What the contract carries is what the lock invariant can say of every
/// stored value on its own: the counter never exceeds `n`, every wait
/// returns a real outcome, and every completed worker had its increment
/// applied. That the final value is exactly `n` is a property of the whole
/// schedule — each worker's single increment must also never be lost — and
/// lies beyond a per-value invariant; it holds at run time for every
/// scheduling because no value is ever read or written outside the lock.
/// The read consumes the last handle; it succeeds because by the time every
/// join has returned, every worker has terminated and dropped its own clone
/// of the handle.
pub fn run_counter_scenario(n: u64) -> (r: (Vec<Outcome<AccessOutcome<u8>>>, Result<
    u64,
    ReadError,
>))
    ensures
        r.0.len() == n,
        r.1 matches Ok(v) ==> v <= n,
        r.1 matches Err(e) ==> e == ReadError::OtherHoldersRemain,
        forall|i: int| 0 <= i < n ==> !((#[trigger] r.0[i]) is DoubleJoin),
        forall|i: int, out: AccessOutcome<u8>|
            0 <= i < n && r.0[i] == Outcome::Completed(out) ==> out is Applied,
{
    let counter = SharedContainer::<u64>::create_poison_free(0, Ghost(|v: u64| v <= n));
    let coordinator = TaskCoordinator::new();
    let mut handles: Vec<WorkHandle<AccessOutcome<u8>>> = Vec::new();
    let mut i: u64 = 0;
    while i < n
        invariant
            i <= n,
            handles@.len() == i,
            forall|t: u64| #[trigger] counter.accepts(t) == (t <= n),
            forall|k: int| 0 <= k < i ==> (#[trigger] handles@[k]).is_joinable(),
            !counter.may_poison(),
            forall|k: int, out: AccessOutcome<u8>|
                0 <= k < i && #[trigger] handles@[k].can_complete_with(out) ==> out is Applied,
        decreases n - i,
    {
        let worker = counter.clone_handle();
        let work = move || -> (out: AccessOutcome<u8>)
            ensures
                out is Applied,
            { increment_once(worker, n) };
        let h = coordinator.spawn(work);
        handles.push(h);
        i = i + 1;
    }
    let ghost spawned = handles@;
    let outcomes = coordinator.join_all(&mut handles);
    proof {
        assert forall|k: int, out: AccessOutcome<u8>|
            0 <= k < n && outcomes@[k] == Outcome::Completed(out) implies out is Applied by {
            assert(spawned[k].can_complete_with(out));
        }
    }
    (outcomes, counter.read_unsynchronized())
}

} // verus!
