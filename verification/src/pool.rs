//! The controller of a race, as a protocol between the pool and whoever runs
//! the threads.
//!
//! The pool does not start, watch or join anything itself. It says what has to
//! happen next, is told when that has happened, and keeps the count.

use vstd::prelude::*;

use crate::outcome::{filled_with, SharedOutcome};
use crate::signal::CancellationSignal;
use crate::worker::Variant;

verus! {

/// What the controller has to do next.
#[derive(Clone, Copy, Debug, PartialEq, Eq, Structural)]
pub enum Directive {
    /// Start one more worker, then call `worker_spawned`.
    Spawn,
    /// Read the outcome slot through `observe`.
    Poll,
    /// Raise the cancellation signal through `cancel`.
    Cancel,
    /// Wait for one worker to stop, then call `worker_joined`.
    Join,
    /// The race is over: take the result with `into_result`.
    Return,
}

/// Why a pool cannot be set up.
#[derive(Clone, Copy, Debug, PartialEq, Eq, Structural)]
pub enum PoolError {
    /// A race needs at least one worker.
    NoWorkers,
}

/// The bookkeeping of one race.
pub struct RacePool {
    variant: Variant,
    worker_count: usize,
    spawned: usize,
    joined: usize,
    cancelled: bool,
    result: Option<Vec<isize>>,
}

/// What contracts say of a pool.
pub struct PoolView {
    /// How the pool winds down.
    pub variant: Variant,
    /// The number of workers asked for.
    pub worker_count: nat,
    /// The number of workers started so far.
    pub spawned: nat,
    /// The number of workers that have been waited for.
    pub joined: nat,
    /// Whether the pool has raised the signal.
    pub cancelled: bool,
    /// The winning value, once the pool has seen it.
    pub result: Option<Seq<isize>>,
}

/// The content of a slot as contracts of the pool speak of it.
pub open spec fn seen_in(slot: Option<Vec<isize>>) -> Option<Seq<isize>> {
    match slot {
        Some(value) => Some(value@),
        None => None,
    }
}

/// What the pool reads from a slot after an attempt is what the rule of the
/// attempt gives on what it would have read before.
pub proof fn lemma_seen_in_filled(slot: Option<Vec<isize>>, value: Vec<isize>)
    ensures
        seen_in(filled_with(slot, value)) == filled_with(seen_in(slot), value@),
{
}

impl PoolView {
    /// A pool before anything has happened.
    pub open spec fn start(variant: Variant, worker_count: nat) -> PoolView {
        PoolView { variant, worker_count, spawned: 0, joined: 0, cancelled: false, result: None }
    }

    /// What holds of a pool at every moment of a race.
    ///
    /// The pool looks for a result only when every worker runs, raises the
    /// signal only in the joining variant and only once it has a result, and
    /// waits for workers only after raising the signal.
    pub open spec fn valid(self) -> bool {
        &&& 1 <= self.worker_count
        &&& self.joined <= self.spawned <= self.worker_count
        &&& self.result is Some ==> self.spawned == self.worker_count
        &&& self.cancelled ==> self.result is Some && self.variant == Variant::Joining
        &&& self.joined > 0 ==> self.cancelled
    }

    /// What the controller has to do next.
    pub open spec fn directive(self) -> Directive {
        if self.spawned < self.worker_count {
            Directive::Spawn
        } else if self.result is None {
            Directive::Poll
        } else if self.variant == Variant::Joining && !self.cancelled {
            Directive::Cancel
        } else if self.variant == Variant::Joining && self.joined < self.worker_count {
            Directive::Join
        } else {
            Directive::Return
        }
    }

    /// The workers that were started and have not been waited for.
    pub open spec fn live_workers(self) -> nat {
        (self.spawned - self.joined) as nat
    }

    /// The pool after it was told that a worker has started.
    pub open spec fn after_spawn(self) -> PoolView {
        if self.directive() == Directive::Spawn {
            PoolView { spawned: self.spawned + 1, ..self }
        } else {
            self
        }
    }

    /// The pool after it has read `slot`.
    pub open spec fn after_poll(self, slot: Option<Seq<isize>>) -> PoolView {
        if self.directive() == Directive::Poll {
            PoolView { result: slot, ..self }
        } else {
            self
        }
    }

    /// The pool after it was asked to raise the signal.
    pub open spec fn after_cancel(self) -> PoolView {
        if self.directive() == Directive::Cancel {
            PoolView { cancelled: true, ..self }
        } else {
            self
        }
    }

    /// The pool after it was told that a worker has been waited for.
    pub open spec fn after_join(self) -> PoolView {
        if self.directive() == Directive::Join {
            PoolView { joined: self.joined + 1, ..self }
        } else {
            self
        }
    }
}

impl View for RacePool {
    type V = PoolView;

    closed spec fn view(&self) -> PoolView {
        PoolView {
            variant: self.variant,
            worker_count: self.worker_count as nat,
            spawned: self.spawned as nat,
            joined: self.joined as nat,
            cancelled: self.cancelled,
            result: seen_in(self.result),
        }
    }
}

impl RacePool {
    #[verifier::type_invariant]
    spec fn well_formed(&self) -> bool {
        self@.valid()
    }

    /// Sets up a race of `worker_count` workers. A race without workers is
    /// refused, since nobody could ever win it.
    pub fn new(variant: Variant, worker_count: usize) -> (pool: Result<RacePool, PoolError>)
        ensures
            worker_count == 0 <==> pool == Err::<RacePool, PoolError>(PoolError::NoWorkers),
            worker_count > 0 <==> pool is Ok,
            pool matches Ok(p) ==> p@ == PoolView::start(variant, worker_count as nat) && p@.valid(),
    {
        if worker_count == 0 {
            Err(PoolError::NoWorkers)
        } else {
            Ok(
                RacePool {
                    variant,
                    worker_count,
                    spawned: 0,
                    joined: 0,
                    cancelled: false,
                    result: None,
                },
            )
        }
    }

    /// What has to happen next.
    pub fn directive(&self) -> (directive: Directive)
        ensures
            directive == self@.directive(),
            self@.valid(),
    {
        proof {
            use_type_invariant(self);
        }
        if self.spawned < self.worker_count {
            Directive::Spawn
        } else if self.result.is_none() {
            Directive::Poll
        } else {
            match self.variant {
                Variant::Leaking => Directive::Return,
                Variant::Joining => {
                    if !self.cancelled {
                        Directive::Cancel
                    } else if self.joined < self.worker_count {
                        Directive::Join
                    } else {
                        Directive::Return
                    }
                },
            }
        }
    }

    /// Records that one more worker runs. Returns whether the pool was waiting
    /// for that; if it was not, nothing changes.
    pub fn worker_spawned(&mut self) -> (accepted: bool)
        ensures
            accepted == (old(self)@.directive() == Directive::Spawn),
            final(self)@ == old(self)@.after_spawn(),
            final(self)@.valid(),
    {
        proof {
            use_type_invariant(&*self);
        }
        match self.directive() {
            Directive::Spawn => {
                self.spawned = self.spawned + 1;
                true
            },
            _ => false,
        }
    }

    /// Reads the outcome slot and keeps a copy of the winning value if there is
    /// one. Returns whether the pool was waiting for a result; if it was not,
    /// nothing changes.
    pub fn observe(&mut self, slot: &SharedOutcome<Vec<isize>>) -> (accepted: bool)
        ensures
            accepted == (old(self)@.directive() == Directive::Poll),
            final(self)@ == old(self)@.after_poll(seen_in(slot@)),
            final(self)@.valid(),
    {
        proof {
            use_type_invariant(&*self);
        }
        match self.directive() {
            Directive::Poll => {
                match slot.peek() {
                    Some(value) => {
                        self.result = Some(value.clone());
                    },
                    None => {},
                }
                true
            },
            _ => false,
        }
    }

    /// Raises `signal` if the pool has a result and belongs to the joining
    /// variant, and has not raised it before. Returns whether the pool was due
    /// to raise it; if it was not, neither the pool nor the signal changes.
    pub fn cancel(&mut self, signal: &mut CancellationSignal) -> (accepted: bool)
        ensures
            accepted == (old(self)@.directive() == Directive::Cancel),
            final(self)@ == old(self)@.after_cancel(),
            final(signal)@ == (old(signal)@ || accepted),
            final(self)@.valid(),
    {
        proof {
            use_type_invariant(&*self);
        }
        match self.directive() {
            Directive::Cancel => {
                signal.raise();
                self.cancelled = true;
                true
            },
            _ => false,
        }
    }

    /// Records that one more worker has been waited for. Returns whether the
    /// pool was waiting for that; if it was not, nothing changes.
    pub fn worker_joined(&mut self) -> (accepted: bool)
        ensures
            accepted == (old(self)@.directive() == Directive::Join),
            final(self)@ == old(self)@.after_join(),
            final(self)@.valid(),
    {
        proof {
            use_type_invariant(&*self);
        }
        match self.directive() {
            Directive::Join => {
                self.joined = self.joined + 1;
                true
            },
            _ => false,
        }
    }

    /// Ends the race. Once the directive is `Return`, hands out the winning
    /// value and the number of workers that still run unsupervised; before
    /// that, hands the pool back unchanged.
    pub fn into_result(self) -> (end: Result<(Vec<isize>, usize), RacePool>)
        ensures
            self@.valid(),
            self@.directive() == Directive::Return <==> end is Ok,
            end matches Ok((value, live)) ==> {
                &&& self@.result == Some(value@)
                &&& live == self@.live_workers()
                &&& live == match self@.variant {
                    Variant::Leaking => self@.worker_count,
                    Variant::Joining => 0,
                }
            },
            end matches Err(pool) ==> pool@ == self@,
    {
        proof {
            use_type_invariant(&self);
        }
        match self.directive() {
            Directive::Return => {
                let live = self.spawned - self.joined;
                match self.result {
                    Some(value) => Ok((value, live)),
                    None => Err(self),
                }
            },
            _ => Err(self),
        }
    }
}

} // verus!
