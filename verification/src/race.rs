//! A race as a whole: the slot, the signal, the workers and the pool together,
//! and what holds of them at every moment.
//!
//! The model moves in the units in which a race really moves: one critical
//! section on the slot or the signal, or one iteration that a worker runs on
//! its own. Each unit is a function of this crate, and the model describes it
//! in the terms of that function's contract. Between two units any other
//! worker, or the controller, may take a turn.

use vstd::prelude::*;

use crate::outcome::{filled_with, fills};
use crate::pool::{Directive, PoolView};
use crate::worker::{publishable, step_leads_to, Variant, WorkerStateView, WorkerView};

verus! {

/// Where one worker of a race stands.
pub enum Lane {
    /// Between two iterations.
    Running(WorkerView),
    /// Stopped searching, with a value that it has yet to offer to the slot.
    Publishing(Seq<isize>),
    /// Has made its attempt on the slot and ended.
    Published,
    /// Has seen the signal raised and ended.
    Cancelled,
}

impl Lane {
    /// The worker has ended: waiting for it returns.
    pub open spec fn ended(self) -> bool {
        self is Published || self is Cancelled
    }

    /// The lane of a worker that has just run an iteration.
    pub open spec fn after_iteration(next: WorkerStateView) -> Lane {
        match next {
            WorkerStateView::Running(worker) => Lane::Running(worker),
            WorkerStateView::Publishing(value) => Lane::Publishing(value),
            WorkerStateView::Cancelled => Lane::Cancelled,
        }
    }
}

/// One race at one moment.
pub struct RaceView {
    /// The input that every worker starts from.
    pub input: Seq<isize>,
    /// The outcome slot.
    pub slot: Option<Seq<isize>>,
    /// The cancellation signal.
    pub signal: bool,
    /// The workers started so far, in the order in which they were started.
    pub lanes: Seq<Lane>,
    /// The controller's bookkeeping.
    pub pool: PoolView,
}

/// One unit of a race.
pub enum RaceStep {
    /// The controller starts a worker.
    Spawn,
    /// The worker in `lane` runs one iteration, having read `cancelled` from
    /// the signal at some earlier moment.
    Iterate { lane: int, cancelled: bool, next: WorkerStateView },
    /// The worker in `lane` offers its value to the slot and ends.
    Publish { lane: int },
    /// The controller reads the slot.
    Poll,
    /// The controller raises the signal.
    Cancel,
    /// The controller waits for the worker it started earliest among those it
    /// has not waited for yet.
    Join,
}

impl RaceView {
    /// A race before anything has happened.
    pub open spec fn start(input: Seq<isize>, variant: Variant, worker_count: nat) -> RaceView {
        RaceView {
            input,
            slot: None,
            signal: false,
            lanes: Seq::empty(),
            pool: PoolView::start(variant, worker_count),
        }
    }

    /// Whether `step` can be taken from this moment and leads to `after`.
    pub open spec fn leads_to(self, step: RaceStep, after: RaceView) -> bool {
        match step {
            RaceStep::Spawn => {
                &&& self.pool.directive() == Directive::Spawn
                &&& after == RaceView {
                    lanes: self.lanes.push(
                        Lane::Running(
                            WorkerView {
                                items: self.input,
                                variant: self.pool.variant,
                                origin: self.input,
                            },
                        ),
                    ),
                    pool: self.pool.after_spawn(),
                    ..self
                }
            },
            RaceStep::Iterate { lane, cancelled, next } => {
                &&& 0 <= lane < self.lanes.len()
                &&& self.lanes[lane] matches Lane::Running(worker)
                &&& cancelled ==> self.signal
                &&& step_leads_to(worker, cancelled, next)
                &&& after == RaceView {
                    lanes: self.lanes.update(lane, Lane::after_iteration(next)),
                    ..self
                }
            },
            RaceStep::Publish { lane } => {
                &&& 0 <= lane < self.lanes.len()
                &&& self.lanes[lane] matches Lane::Publishing(value)
                &&& after == RaceView {
                    slot: filled_with(self.slot, value),
                    lanes: self.lanes.update(lane, Lane::Published),
                    ..self
                }
            },
            RaceStep::Poll => {
                &&& self.pool.directive() == Directive::Poll
                &&& after == RaceView { pool: self.pool.after_poll(self.slot), ..self }
            },
            RaceStep::Cancel => {
                &&& self.pool.directive() == Directive::Cancel
                &&& after == RaceView { signal: true, pool: self.pool.after_cancel(), ..self }
            },
            RaceStep::Join => {
                &&& self.pool.directive() == Directive::Join
                &&& self.pool.joined < self.lanes.len()
                &&& self.lanes[self.pool.joined as int].ended()
                &&& after == RaceView { pool: self.pool.after_join(), ..self }
            },
        }
    }

    /// What holds at every moment of a race.
    pub open spec fn consistent(self) -> bool {
        &&& self.pool.valid()
        &&& self.lanes.len() == self.pool.spawned
        &&& self.slot matches Some(value) ==> publishable(self.input, value)
        &&& self.pool.result is Some ==> self.pool.result == self.slot
        &&& self.signal == self.pool.cancelled
        &&& forall|i: int|
            0 <= i < self.lanes.len() ==> match #[trigger] self.lanes[i] {
                Lane::Running(worker) => {
                    &&& worker.origin == self.input
                    &&& worker.variant == self.pool.variant
                    &&& crate::order::same_items(worker.items, self.input)
                },
                Lane::Publishing(value) => publishable(self.input, value),
                Lane::Published => true,
                Lane::Cancelled => self.signal,
            }
        &&& forall|i: int| 0 <= i < self.pool.joined ==> (#[trigger] self.lanes[i]).ended()
    }
}

/// Whether `moments` is a race from its start: it begins with a fresh race of at
/// least one worker, and each moment leads to the next by the step in between.
pub open spec fn is_run(moments: Seq<RaceView>, steps: Seq<RaceStep>) -> bool {
    &&& moments.len() == steps.len() + 1
    &&& moments[0] == RaceView::start(
        moments[0].input,
        moments[0].pool.variant,
        moments[0].pool.worker_count,
    )
    &&& moments[0].pool.worker_count >= 1
    &&& forall|k: int|
        0 <= k < steps.len() ==> (#[trigger] moments[k]).leads_to(steps[k], moments[k + 1])
}

/// A fresh race of at least one worker is consistent.
pub proof fn lemma_start_is_consistent(input: Seq<isize>, variant: Variant, worker_count: nat)
    requires
        worker_count >= 1,
    ensures
        RaceView::start(input, variant, worker_count).consistent(),
{
}

/// No step breaks consistency.
pub proof fn lemma_step_keeps_consistent(before: RaceView, step: RaceStep, after: RaceView)
    requires
        before.consistent(),
        before.leads_to(step, after),
    ensures
        after.consistent(),
{
}

/// Every moment of a race is consistent.
pub proof fn lemma_run_is_consistent(moments: Seq<RaceView>, steps: Seq<RaceStep>, at: int)
    requires
        is_run(moments, steps),
        0 <= at < moments.len(),
    ensures
        moments[at].consistent(),
        moments[at].input == moments[0].input,
        moments[at].pool.variant == moments[0].pool.variant,
        moments[at].pool.worker_count == moments[0].pool.worker_count,
    decreases at,
{
    if at == 0 {
        lemma_start_is_consistent(
            moments[0].input,
            moments[0].pool.variant,
            moments[0].pool.worker_count,
        );
    } else {
        lemma_run_is_consistent(moments, steps, at - 1);
        lemma_step_keeps_consistent(moments[at - 1], steps[at - 1], moments[at]);
    }
}

/// A filled slot stays as it is: no step empties it or replaces its value.
pub proof fn lemma_slot_is_set_once(before: RaceView, step: RaceStep, after: RaceView)
    requires
        before.leads_to(step, after),
        before.slot is Some,
    ensures
        after.slot == before.slot,
{
}

/// From the moment at which the slot is filled, every later moment of the race
/// finds the same value in it.
pub proof fn lemma_slot_keeps_its_value(
    moments: Seq<RaceView>,
    steps: Seq<RaceStep>,
    filled_at: int,
    later: int,
)
    requires
        is_run(moments, steps),
        0 <= filled_at <= later < moments.len(),
        moments[filled_at].slot is Some,
    ensures
        moments[later].slot == moments[filled_at].slot,
    decreases later - filled_at,
{
    if filled_at < later {
        lemma_slot_keeps_its_value(moments, steps, filled_at, later - 1);
        lemma_slot_is_set_once(moments[later - 1], steps[later - 1], moments[later]);
    }
}

/// A race has one winner: of two workers that offer a value, the later one finds
/// the slot filled and leaves it as it is.
pub proof fn lemma_one_winner(
    moments: Seq<RaceView>,
    steps: Seq<RaceStep>,
    earlier: int,
    later: int,
)
    requires
        is_run(moments, steps),
        0 <= earlier < later < steps.len(),
        steps[earlier] is Publish,
        steps[later] is Publish,
    ensures
        !fills(moments[later].slot),
        moments[later + 1].slot == moments[later].slot,
{
    assert(moments[earlier].leads_to(steps[earlier], moments[earlier + 1]));
    lemma_slot_keeps_its_value(moments, steps, earlier + 1, later);
    lemma_slot_keeps_its_value(moments, steps, earlier + 1, later + 1);
}

/// The signal only rises, and it rises at most once: the one step that changes
/// it is the controller's `Cancel`, taken in the joining variant once the slot
/// is filled, and that step cannot be taken while the signal is raised.
pub proof fn lemma_signal_rises_once(before: RaceView, step: RaceStep, after: RaceView)
    requires
        before.consistent(),
        before.leads_to(step, after),
    ensures
        before.signal ==> after.signal,
        before.signal ==> !(step is Cancel),
        after.signal != before.signal ==> {
            &&& step is Cancel
            &&& before.slot is Some
            &&& before.pool.variant == Variant::Joining
        },
{
}

/// Whatever a pool returns is in order and a rearrangement of the input: at the
/// moment at which the controller is told to return, it holds a result, and that
/// result is the value in the slot.
pub proof fn lemma_returned_value_is_terminal(
    moments: Seq<RaceView>,
    steps: Seq<RaceStep>,
    at: int,
)
    requires
        is_run(moments, steps),
        0 <= at < moments.len(),
        moments[at].pool.directive() == Directive::Return,
    ensures
        moments[at].pool.result is Some,
        moments[at].pool.result == moments[at].slot,
        publishable(moments[0].input, moments[at].pool.result->Some_0),
{
    lemma_run_is_consistent(moments, steps, at);
}

/// A joining pool returns only when every worker that it asked for was started,
/// has ended and has been waited for.
pub proof fn lemma_joining_pool_leaves_nobody(
    moments: Seq<RaceView>,
    steps: Seq<RaceStep>,
    at: int,
)
    requires
        is_run(moments, steps),
        0 <= at < moments.len(),
        moments[0].pool.variant == Variant::Joining,
        moments[at].pool.directive() == Directive::Return,
    ensures
        moments[at].lanes.len() == moments[0].pool.worker_count,
        forall|i: int| 0 <= i < moments[at].lanes.len() ==> (#[trigger] moments[at].lanes[i]).ended(),
        moments[at].pool.live_workers() == 0,
        moments[at].signal,
{
    lemma_run_is_consistent(moments, steps, at);
}

/// A leaking pool returns with every worker that it asked for started and none
/// waited for, and without ever having raised the signal: it hands as many
/// workers to its caller as were asked for.
pub proof fn lemma_leaking_pool_hands_over_every_worker(
    moments: Seq<RaceView>,
    steps: Seq<RaceStep>,
    at: int,
)
    requires
        is_run(moments, steps),
        0 <= at < moments.len(),
        moments[0].pool.variant == Variant::Leaking,
        moments[at].pool.directive() == Directive::Return,
    ensures
        moments[at].lanes.len() == moments[0].pool.worker_count,
        moments[at].pool.live_workers() == moments[0].pool.worker_count,
        !moments[at].signal,
        forall|i: int| 0 <= i < moments[at].lanes.len() ==> !(#[trigger] moments[at].lanes[i] is Cancelled),
{
    lemma_run_is_consistent(moments, steps, at);
}

} // verus!
