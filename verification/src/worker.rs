//! One racing worker, taken one iteration at a time.

use rand::rngs::ThreadRng;
use vstd::prelude::*;

use crate::order::{check_sorted, same_items, sorted};
use crate::perturb::{local_generator, shuffle};

verus! {

/// How a pool winds down once a winner exists.
#[derive(Clone, Copy, Debug, PartialEq, Eq, Structural)]
pub enum Variant {
    /// The pool returns at once and leaves the losing workers running.
    Leaking,
    /// The pool tells the losing workers to stop and waits for each of them.
    Joining,
}

/// A running worker: its private copy of the input and its own generator.
///
/// Nobody else sees the copy until the worker wins and hands it out.
pub struct Worker {
    items: Vec<isize>,
    generator: ThreadRng,
    variant: Variant,
    origin: Ghost<Seq<isize>>,
}

/// What contracts say of a running worker.
pub struct WorkerView {
    /// The private copy as it stands.
    pub items: Seq<isize>,
    /// The variant of the pool that the worker belongs to.
    pub variant: Variant,
    /// The input that the worker was started on.
    pub origin: Seq<isize>,
}

/// Where a worker stands after an iteration.
pub enum WorkerState {
    /// Still searching. This is the only state from which a worker goes on.
    Running(Worker),
    /// Stopped with a value in order, which it now offers to the outcome slot.
    Publishing(Vec<isize>),
    /// Stopped without a value, because the signal was raised.
    Cancelled,
}

/// What contracts say of a worker's state.
pub enum WorkerStateView {
    /// Still searching, with the worker as it stands.
    Running(WorkerView),
    /// Stopped with this value to offer.
    Publishing(Seq<isize>),
    /// Stopped without a value.
    Cancelled,
}

impl View for Worker {
    type V = WorkerView;

    closed spec fn view(&self) -> WorkerView {
        WorkerView { items: self.items@, variant: self.variant, origin: self.origin@ }
    }
}

impl View for WorkerState {
    type V = WorkerStateView;

    open spec fn view(&self) -> WorkerStateView {
        match self {
            WorkerState::Running(worker) => WorkerStateView::Running(worker@),
            WorkerState::Publishing(value) => WorkerStateView::Publishing(value@),
            WorkerState::Cancelled => WorkerStateView::Cancelled,
        }
    }
}

/// A value that a worker started on `input` may publish: in order, and a
/// rearrangement of the input.
pub open spec fn publishable(input: Seq<isize>, value: Seq<isize>) -> bool {
    sorted(value) && same_items(value, input)
}

/// Whether `next` is a state that one iteration may lead to from `worker`,
/// given what the worker read from the signal.
///
/// A worker whose copy is in order publishes that copy, whatever the signal
/// says. Otherwise a worker of the joining variant stops when the signal is
/// raised. In every other case the worker rearranges its copy and goes on;
/// which rearrangement it gets is left to chance.
pub open spec fn step_leads_to(worker: WorkerView, cancelled: bool, next: WorkerStateView) -> bool {
    if sorted(worker.items) {
        next == WorkerStateView::Publishing(worker.items)
    } else if worker.variant == Variant::Joining && cancelled {
        next is Cancelled
    } else {
        &&& next matches WorkerStateView::Running(after)
        &&& after.variant == worker.variant
        &&& after.origin == worker.origin
        &&& same_items(after.items, worker.items)
    }
}

/// Whether `next` is a state that a search of at most `budget` rearrangements
/// may lead to from `worker`.
///
/// A search looks at the copy before every rearrangement and after the last.
/// It ends with the copy as its value as soon as the copy is in order, and with
/// the worker still running when the budget is used up before that. It never
/// reads the signal, so it never ends cancelled.
pub open spec fn search_leads_to(worker: WorkerView, budget: nat, next: WorkerStateView) -> bool {
    if sorted(worker.items) {
        next == WorkerStateView::Publishing(worker.items)
    } else if budget == 0 {
        next == WorkerStateView::Running(worker)
    } else {
        match next {
            WorkerStateView::Publishing(value) => {
                &&& sorted(value)
                &&& same_items(value, worker.items)
            },
            WorkerStateView::Running(after) => {
                &&& !sorted(after.items)
                &&& after.variant == worker.variant
                &&& after.origin == worker.origin
                &&& same_items(after.items, worker.items)
            },
            WorkerStateView::Cancelled => false,
        }
    }
}

impl Worker {
    #[verifier::type_invariant]
    spec fn keeps_the_input(&self) -> bool {
        same_items(self.items@, self.origin@)
    }

    /// Starts a worker on its own copy of the input, with the calling thread's
    /// generator.
    pub fn new(input: Vec<isize>, variant: Variant) -> (worker: Worker)
        ensures
            worker@ == (WorkerView { items: input@, variant, origin: input@ }),
    {
        let generator = local_generator();
        Worker { items: input, generator, variant, origin: Ghost(input@) }
    }

    /// The private copy as it stands.
    pub fn items(&self) -> (items: &Vec<isize>)
        ensures
            items@ == self@.items,
            same_items(self@.items, self@.origin),
    {
        proof {
            use_type_invariant(self);
        }
        &self.items
    }

    /// Runs one iteration: looks at the copy and publishes it if it is in order,
    /// stops if not and the signal says so, and rearranges the copy otherwise.
    /// `cancelled` is what the worker read from the signal just before. A worker
    /// of the leaking variant has no signal, and `cancelled` is ignored for it.
    pub fn step(self, cancelled: bool) -> (next: WorkerState)
        ensures
            step_leads_to(self@, cancelled, next@),
            same_items(self@.items, self@.origin),
            next matches WorkerState::Publishing(value) ==> publishable(self@.origin, value@),
    {
        proof {
            use_type_invariant(&self);
        }
        let Worker { items, generator, variant, origin } = self;
        let mut items = items;
        let mut generator = generator;
        if check_sorted(&items) {
            WorkerState::Publishing(items)
        } else {
            let stop = match variant {
                Variant::Joining => cancelled,
                Variant::Leaking => false,
            };
            if stop {
                WorkerState::Cancelled
            } else {
                shuffle(&mut items, &mut generator);
                WorkerState::Running(Worker { items, generator, variant, origin })
            }
        }
    }

    /// Runs iterations one after the other without reading the signal, until
    /// the copy is in order or `budget` rearrangements have been made. This is
    /// the whole life of a worker of the leaking variant, cut into pieces that
    /// end: a caller that wants an unbounded search calls again while the
    /// worker is still running.
    pub fn search(self, budget: usize) -> (next: WorkerState)
        ensures
            search_leads_to(self@, budget as nat, next@),
            same_items(self@.items, self@.origin),
            next matches WorkerState::Publishing(value) ==> publishable(self@.origin, value@),
    {
        proof {
            use_type_invariant(&self);
        }
        let ghost before = self@;
        let Worker { items, generator, variant, origin } = self;
        let mut items = items;
        let mut generator = generator;
        let mut left: usize = budget;
        let mut in_order = check_sorted(&items);
        while !in_order && left > 0
            invariant
                in_order == sorted(items@),
                same_items(items@, before.items),
                variant == before.variant,
                origin@ == before.origin,
                left <= budget,
                left == budget ==> items@ == before.items,
                left < budget ==> !sorted(before.items),
            decreases left,
        {
            shuffle(&mut items, &mut generator);
            left -= 1;
            in_order = check_sorted(&items);
        }
        if in_order {
            WorkerState::Publishing(items)
        } else {
            WorkerState::Running(Worker { items, generator, variant, origin })
        }
    }
}

/// A worker of the joining variant that has read the raised signal does not
/// outlive the iteration: it ends, by publishing if its copy is in order and
/// by stopping if not. Cancellation is felt within one iteration.
pub proof fn lemma_cancelled_worker_ends(worker: WorkerView, next: WorkerStateView)
    requires
        worker.variant == Variant::Joining,
        step_leads_to(worker, true, next),
    ensures
        !(next is Running),
        next is Publishing <==> sorted(worker.items),
{
}

/// A worker of the leaking variant is never stopped by the signal: it goes on
/// until its copy is in order.
pub proof fn lemma_leaking_worker_is_never_cancelled(
    worker: WorkerView,
    cancelled: bool,
    next: WorkerStateView,
)
    requires
        worker.variant == Variant::Leaking,
        step_leads_to(worker, cancelled, next),
    ensures
        !(next is Cancelled),
        next is Running <==> !sorted(worker.items),
{
}

/// Whether two iterations of a worker that does not see the signal raised lead
/// from `worker` to `next`, with the worker as `between` after the first.
pub open spec fn two_steps_lead_to(
    worker: WorkerView,
    between: WorkerView,
    next: WorkerStateView,
) -> bool {
    &&& step_leads_to(worker, false, WorkerStateView::Running(between))
    &&& step_leads_to(between, false, next)
}

/// A search is made of iterations: whatever a search leads to, a worker that
/// never sees the signal raised gets there in at most two iterations, the first
/// of which stands for all the rearrangements that the search made.
pub proof fn lemma_search_is_iterations(worker: WorkerView, budget: nat, next: WorkerStateView)
    requires
        search_leads_to(worker, budget, next),
    ensures
        next == WorkerStateView::Running(worker) || step_leads_to(worker, false, next) || (exists|
            between: WorkerView,
        | two_steps_lead_to(worker, between, next)),
{
    if !sorted(worker.items) && budget > 0 {
        if let WorkerStateView::Publishing(value) = next {
            let between = WorkerView {
                items: value,
                variant: worker.variant,
                origin: worker.origin,
            };
            assert(two_steps_lead_to(worker, between, next));
        }
    }
}

} // verus!
