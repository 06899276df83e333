//! The flag by which the controller tells the losing workers to stop.

use vstd::prelude::*;

verus! {

/// The flag after an attempt to raise it: raised, whatever it was before.
pub open spec fn after_raise(raised: bool) -> bool {
    true
}

/// Whether an attempt to raise the flag changes it: only a lowered flag changes.
pub open spec fn raise_changes(raised: bool) -> bool {
    !raised
}

/// A flag that starts lowered and can only be raised.
///
/// There is no operation that lowers it, so once a worker has seen it raised
/// every later reading sees it raised too.
pub struct CancellationSignal {
    raised: bool,
}

impl View for CancellationSignal {
    type V = bool;

    closed spec fn view(&self) -> bool {
        self.raised
    }
}

impl CancellationSignal {
    /// A lowered flag.
    pub fn new() -> (signal: Self)
        ensures
            !signal@,
    {
        CancellationSignal { raised: false }
    }

    /// Raises the flag. Returns whether this call made the change: raising a
    /// raised flag changes nothing.
    pub fn raise(&mut self) -> (changed: bool)
        ensures
            final(self)@ == after_raise(old(self)@),
            changed == raise_changes(old(self)@),
    {
        let changed = !self.raised;
        self.raised = true;
        changed
    }

    /// Reads the flag.
    pub fn is_raised(&self) -> (raised: bool)
        ensures
            raised == self@,
    {
        self.raised
    }
}

/// The flag goes from lowered to raised at most once: after one attempt it is
/// raised, and a further attempt neither changes it nor lowers it.
pub proof fn lemma_raised_at_most_once(before: bool)
    ensures
        after_raise(before),
        raise_changes(before) == !before,
        !raise_changes(after_raise(before)),
        after_raise(after_raise(before)) == after_raise(before),
{
}

} // verus!
