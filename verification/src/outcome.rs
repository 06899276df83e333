//! The slot through which the winner of a race hands over its value.

use vstd::prelude::*;

verus! {

/// Whether an attempt on a slot does the filling: only an empty slot is filled.
pub open spec fn fills<T>(slot: Option<T>) -> bool {
    slot is None
}

/// What a slot holds after an attempt to fill it with `value`: a filled slot
/// keeps what it has, an empty one takes the value.
pub open spec fn filled_with<T>(slot: Option<T>, value: T) -> Option<T> {
    match slot {
        Some(_) => slot,
        None => Some(value),
    }
}

/// What a slot holds after the attempts `values`, made in that order.
pub open spec fn filled_with_all<T>(slot: Option<T>, values: Seq<T>) -> Option<T>
    decreases values.len(),
{
    if values.len() == 0 {
        slot
    } else {
        filled_with_all(filled_with(slot, values[0]), values.drop_first())
    }
}

/// A set-once slot: empty, or filled with the value of the first attempt.
///
/// The slot itself does no locking. Its mutating operation takes `&mut self`,
/// so whoever shares a slot between threads has to wrap it in a lock, and each
/// operation then runs inside one critical section.
pub struct SharedOutcome<T> {
    value: Option<T>,
}

impl<T> View for SharedOutcome<T> {
    type V = Option<T>;

    closed spec fn view(&self) -> Option<T> {
        self.value
    }
}

impl<T> SharedOutcome<T> {
    /// An empty slot.
    pub fn new() -> (slot: Self)
        ensures
            slot@ is None,
    {
        SharedOutcome { value: None }
    }

    /// Stores `value` if the slot is empty and leaves the slot alone if not.
    /// Returns whether this call did the filling.
    pub fn try_fill(&mut self, value: T) -> (filled: bool)
        ensures
            filled == fills(old(self)@),
            final(self)@ == filled_with(old(self)@, value),
    {
        if self.value.is_none() {
            self.value = Some(value);
            true
        } else {
            false
        }
    }

    /// Reads the slot without changing it.
    pub fn peek(&self) -> (seen: Option<&T>)
        ensures
            match seen {
                Some(v) => self@ == Some(*v),
                None => self@ is None,
            },
    {
        self.value.as_ref()
    }

    /// Tells whether some attempt has filled the slot.
    pub fn is_filled(&self) -> (filled: bool)
        ensures
            filled == (self@ is Some),
    {
        self.value.is_some()
    }

    /// Ends the slot's life and hands out what it held.
    pub fn into_value(self) -> (value: Option<T>)
        ensures
            value == self@,
    {
        self.value
    }
}

/// The second of two attempts on an empty slot fills nothing, and the slot keeps
/// the value of the first.
pub proof fn lemma_first_writer_wins<T>(first: T, second: T)
    ensures
        fills(None::<T>),
        filled_with(None, first) == Some(first),
        !fills(filled_with(None, first)),
        filled_with(filled_with(None, first), second) == Some(first),
{
}

/// One attempt settles a slot: no later attempt changes it, whatever it held
/// before.
pub proof fn lemma_fill_settles<T>(slot: Option<T>, value: T, later: Seq<T>)
    ensures
        !fills(filled_with(slot, value)),
        filled_with_all(filled_with(slot, value), later) == filled_with(slot, value),
    decreases later.len(),
{
    if later.len() > 0 {
        lemma_fill_settles(slot, value, later.drop_first());
    }
}

/// After any number of attempts on an empty slot, the slot holds the value of
/// the first attempt, and is empty only if there was none.
pub proof fn lemma_first_attempt_stays<T>(attempts: Seq<T>)
    ensures
        attempts.len() == 0 ==> filled_with_all(None, attempts) is None,
        attempts.len() > 0 ==> filled_with_all(None, attempts) == Some(attempts[0]),
{
    if attempts.len() > 0 {
        lemma_fill_settles(None, attempts[0], attempts.drop_first());
    }
}

} // verus!
