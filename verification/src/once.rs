//! One-time initialization.
//!
//! Each bring-up singleton — the serial device, the task state segment,
//! the descriptor tables — is constructed at most once and read
//! thereafter. `InitOnce` gives that discipline a verified core: a first
//! initialization sticks, every later one is a no-op, and reading before
//! initialization is detected rather than yielding a usable-looking
//! stale value.

use vstd::prelude::*;

verus! {

/// A cell that accepts exactly one initialization.
pub struct InitOnce<T> {
    value: Option<T>,
}

/// The state of a cell after one initialization attempt with `value`:
/// an empty cell takes the value, a full cell is left alone.
pub closed spec fn once_init<T>(cell: InitOnce<T>, value: T) -> InitOnce<T> {
    if cell.is_init() {
        cell
    } else {
        InitOnce { value: Some(value) }
    }
}

impl<T> InitOnce<T> {
    /// Whether the cell has been initialized.
    pub closed spec fn is_init(&self) -> bool {
        self.value is Some
    }

    /// The stored value; meaningful only once initialized.
    pub closed spec fn value_spec(&self) -> T
        recommends
            self.is_init(),
    {
        self.value->Some_0
    }

    /// A fresh, uninitialized cell.
    pub fn new() -> (c: Self)
        ensures
            !c.is_init(),
    {
        InitOnce { value: None }
    }

    /// Initialize the cell if it has not been initialized yet; a cell that
    /// is already full is left unchanged.
    pub fn call_once(&mut self, value: T)
        ensures
            *final(self) == once_init(*old(self), value),
            final(self).is_init(),
            !old(self).is_init() ==> final(self).value_spec() == value,
            old(self).is_init() ==> *final(self) == *old(self),
    {
        if self.value.is_none() {
            self.value = Some(value);
        }
    }

    /// Read the cell. Reading before initialization is detected — the
    /// result says so — rather than handing out stale contents.
    pub fn get(&self) -> (r: Option<&T>)
        ensures
            r is Some <==> self.is_init(),
            self.is_init() ==> r == Some(&self.value_spec()),
    {
        self.value.as_ref()
    }
}

/// One-time initialization is idempotent: after a first attempt, any
/// later attempt — with any value — leaves the cell exactly as the first
/// left it.
pub proof fn lemma_once_init_idempotent<T>(cell: InitOnce<T>, first: T, later: T)
    ensures
        once_init(once_init(cell, first), later) == once_init(cell, first),
{
}

} // verus!
