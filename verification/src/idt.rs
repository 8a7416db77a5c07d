//! Interrupt descriptor table builder.
//!
//! 256 vector-indexed entries, of which exactly three are populated: the
//! breakpoint trap, the double fault — routed onto the dedicated
//! interrupt-stack-table slot, since the faulting stack may itself be the
//! problem — and the page fault. Each entry records the handler's entry
//! address; the handlers themselves follow the hardware's interrupt-entry
//! ABI and live in the unverified shell, which registers them by address
//! here and loads the finished table as its final step.

use vstd::prelude::*;
use crate::tss::DOUBLE_FAULT_IST_INDEX;

verus! {

/// Vector of the breakpoint trap: logged, then execution resumes.
pub const BREAKPOINT_VECTOR: usize = 3;

/// Vector of the double fault: logged on the dedicated stack, then the
/// system aborts.
pub const DOUBLE_FAULT_VECTOR: usize = 8;

/// Vector of the page fault: logged, then the system halts in an idle
/// loop.
pub const PAGE_FAULT_VECTOR: usize = 14;

/// Number of interrupt vectors.
pub const VECTOR_COUNT: usize = 256;

/// One vector's entry: whether a handler is registered, the handler's
/// entry address, and the interrupt-stack-table slot to switch to, if
/// any.
#[derive(Clone, Copy, PartialEq, Eq, Debug)]
pub struct VectorEntry {
    pub present: bool,
    pub handler: u64,
    pub ist: Option<u8>,
}

/// An entry with no handler registered.
pub open spec fn missing_entry() -> VectorEntry {
    VectorEntry { present: false, handler: 0, ist: None }
}

/// The interrupt descriptor table: one entry per vector. Built once;
/// immutable after the shell loads it.
pub struct InterruptTable {
    entries: Vec<VectorEntry>,
}

impl InterruptTable {
    /// The table's entries, indexed by vector.
    pub closed spec fn entries(&self) -> Seq<VectorEntry> {
        self.entries@
    }

    /// The table always covers every vector.
    pub open spec fn wf(&self) -> bool {
        self.entries().len() == VECTOR_COUNT
    }

    /// The handler a vector dispatches to, if one is registered.
    pub open spec fn handler_for(&self, vector: int) -> Option<u64>
        recommends
            0 <= vector < VECTOR_COUNT,
    {
        if self.entries()[vector].present {
            Some(self.entries()[vector].handler)
        } else {
            None
        }
    }

    /// A fresh table with no handler on any vector.
    pub fn new() -> (t: Self)
        ensures
            t.wf(),
            forall|v: int| 0 <= v < VECTOR_COUNT ==> t.entries()[v] == missing_entry(),
    {
        let mut entries: Vec<VectorEntry> = Vec::new();
        let mut i: usize = 0;
        while i < VECTOR_COUNT
            invariant
                i <= VECTOR_COUNT,
                entries@.len() == i,
                forall|v: int| 0 <= v < i ==> entries@[v] == missing_entry(),
            decreases VECTOR_COUNT - i,
        {
            entries.push(VectorEntry { present: false, handler: 0, ist: None });
            i = i + 1;
        }
        InterruptTable { entries }
    }

    /// Register a handler on a vector, running on the interrupted
    /// context's own stack.
    pub fn set_handler(&mut self, vector: usize, handler: u64)
        requires
            old(self).wf(),
            vector < VECTOR_COUNT,
        ensures
            final(self).wf(),
            final(self).entries() == old(self).entries().update(
                vector as int,
                VectorEntry { present: true, handler, ist: None },
            ),
    {
        self.entries.set(vector, VectorEntry { present: true, handler, ist: None });
    }

    /// Register a handler on a vector, switching to the given
    /// interrupt-stack-table slot on entry.
    pub fn set_handler_with_ist(&mut self, vector: usize, handler: u64, ist_index: u8)
        requires
            old(self).wf(),
            vector < VECTOR_COUNT,
            ist_index < 7,
        ensures
            final(self).wf(),
            final(self).entries() == old(self).entries().update(
                vector as int,
                VectorEntry { present: true, handler, ist: Some(ist_index) },
            ),
    {
        self.entries.set(vector, VectorEntry { present: true, handler, ist: Some(ist_index) });
    }

    /// Look one vector up, as the hardware's fault delivery would: the
    /// registered handler's address, or nothing.
    pub fn dispatch(&self, vector: u8) -> (r: Option<u64>)
        requires
            self.wf(),
        ensures
            r == self.handler_for(vector as int),
    {
        let e = self.entries[vector as usize];
        if e.present {
            Some(e.handler)
        } else {
            None
        }
    }

    /// The interrupt-stack-table slot a vector's entry switches to, if
    /// any.
    pub fn ist_for(&self, vector: u8) -> (r: Option<u8>)
        requires
            self.wf(),
        ensures
            r == self.entries()[vector as int].ist,
    {
        self.entries[vector as usize].ist
    }
}

/// The table a finished initialization publishes, given the three handler
/// entry addresses: breakpoint and page fault on the interrupted stack,
/// double fault on dedicated stack slot 0, and no handler anywhere else.
pub open spec fn idt_built(
    t: InterruptTable,
    breakpoint: u64,
    double_fault: u64,
    page_fault: u64,
) -> bool {
    &&& t.wf()
    &&& t.entries()[BREAKPOINT_VECTOR as int] == VectorEntry {
        present: true,
        handler: breakpoint,
        ist: None,
    }
    &&& t.entries()[DOUBLE_FAULT_VECTOR as int] == VectorEntry {
        present: true,
        handler: double_fault,
        ist: Some(DOUBLE_FAULT_IST_INDEX as u8),
    }
    &&& t.entries()[PAGE_FAULT_VECTOR as int] == VectorEntry {
        present: true,
        handler: page_fault,
        ist: None,
    }
    &&& forall|v: int|
        0 <= v < VECTOR_COUNT && v != BREAKPOINT_VECTOR && v != DOUBLE_FAULT_VECTOR && v
            != PAGE_FAULT_VECTOR ==> t.entries()[v] == missing_entry()
}

/// Build the interrupt table from the three handler entry addresses. The
/// double-fault entry is the only one routed onto the dedicated stack.
/// The shell must load the finished table only after the descriptor
/// table and task register are live, and loading it is what makes the
/// three vectors dispatch.
pub fn init(breakpoint: u64, double_fault: u64, page_fault: u64) -> (t: InterruptTable)
    ensures
        idt_built(t, breakpoint, double_fault, page_fault),
{
    let mut t = InterruptTable::new();
    t.set_handler(BREAKPOINT_VECTOR, breakpoint);
    t.set_handler_with_ist(DOUBLE_FAULT_VECTOR, double_fault, DOUBLE_FAULT_IST_INDEX as u8);
    t.set_handler(PAGE_FAULT_VECTOR, page_fault);
    t
}

/// Synthetically triggering any vector of the finished table invokes
/// exactly the registered handler and no other: the three populated
/// vectors dispatch to their own handlers, every other vector dispatches
/// to none, and only the double fault switches stacks.
pub proof fn lemma_dispatch_exact(
    t: InterruptTable,
    breakpoint: u64,
    double_fault: u64,
    page_fault: u64,
)
    requires
        idt_built(t, breakpoint, double_fault, page_fault),
    ensures
        t.handler_for(BREAKPOINT_VECTOR as int) == Some(breakpoint),
        t.handler_for(DOUBLE_FAULT_VECTOR as int) == Some(double_fault),
        t.handler_for(PAGE_FAULT_VECTOR as int) == Some(page_fault),
        forall|v: int|
            0 <= v < VECTOR_COUNT && v != BREAKPOINT_VECTOR && v != DOUBLE_FAULT_VECTOR && v
                != PAGE_FAULT_VECTOR ==> t.handler_for(v) is None,
        t.entries()[DOUBLE_FAULT_VECTOR as int].ist == Some(DOUBLE_FAULT_IST_INDEX as u8),
        t.entries()[BREAKPOINT_VECTOR as int].ist is None,
        t.entries()[PAGE_FAULT_VECTOR as int].ist is None,
{
}

} // verus!
