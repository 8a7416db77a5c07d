//! Task state segment with a dedicated fault-handling stack.
//!
//! The segment holds an interrupt-stack-table of seven slots; slot 0 is
//! bound to the top of a fixed-size, 16-byte-aligned stack region that is
//! reserved for the double-fault handler alone. The region itself is a
//! static byte array owned by the unverified shell, which hands its base
//! address in as a plain number; everything computed from it — the stack
//! top, the slot contents, the bounds check used at fault entry — is
//! verified here.

use vstd::prelude::*;
use crate::once::InitOnce;

verus! {

/// Interrupt-stack-table slot used by the double-fault handler.
pub const DOUBLE_FAULT_IST_INDEX: u16 = 0;

/// Size of the dedicated fault stack, in bytes.
pub const STACK_SIZE: usize = 4096 * 5;

/// Number of interrupt-stack-table slots in a task state segment.
pub const IST_SLOTS: usize = 7;

/// Model of the task state segment: the interrupt-stack-table, each slot
/// a stack-top address (0 meaning unused). Built once, read-only
/// thereafter.
pub struct TaskState {
    ist: Vec<u64>,
}

impl TaskState {
    /// The interrupt-stack-table contents.
    pub closed spec fn ist(&self) -> Seq<u64> {
        self.ist@
    }

    /// A task state segment always carries exactly seven slots.
    pub open spec fn wf(&self) -> bool {
        self.ist().len() == IST_SLOTS
    }

    /// A fresh segment with every slot unused.
    pub fn new() -> (t: Self)
        ensures
            t.wf(),
            t.ist() =~= seq![0u64, 0u64, 0u64, 0u64, 0u64, 0u64, 0u64],
    {
        let mut ist: Vec<u64> = Vec::new();
        let mut i: usize = 0;
        while i < IST_SLOTS
            invariant
                i <= IST_SLOTS,
                ist@.len() == i,
                forall|k: int| 0 <= k < i ==> ist@[k] == 0u64,
            decreases IST_SLOTS - i,
        {
            ist.push(0);
            i = i + 1;
        }
        let t = TaskState { ist };
        proof {
            assert(t.ist() =~= seq![0u64, 0u64, 0u64, 0u64, 0u64, 0u64, 0u64]);
        }
        t
    }

    /// Bind one interrupt-stack-table slot to a stack-top address.
    pub fn set_ist(&mut self, index: usize, stack_top: u64)
        requires
            old(self).wf(),
            index < IST_SLOTS,
        ensures
            final(self).wf(),
            final(self).ist() == old(self).ist().update(index as int, stack_top),
    {
        self.ist.set(index, stack_top);
    }

    /// Read one interrupt-stack-table slot.
    pub fn ist_slot(&self, index: usize) -> (v: u64)
        requires
            self.wf(),
            index < IST_SLOTS,
        ensures
            v == self.ist()[index as int],
    {
        self.ist[index]
    }
}

/// Whether an address lies within the fault stack whose lowest byte is at
/// `stack_base`.
pub open spec fn in_fault_stack(stack_base: u64, addr: u64) -> bool {
    stack_base <= addr <= stack_base + STACK_SIZE
}

/// The segment a finished initialization publishes for a fault stack
/// based at `stack_base`: slot 0 holds the stack top, every other slot is
/// unused.
pub open spec fn fault_ist(stack_base: u64, t: TaskState) -> bool {
    &&& t.wf()
    &&& t.ist()[DOUBLE_FAULT_IST_INDEX as int] == stack_base + STACK_SIZE
    &&& forall|k: int| 0 <= k < IST_SLOTS && k != DOUBLE_FAULT_IST_INDEX ==> t.ist()[k] == 0u64
}

/// The top of the fault stack: the stack grows downward, so the address
/// published for fault entry is one past the region's highest byte.
pub fn fault_stack_top(stack_base: u64) -> (top: u64)
    requires
        stack_base + STACK_SIZE <= u64::MAX,
    ensures
        top == stack_base + STACK_SIZE,
{
    stack_base + (STACK_SIZE as u64)
}

/// Initialize the task state segment once: bind slot 0 to the top of the
/// dedicated fault stack. Calling again later is a no-op.
pub fn init(cell: &mut InitOnce<TaskState>, stack_base: u64)
    requires
        stack_base + STACK_SIZE <= u64::MAX,
    ensures
        final(cell).is_init(),
        old(cell).is_init() ==> *final(cell) == *old(cell),
        !old(cell).is_init() ==> fault_ist(stack_base, final(cell).value_spec()),
{
    let top = fault_stack_top(stack_base);
    let mut t = TaskState::new();
    t.set_ist(DOUBLE_FAULT_IST_INDEX as usize, top);
    cell.call_once(t);
}

/// Read the finished segment. Before `init` has run, the result reports
/// the misuse instead of returning a usable-looking stale value; the
/// caller treats that as fatal.
pub fn tss(cell: &InitOnce<TaskState>) -> (r: Option<&TaskState>)
    ensures
        r is Some <==> cell.is_init(),
        cell.is_init() ==> r == Some(&cell.value_spec()),
{
    cell.get()
}

/// Whether a stack-pointer value lies within the dedicated fault stack;
/// the double-fault handler checks this on entry.
pub fn sp_in_fault_stack(stack_base: u64, sp: u64) -> (r: bool)
    requires
        stack_base + STACK_SIZE <= u64::MAX,
    ensures
        r <==> in_fault_stack(stack_base, sp),
{
    stack_base <= sp && sp <= stack_base + (STACK_SIZE as u64)
}

/// The stack pointer installed for fault entry lies within the dedicated
/// fault-stack region and keeps the region's 16-byte alignment.
pub proof fn lemma_fault_entry_sp_in_stack(stack_base: u64, t: TaskState)
    requires
        stack_base + STACK_SIZE <= u64::MAX,
        fault_ist(stack_base, t),
    ensures
        in_fault_stack(stack_base, t.ist()[DOUBLE_FAULT_IST_INDEX as int]),
        stack_base % 16 == 0 ==> t.ist()[DOUBLE_FAULT_IST_INDEX as int] % 16 == 0,
{
}

} // verus!
