//! Processor bring-up core for a freestanding kernel.
//!
//! The crate models, and verifies, the logic of early CPU bring-up: the
//! segment table, the task state segment with its dedicated fault stack,
//! the interrupt vector table, a port-mapped UART transceiver, and the
//! ordered boot-step sequencer. Everything that touches the machine
//! itself — privileged loads, the in/out instructions, the interrupt-entry
//! ABI — stays in the unverified shell around this crate, which executes
//! the bus cycles and descriptor tables that these modules compute.

use vstd::prelude::*;

pub mod decimal;
pub mod gdt;
pub mod idt;
pub mod once;
pub mod port;
pub mod steps;
pub mod tss;
pub mod uart;

verus! {

/// The prefix of a fatal-error report: the bytes of `PANIC: `.
pub open spec fn panic_prefix() -> Seq<u8> {
    seq![0x50u8, 0x41u8, 0x4Eu8, 0x49u8, 0x43u8, 0x3Au8, 0x20u8]
}

/// Render the report emitted when the system aborts: the fatal prefix,
/// the message, and a closing line feed. The shell sends it over the
/// diagnostic channel before halting forever.
pub fn panic(message: &Vec<u8>) -> (report: Vec<u8>)
    ensures
        report@ == panic_prefix() + message@ + seq![0x0Au8],
{
    let mut report: Vec<u8> = Vec::new();
    report.push(0x50);
    report.push(0x41);
    report.push(0x4E);
    report.push(0x49);
    report.push(0x43);
    report.push(0x3A);
    report.push(0x20);
    let mut i: usize = 0;
    while i < message.len()
        invariant
            i <= message@.len(),
            report@ == panic_prefix() + message@.take(i as int),
        decreases message@.len() - i,
    {
        report.push(message[i]);
        proof {
            assert(panic_prefix() + message@.take(i + 1) =~= (panic_prefix() + message@.take(
                i as int,
            )) + seq![message@[i as int]]);
        }
        i = i + 1;
    }
    report.push(0x0A);
    proof {
        assert(message@.take(message@.len() as int) =~= message@);
        assert(report@ =~= panic_prefix() + message@ + seq![0x0Au8]);
    }
    report
}

} // verus!
