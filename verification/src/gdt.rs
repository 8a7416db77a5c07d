//! Global descriptor table builder.
//!
//! The table is an ordered sequence of descriptor words — the implicit
//! null entry, kernel code, kernel data, and a two-word task-state-segment
//! descriptor that embeds the segment's memory address. Each insertion
//! yields a selector. The table contents and the selectors are computed
//! and proved here, down to the bit layout; the unverified shell places
//! the words in a static table, loads the descriptor-table register, and
//! reloads the segment and task registers with the selectors, in that
//! order.

use vstd::prelude::*;

verus! {

/// The kernel code descriptor word: 64-bit, present, executable,
/// privilege level 0.
pub const KERNEL_CODE_DESCRIPTOR: u64 = 0x00af9b000000ffff;

/// The kernel data descriptor word: present, writable, privilege
/// level 0.
pub const KERNEL_DATA_DESCRIPTOR: u64 = 0x00cf93000000ffff;

/// Limit field of a task-state-segment descriptor: the segment's size in
/// bytes, minus one.
pub const TSS_LIMIT: u64 = 0x67;

/// Capacity of the table, in descriptor words.
pub const GDT_CAPACITY: usize = 8;

/// An index-plus-privilege value naming one descriptor-table entry; what
/// the segment and task registers are reloaded with.
#[derive(Clone, Copy, PartialEq, Eq, Structural, Debug)]
pub struct SegmentSelector {
    pub bits: u16,
}

impl SegmentSelector {
    /// The table index this selector names.
    pub open spec fn index(&self) -> u16 {
        self.bits / 8
    }

    /// The requested privilege level.
    pub open spec fn rpl(&self) -> u16 {
        self.bits % 8
    }

    /// Pack a table index and a privilege level into a selector.
    pub fn new(index: u16, rpl: u16) -> (s: Self)
        requires
            index < 0x2000,
            rpl < 4,
        ensures
            s.bits == index * 8 + rpl,
            s.index() == index,
            s.rpl() == rpl,
    {
        SegmentSelector { bits: index * 8 + rpl }
    }
}

/// A segment descriptor: one word for an ordinary code or data segment,
/// two words for a system segment such as a task state segment.
#[derive(Clone, Copy, PartialEq, Eq, Structural, Debug)]
pub enum Descriptor {
    UserSegment(u64),
    SystemSegment(u64, u64),
}

/// The table words a descriptor occupies, in order.
pub open spec fn descriptor_words(d: Descriptor) -> Seq<u64> {
    match d {
        Descriptor::UserSegment(w) => seq![w],
        Descriptor::SystemSegment(low, high) => seq![low, high],
    }
}

/// The descriptor privilege level held in bits 45 and 46 of the first
/// word.
pub open spec fn descriptor_dpl(d: Descriptor) -> u16 {
    match d {
        Descriptor::UserSegment(w) => ((w >> 45) & 3) as u16,
        Descriptor::SystemSegment(low, _high) => ((low >> 45) & 3) as u16,
    }
}

/// The kernel code segment descriptor.
pub fn kernel_code_segment() -> (d: Descriptor)
    ensures
        d == Descriptor::UserSegment(KERNEL_CODE_DESCRIPTOR),
{
    Descriptor::UserSegment(KERNEL_CODE_DESCRIPTOR)
}

/// The kernel data segment descriptor.
pub fn kernel_data_segment() -> (d: Descriptor)
    ensures
        d == Descriptor::UserSegment(KERNEL_DATA_DESCRIPTOR),
{
    Descriptor::UserSegment(KERNEL_DATA_DESCRIPTOR)
}

/// First word of the task-state-segment descriptor for a segment based at
/// `base`: the limit, the low 32 base bits split across bits 16..40 and
/// 56..64, the system type `available 64-bit task state segment` in bits
/// 40..44, and the present bit.
pub open spec fn tss_descriptor_low(base: u64) -> u64 {
    TSS_LIMIT | ((base & 0xFF_FFFF) << 16) | (((base >> 24) & 0xFF) << 56) | (0x89u64 << 40)
}

/// Second word of the task-state-segment descriptor: the high 32 base
/// bits.
pub open spec fn tss_descriptor_high(base: u64) -> u64 {
    base >> 32
}

/// The base address a task-state-segment descriptor refers to,
/// reassembled from its two words.
pub open spec fn tss_descriptor_base(low: u64, high: u64) -> u64 {
    ((low >> 16) & 0xFF_FFFF) | (((low >> 56) & 0xFF) << 24) | ((high & 0xFFFF_FFFF) << 32)
}

/// Packing a base address into a task-state-segment descriptor and
/// reading it back yields the address unchanged.
pub proof fn lemma_tss_descriptor_base_round_trip(base: u64)
    ensures
        tss_descriptor_base(tss_descriptor_low(base), tss_descriptor_high(base)) == base,
{
    assert(tss_descriptor_base(tss_descriptor_low(base), tss_descriptor_high(base)) == base)
        by (bit_vector);
}

/// A task-state-segment descriptor has privilege level 0.
pub proof fn lemma_tss_descriptor_dpl(base: u64)
    ensures
        descriptor_dpl(
            Descriptor::SystemSegment(tss_descriptor_low(base), tss_descriptor_high(base)),
        ) == 0,
{
    assert((tss_descriptor_low(base) >> 45) & 3 == 0) by (bit_vector);
}

/// The descriptor for a task state segment whose memory address is
/// `base`.
pub fn tss_segment(base: u64) -> (d: Descriptor)
    ensures
        d == Descriptor::SystemSegment(tss_descriptor_low(base), tss_descriptor_high(base)),
{
    let low: u64 = TSS_LIMIT | ((base & 0xFF_FFFF) << 16) | (((base >> 24) & 0xFF) << 56) | (
    0x89u64 << 40);
    let high: u64 = base >> 32;
    Descriptor::SystemSegment(low, high)
}

/// The descriptor table itself: the null word followed by what was
/// appended, at most eight words. Built once; immutable after the shell
/// loads it.
pub struct GlobalDescriptorTable {
    table: Vec<u64>,
}

impl GlobalDescriptorTable {
    /// The table's words, in order.
    pub closed spec fn entries(&self) -> Seq<u64> {
        self.table@
    }

    /// The table always starts with the null descriptor and fits its
    /// capacity.
    pub open spec fn wf(&self) -> bool {
        &&& 1 <= self.entries().len() <= GDT_CAPACITY
        &&& self.entries()[0] == 0u64
    }

    /// An empty table: just the null descriptor.
    pub fn new() -> (g: Self)
        ensures
            g.wf(),
            g.entries() =~= seq![0u64],
    {
        let mut table: Vec<u64> = Vec::new();
        table.push(0);
        GlobalDescriptorTable { table }
    }

    /// How many words the table holds.
    pub fn len(&self) -> (n: usize)
        ensures
            n == self.entries().len(),
    {
        self.table.len()
    }

    /// The word at one table index.
    pub fn word_at(&self, index: usize) -> (w: u64)
        requires
            index < self.entries().len(),
        ensures
            w == self.entries()[index as int],
    {
        self.table[index]
    }

    /// Append a descriptor, returning the selector that names it: the
    /// index of its first word, at the descriptor's own privilege level.
    pub fn append(&mut self, entry: Descriptor) -> (sel: SegmentSelector)
        requires
            old(self).wf(),
            old(self).entries().len() + descriptor_words(entry).len() <= GDT_CAPACITY,
        ensures
            final(self).wf(),
            final(self).entries() == old(self).entries() + descriptor_words(entry),
            sel.bits == old(self).entries().len() * 8 + descriptor_dpl(entry),
            sel.index() == old(self).entries().len(),
            sel.rpl() == descriptor_dpl(entry),
    {
        let index = self.table.len() as u16;
        match entry {
            Descriptor::UserSegment(w) => {
                let dpl = ((w >> 45) & 3) as u16;
                self.table.push(w);
                proof {
                    assert((w >> 45) & 3 < 4) by (bit_vector);
                    assert(self.entries() =~= old(self).entries() + descriptor_words(entry));
                }
                SegmentSelector::new(index, dpl)
            },
            Descriptor::SystemSegment(low, high) => {
                let dpl = ((low >> 45) & 3) as u16;
                self.table.push(low);
                self.table.push(high);
                proof {
                    assert((low >> 45) & 3 < 4) by (bit_vector);
                    assert(self.entries() =~= old(self).entries() + descriptor_words(entry));
                }
                SegmentSelector::new(index, dpl)
            },
        }
    }
}

/// The selectors published by the finished builder.
#[derive(Clone, Copy, PartialEq, Eq, Structural, Debug)]
pub struct Selectors {
    pub code: SegmentSelector,
    pub data: SegmentSelector,
    pub tss: SegmentSelector,
}

/// The finished table and selectors for a task state segment at
/// `tss_base`: null, kernel code, kernel data, then the two
/// task-state-segment words; the selectors name entries 1, 2 and 3 at
/// privilege level 0.
pub open spec fn gdt_built(g: GlobalDescriptorTable, s: Selectors, tss_base: u64) -> bool {
    &&& g.entries() == seq![
        0u64,
        KERNEL_CODE_DESCRIPTOR,
        KERNEL_DATA_DESCRIPTOR,
        tss_descriptor_low(tss_base),
        tss_descriptor_high(tss_base),
    ]
    &&& s.code.bits == 8
    &&& s.data.bits == 16
    &&& s.tss.bits == 24
}

/// Build the descriptor table for a finished task state segment at
/// address `tss_base`: kernel code, kernel data, and the task-state
/// descriptor, in order, each insertion yielding its selector. The
/// table must afterwards be loaded, and the segment and task registers
/// reloaded with these selectors, before the interrupt table may rely on
/// them.
pub fn init(tss_base: u64) -> (r: (GlobalDescriptorTable, Selectors))
    ensures
        gdt_built(r.0, r.1, tss_base),
        r.0.wf(),
{
    let mut g = GlobalDescriptorTable::new();
    let code = g.append(kernel_code_segment());
    let data = g.append(kernel_data_segment());
    let tss_desc = tss_segment(tss_base);
    let tss = g.append(tss_desc);
    proof {
        assert((KERNEL_CODE_DESCRIPTOR >> 45) & 3 == 0) by (bit_vector);
        assert((KERNEL_DATA_DESCRIPTOR >> 45) & 3 == 0) by (bit_vector);
        lemma_tss_descriptor_dpl(tss_base);
        assert(g.entries() =~= seq![
            0u64,
            KERNEL_CODE_DESCRIPTOR,
            KERNEL_DATA_DESCRIPTOR,
            tss_descriptor_low(tss_base),
            tss_descriptor_high(tss_base),
        ]);
    }
    (g, Selectors { code, data, tss })
}

/// The selectors of a finished table are non-null and mutually distinct,
/// and the task-state descriptor it holds refers to exactly the address
/// of the finished task state segment.
pub proof fn lemma_gdt_selectors(g: GlobalDescriptorTable, s: Selectors, tss_base: u64)
    requires
        gdt_built(g, s, tss_base),
    ensures
        s.code.bits != 0,
        s.data.bits != 0,
        s.tss.bits != 0,
        s.code.bits != s.data.bits,
        s.code.bits != s.tss.bits,
        s.data.bits != s.tss.bits,
        tss_descriptor_base(g.entries()[3], g.entries()[4]) == tss_base,
{
    lemma_tss_descriptor_base_round_trip(tss_base);
}

} // verus!
