use kasumi::gdt;
use kasumi::idt;
use kasumi::tss;
use kasumi::once::InitOnce;

#[test]
fn gdt_layout_and_selectors() {
    let tss_base: u64 = 0x1234_5678_9ABC_DEF0;
    let (table, selectors) = gdt::init(tss_base);

    // null, kernel code, kernel data, then the two task-state words
    assert_eq!(table.len(), 5);
    assert_eq!(table.word_at(0), 0);
    assert_eq!(table.word_at(1), 0x00af9b000000ffff);
    assert_eq!(table.word_at(2), 0x00cf93000000ffff);

    // selectors are non-null and mutually distinct, at privilege level 0
    assert_ne!(selectors.code.bits, 0);
    assert_ne!(selectors.data.bits, 0);
    assert_ne!(selectors.tss.bits, 0);
    assert_ne!(selectors.code.bits, selectors.data.bits);
    assert_ne!(selectors.code.bits, selectors.tss.bits);
    assert_ne!(selectors.data.bits, selectors.tss.bits);
    assert_eq!(selectors.code.bits, 8);
    assert_eq!(selectors.data.bits, 16);
    assert_eq!(selectors.tss.bits, 24);

    // the task-state descriptor embeds exactly the segment's address
    let low = table.word_at(3);
    let high = table.word_at(4);
    let base = ((low >> 16) & 0xFF_FFFF) | (((low >> 56) & 0xFF) << 24) | ((high & 0xFFFF_FFFF) << 32);
    assert_eq!(base, tss_base);
    // limit and type fields of the task-state descriptor
    assert_eq!(low & 0xFFFF, 0x67);
    assert_eq!((low >> 40) & 0xF, 0x9);
    assert_ne!(low & (1 << 47), 0);
}

#[test]
fn gdt_descriptors() {
    assert_eq!(
        gdt::kernel_code_segment(),
        gdt::Descriptor::UserSegment(gdt::KERNEL_CODE_DESCRIPTOR)
    );
    assert_eq!(
        gdt::kernel_data_segment(),
        gdt::Descriptor::UserSegment(gdt::KERNEL_DATA_DESCRIPTOR)
    );
    let sel = gdt::SegmentSelector::new(3, 0);
    assert_eq!(sel.bits, 24);
}

#[test]
fn idt_populates_exactly_three_vectors() {
    let (bp, df, pf) = (0x1000u64, 0x2000u64, 0x3000u64);
    let table = idt::init(bp, df, pf);

    // triggering a populated vector reaches exactly the registered handler
    assert_eq!(table.dispatch(3), Some(bp));
    assert_eq!(table.dispatch(8), Some(df));
    assert_eq!(table.dispatch(14), Some(pf));

    // and no other vector dispatches anywhere
    for v in 0..=255u8 {
        if v != 3 && v != 8 && v != 14 {
            assert_eq!(table.dispatch(v), None);
        }
    }

    // only the double fault switches to the dedicated stack slot
    assert_eq!(table.ist_for(8), Some(0));
    assert_eq!(table.ist_for(3), None);
    assert_eq!(table.ist_for(14), None);
}

#[test]
fn tss_binds_slot_zero_to_stack_top() {
    let stack_base: u64 = 0x40_0000;
    let mut cell: InitOnce<tss::TaskState> = InitOnce::new();

    // reading before initialization is detected, never a stale value
    assert!(tss::tss(&cell).is_none());

    tss::init(&mut cell, stack_base);
    let t = tss::tss(&cell).expect("initialized");
    let top = stack_base + tss::STACK_SIZE as u64;
    assert_eq!(t.ist_slot(0), top);
    for slot in 1..7 {
        assert_eq!(t.ist_slot(slot), 0);
    }

    // the published entry pointer lies within the dedicated region
    assert!(tss::sp_in_fault_stack(stack_base, top));
    assert!(tss::sp_in_fault_stack(stack_base, stack_base));
    assert!(!tss::sp_in_fault_stack(stack_base, top + 1));
    assert!(!tss::sp_in_fault_stack(stack_base, stack_base - 1));
    // the stack top keeps the region's 16-byte alignment
    assert_eq!(top % 16, 0);
}

#[test]
fn tss_init_runs_once() {
    let mut cell: InitOnce<tss::TaskState> = InitOnce::new();
    tss::init(&mut cell, 0x10_0000);
    // a later initialization with a different base is a no-op
    tss::init(&mut cell, 0x77_0000);
    let t = tss::tss(&cell).expect("initialized");
    assert_eq!(t.ist_slot(0), 0x10_0000 + tss::STACK_SIZE as u64);
}

#[test]
fn fault_stack_constants() {
    assert_eq!(tss::STACK_SIZE, 4096 * 5);
    assert_eq!(tss::DOUBLE_FAULT_IST_INDEX, 0);
    assert_eq!(tss::fault_stack_top(0), tss::STACK_SIZE as u64);
}
