use kasumi::steps::{BootStep, PlannedStep, active_total, plan, progress_line_bytes};
use kasumi::decimal::u64_to_dec;

fn step(label: &[u8], skip: bool) -> BootStep {
    BootStep { label: label.to_vec(), skip }
}

#[test]
fn skipped_steps_count_nowhere() {
    // steps a => ok, b => skip, c => ok give exactly "1/2 a" then "2/2 c"
    let steps = vec![step(b"a", false), step(b"b", true), step(b"c", false)];
    assert_eq!(active_total(&steps), 2);
    let p = plan(&steps);
    assert_eq!(p.len(), 2);
    assert_eq!(p[0], PlannedStep { index: 0, line: b"1/2 a".to_vec() });
    assert_eq!(p[1], PlannedStep { index: 2, line: b"2/2 c".to_vec() });
}

#[test]
fn boot_sequence_order_is_kept() {
    let steps = vec![
        step(b"uart", false),
        step(b"tss", false),
        step(b"gdt", false),
        step(b"idt", false),
    ];
    let p = plan(&steps);
    assert_eq!(p.len(), 4);
    let lines: Vec<&[u8]> = p.iter().map(|e| e.line.as_slice()).collect();
    assert_eq!(lines, vec![
        b"1/4 uart".as_slice(),
        b"2/4 tss".as_slice(),
        b"3/4 gdt".as_slice(),
        b"4/4 idt".as_slice(),
    ]);
    for (i, e) in p.iter().enumerate() {
        assert_eq!(e.index, i);
    }
}

#[test]
fn empty_and_all_skipped_sequences() {
    let empty: Vec<BootStep> = Vec::new();
    assert_eq!(active_total(&empty), 0);
    assert!(plan(&empty).is_empty());

    let all_skipped = vec![step(b"x", true), step(b"y", true)];
    assert_eq!(active_total(&all_skipped), 0);
    assert!(plan(&all_skipped).is_empty());
}

#[test]
fn progress_line_format() {
    assert_eq!(progress_line_bytes(1, 2, &b"a".to_vec()), b"1/2 a".to_vec());
    assert_eq!(progress_line_bytes(10, 12, &b"late".to_vec()), b"10/12 late".to_vec());
}

#[test]
fn decimal_rendering() {
    assert_eq!(u64_to_dec(0), b"0".to_vec());
    assert_eq!(u64_to_dec(7), b"7".to_vec());
    assert_eq!(u64_to_dec(10), b"10".to_vec());
    assert_eq!(u64_to_dec(305), b"305".to_vec());
    assert_eq!(u64_to_dec(u64::MAX), b"18446744073709551615".to_vec());
}

#[test]
fn panic_report_format() {
    let report = kasumi::panic(&b"COM1 not found".to_vec());
    assert_eq!(report, b"PANIC: COM1 not found\n".to_vec());
    assert_eq!(kasumi::panic(&Vec::new()), b"PANIC: \n".to_vec());
}
