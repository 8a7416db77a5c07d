use kasumi::port::{BusRead, BusWrite, Width};
use kasumi::uart::{LinkState, Serial, COM1_BASE, PROBE_SENTINEL};
use kasumi::once::InitOnce;

#[test]
fn register_map_offsets() {
    let s = Serial::new(0x3F8);
    assert_eq!(s.probe_write().addr, 0x3F8 + 7);
    assert_eq!(s.probe_read().addr, 0x3F8 + 7);
    assert_eq!(s.status_read().addr, 0x3F8 + 5);
    let ws = s.config_writes();
    let expected: Vec<(u16, u32)> = vec![
        (0x3F9, 0x00),
        (0x3FB, 0x80),
        (0x3F8, 0x01),
        (0x3F9, 0x00),
        (0x3FB, 0x03),
        (0x3FA, 0xC7),
        (0x3FC, 0x0B),
    ];
    assert_eq!(ws.len(), expected.len());
    for (w, (addr, value)) in ws.iter().zip(expected.iter()) {
        assert_eq!(w.addr, *addr);
        assert_eq!(w.value, *value);
        assert_eq!(w.width, Width::Bits8);
    }
}

#[test]
fn probe_writes_sentinel_and_checks_echo() {
    let s = Serial::new(COM1_BASE);
    assert_eq!(s.probe_write().value, PROBE_SENTINEL as u32);
    assert!(Serial::probe_ok(0xAE));
    assert!(!Serial::probe_ok(0x00));
    assert!(!Serial::probe_ok(0xAF));
}

#[test]
fn probe_state_machine_is_terminal() {
    let probing = LinkState::Uninitialized.start_probe();
    assert_eq!(probing, LinkState::Probing);

    // the sentinel echo decides between the two terminal outcomes
    let ready = probing.finish_probe(PROBE_SENTINEL);
    assert_eq!(ready, LinkState::Ready);
    let absent = probing.finish_probe(0x00);
    assert_eq!(absent, LinkState::Absent);

    // terminal states never move again
    assert_eq!(ready.start_probe(), LinkState::Ready);
    assert_eq!(ready.finish_probe(0x00), LinkState::Ready);
    assert_eq!(absent.start_probe(), LinkState::Absent);
    assert_eq!(absent.finish_probe(PROBE_SENTINEL), LinkState::Absent);
}

#[test]
fn transmit_polling_blocks_until_ready() {
    let s = Serial::new(COM1_BASE);
    // transmit-holding-register-empty bit clear: must keep polling
    assert_eq!(s.write_byte(0x00, b'x'), None);
    assert_eq!(s.write_byte(0xDF, b'x'), None);
    // bit set: the byte goes out on the data register
    let w = s.write_byte(0x20, b'x').expect("ready");
    assert_eq!(w, BusWrite { addr: COM1_BASE, width: Width::Bits8, value: b'x' as u32 });
    assert!(Serial::is_transmit_ready(0xFF));
    assert!(!Serial::is_transmit_ready(0x1F));
}

#[test]
fn receive_is_non_blocking() {
    let s = Serial::new(COM1_BASE);
    // no data available: an expected empty condition, not an error
    assert_eq!(s.read_byte(0x00), None);
    assert_eq!(s.read_byte(0xFE), None);
    // data-ready bit set: the byte is read from the data register
    assert_eq!(s.read_byte(0x01), Some(BusRead { addr: COM1_BASE, width: Width::Bits8 }));
}

/// A loopback capture of the wire: every byte the transceiver would send,
/// in order.
fn loopback(input: &[u8]) -> Vec<u8> {
    let s = Serial::new(COM1_BASE);
    let wire = kasumi::uart::wire_bytes(&input.to_vec());
    let mut captured = Vec::new();
    for b in wire.iter() {
        // the holding register reports empty, so the byte goes out at once
        let w = s.write_byte(0x20, *b).expect("transmit ready");
        assert_eq!(w.addr, COM1_BASE);
        captured.push(w.value as u8);
    }
    captured
}

#[test]
fn round_trip_injects_cr_before_each_lf() {
    let captured = loopback(b"one\ntwo\n");
    assert_eq!(captured, b"one\r\ntwo\r\n".to_vec());

    // every standalone line feed is preceded by an injected carriage return
    for (i, b) in captured.iter().enumerate() {
        if *b == b'\n' {
            assert!(i > 0 && captured[i - 1] == b'\r');
        }
    }

    // an existing carriage return is kept, and still gets the injection
    assert_eq!(loopback(b"a\r\nb"), b"a\r\r\nb".to_vec());
    assert_eq!(loopback(b""), Vec::<u8>::new());
    assert_eq!(loopback(b"\n"), b"\r\n".to_vec());
    assert_eq!(loopback(b"plain"), b"plain".to_vec());
}

#[test]
fn init_is_idempotent() {
    let mut cell: InitOnce<Serial> = InitOnce::new();
    assert!(cell.get().is_none());
    kasumi::uart::init(&mut cell);
    let first = cell.get().expect("initialized").config_writes();
    // a second initialization is a no-op: the device state is unchanged
    kasumi::uart::init(&mut cell);
    let second = cell.get().expect("still initialized").config_writes();
    assert_eq!(first.len(), second.len());
    for (a, b) in first.iter().zip(second.iter()) {
        assert_eq!(a, b);
    }
    assert_eq!(cell.get().unwrap().probe_write().addr, 0x3F8 + 7);
}
