use kasumi::port::{BusRead, BusWrite, Port, PortValue, Width};
use kasumi::once::InitOnce;

#[test]
fn port_describes_its_bus_cycles() {
    let p8: Port<u8> = Port::new(0x3F8);
    assert_eq!(p8.address(), 0x3F8);
    assert_eq!(p8.read(), BusRead { addr: 0x3F8, width: Width::Bits8 });
    assert_eq!(p8.write(0xAE), BusWrite { addr: 0x3F8, width: Width::Bits8, value: 0xAE });

    let p16: Port<u16> = Port::new(0x1CE);
    assert_eq!(p16.read().width, Width::Bits16);
    assert_eq!(p16.write(0xBEEF).value, 0xBEEF);

    let p32: Port<u32> = Port::new(0xCF8);
    assert_eq!(p32.read().width, Width::Bits32);
    assert_eq!(p32.write(0x8000_0000).value, 0x8000_0000);
}

#[test]
fn port_values_round_trip_over_the_bus() {
    assert_eq!(u8::of_bus(0xAEu8.to_bus()), 0xAE);
    assert_eq!(u16::of_bus(0x1234u16.to_bus()), 0x1234);
    assert_eq!(u32::of_bus(0xDEAD_BEEFu32.to_bus()), 0xDEAD_BEEF);
    // an over-wide bus word is truncated to the type's width
    assert_eq!(u8::of_bus(0x1AE), 0xAE);
    assert_eq!(u16::of_bus(0x1_BEEF), 0xBEEF);
    assert_eq!(u8::width_tag(), Width::Bits8);
    assert_eq!(u16::width_tag(), Width::Bits16);
    assert_eq!(u32::width_tag(), Width::Bits32);
}

#[test]
fn init_once_takes_first_value_only() {
    let mut cell: InitOnce<u32> = InitOnce::new();
    assert!(cell.get().is_none());
    cell.call_once(7);
    assert_eq!(cell.get(), Some(&7));
    // any later initialization, with any value, is a no-op
    cell.call_once(99);
    assert_eq!(cell.get(), Some(&7));
    cell.call_once(7);
    assert_eq!(cell.get(), Some(&7));
}
