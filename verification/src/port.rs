//! Port-mapped I/O modelled as data.
//!
//! A `Port` is a capability to perform one hardware bus cycle at a fixed
//! address; it holds no state of its own. Constructing one asserts nothing:
//! whether the address names real hardware is the caller's contract. The
//! methods therefore do not touch hardware; they describe the exact bus
//! cycle to perform, as a `BusRead` or `BusWrite` value, and the unverified
//! shell that owns the machine executes those cycles with the privileged
//! instructions.

use vstd::prelude::*;
use core::marker::PhantomData;

verus! {

/// Width of a single port-mapped bus cycle, in bits.
#[derive(Clone, Copy, PartialEq, Eq, Structural, Debug)]
pub enum Width {
    Bits8,
    Bits16,
    Bits32,
}

/// One read cycle on the I/O bus: a value of width `width` is sampled from
/// port `addr`.
#[derive(Clone, Copy, PartialEq, Eq, Structural, Debug)]
pub struct BusRead {
    pub addr: u16,
    pub width: Width,
}

/// One write cycle on the I/O bus: the low `width` bits of `value` are
/// driven to port `addr`.
#[derive(Clone, Copy, PartialEq, Eq, Structural, Debug)]
pub struct BusWrite {
    pub addr: u16,
    pub width: Width,
    pub value: u32,
}

/// A value type that can travel over the I/O bus in one cycle.
pub trait PortValue: Sized {
    /// The bus width every value of this type occupies.
    spec fn width() -> Width;

    /// The image of the value on the bus, zero-extended to 32 bits.
    spec fn bus(self) -> u32;

    /// Whether a 32-bit bus word is representable in this type.
    spec fn fits(v: u32) -> bool;

    /// The value actually latched from a bus word: truncation to this
    /// type's width.
    spec fn trunc(v: u32) -> u32;

    /// The width tag, as a runtime value.
    fn width_tag() -> (w: Width)
        ensures
            w == Self::width(),
    ;

    /// Zero-extend the value onto the bus.
    fn to_bus(self) -> (v: u32)
        ensures
            v == self.bus(),
            Self::fits(v),
    ;

    /// Take a value off the bus.
    fn of_bus(v: u32) -> (r: Self)
        ensures
            r.bus() == Self::trunc(v),
            Self::fits(v) ==> r.bus() == v,
    ;
}

impl PortValue for u8 {
    open spec fn width() -> Width {
        Width::Bits8
    }

    open spec fn bus(self) -> u32 {
        self as u32
    }

    open spec fn fits(v: u32) -> bool {
        v < 0x100
    }

    open spec fn trunc(v: u32) -> u32 {
        v % 0x100
    }

    fn width_tag() -> (w: Width) {
        Width::Bits8
    }

    fn to_bus(self) -> (v: u32) {
        self as u32
    }

    fn of_bus(v: u32) -> (r: Self) {
        let r: u8 = #[verifier::truncate] (v as u8);
        proof {
            assert(r as u32 == v % 0x100) by (bit_vector)
                requires
                    r == v as u8,
            ;
        }
        r
    }
}

impl PortValue for u16 {
    open spec fn width() -> Width {
        Width::Bits16
    }

    open spec fn bus(self) -> u32 {
        self as u32
    }

    open spec fn fits(v: u32) -> bool {
        v < 0x1_0000
    }

    open spec fn trunc(v: u32) -> u32 {
        v % 0x1_0000
    }

    fn width_tag() -> (w: Width) {
        Width::Bits16
    }

    fn to_bus(self) -> (v: u32) {
        self as u32
    }

    fn of_bus(v: u32) -> (r: Self) {
        let r: u16 = #[verifier::truncate] (v as u16);
        proof {
            assert(r as u32 == v % 0x1_0000) by (bit_vector)
                requires
                    r == v as u16,
            ;
        }
        r
    }
}

impl PortValue for u32 {
    open spec fn width() -> Width {
        Width::Bits32
    }

    open spec fn bus(self) -> u32 {
        self
    }

    open spec fn fits(v: u32) -> bool {
        true
    }

    open spec fn trunc(v: u32) -> u32 {
        v
    }

    fn width_tag() -> (w: Width) {
        Width::Bits32
    }

    fn to_bus(self) -> (v: u32) {
        self
    }

    fn of_bus(v: u32) -> (r: Self) {
        v
    }
}

/// A hardware I/O port with a specific data type: an address plus a width
/// tag. Immutable once constructed.
pub struct Port<T: PortValue> {
    address: u16,
    value_width: PhantomData<T>,
}

impl<T: PortValue> Port<T> {
    /// The port number this capability accesses.
    pub closed spec fn addr(&self) -> u16 {
        self.address
    }

    /// Create a new port capability at the specified address. Validity of
    /// the address is the caller's contract; construction asserts nothing.
    pub fn new(address: u16) -> (p: Self)
        ensures
            p.addr() == address,
    {
        Port { address, value_width: PhantomData }
    }

    /// The port number, as a runtime value.
    pub fn address(&self) -> (a: u16)
        ensures
            a == self.addr(),
    {
        self.address
    }

    /// The bus cycle that reads this port.
    pub fn read(&self) -> (r: BusRead)
        ensures
            r == (BusRead { addr: self.addr(), width: T::width() }),
    {
        BusRead { addr: self.address, width: T::width_tag() }
    }

    /// The bus cycle that writes `val` to this port.
    pub fn write(&self, val: T) -> (w: BusWrite)
        ensures
            w == (BusWrite { addr: self.addr(), width: T::width(), value: val.bus() }),
    {
        BusWrite { addr: self.address, width: T::width_tag(), value: val.to_bus() }
    }
}

} // verus!
