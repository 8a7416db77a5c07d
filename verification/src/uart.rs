//! Serial transceiver behind a fixed port base.
//!
//! The device is a set of seven port capabilities at fixed offsets from a
//! base address. The driver's decisions are verified here as functions
//! from register values to bus cycles: the probe that detects the
//! hardware, the fixed configuration sequence, the flow-control polling
//! tests, and the line-ending normalization applied to outgoing text.
//! The unverified shell performs the cycles and hands register values
//! back.

use vstd::prelude::*;
use crate::once::InitOnce;
use crate::port::{Port, BusRead, BusWrite, Width};

verus! {

/// Port base of the primary serial device (COM1).
pub const COM1_BASE: u16 = 0x3F8;

/// Largest base address that leaves room for the seven registers.
pub const MAX_BASE: u16 = 0xFFF8;

/// Sentinel byte written to the scratch register by the detection probe.
pub const PROBE_SENTINEL: u8 = 0xAE;

/// Line-status bit: transmit holding register empty.
pub const TRANSMIT_READY_BIT: u8 = 0x20;

/// Line-status bit: received data available.
pub const DATA_READY_BIT: u8 = 0x01;

/// The transceiver's lifecycle. Probing either finds the device and
/// reaches `Ready`, or concludes `Absent`; both outcomes are terminal,
/// and `Absent` is reported as a fatal initialization failure by the
/// caller, since nothing can be diagnosed without the device.
#[derive(Clone, Copy, PartialEq, Eq, Structural, Debug)]
pub enum LinkState {
    Uninitialized,
    Probing,
    Ready,
    Absent,
}

impl LinkState {
    /// Begin detection: only a fresh transceiver starts probing.
    pub fn start_probe(self) -> (r: LinkState)
        ensures
            self == LinkState::Uninitialized ==> r == LinkState::Probing,
            self != LinkState::Uninitialized ==> r == self,
    {
        match self {
            LinkState::Uninitialized => LinkState::Probing,
            _ => self,
        }
    }

    /// Conclude detection from the scratch register's echo: the device
    /// is ready exactly when the sentinel came back, absent otherwise.
    pub fn finish_probe(self, readback: u8) -> (r: LinkState)
        ensures
            self == LinkState::Probing && readback == PROBE_SENTINEL ==> r == LinkState::Ready,
            self == LinkState::Probing && readback != PROBE_SENTINEL ==> r == LinkState::Absent,
            self != LinkState::Probing ==> r == self,
    {
        match self {
            LinkState::Probing => {
                if readback == PROBE_SENTINEL {
                    LinkState::Ready
                } else {
                    LinkState::Absent
                }
            },
            _ => self,
        }
    }
}

/// A serial UART device: seven byte-wide ports at fixed offsets from the
/// base address.
pub struct Serial {
    data: Port<u8>,
    interrupt_enable: Port<u8>,
    fifo_control: Port<u8>,
    line_control: Port<u8>,
    modem_control: Port<u8>,
    line_status: Port<u8>,
    scratch: Port<u8>,
}

/// The fixed configuration sequence for a freshly probed device, in order:
/// disable device interrupts, open divisor access, program divisor 1
/// (low then high byte), select 8 data bits / no parity / 1 stop bit while
/// closing divisor access, enable and flush the FIFO with a 14-byte
/// trigger, and assert the data-terminal-ready and request-to-send lines.
pub open spec fn config_seq(base: u16) -> Seq<BusWrite>
    recommends
        base <= MAX_BASE,
{
    seq![
        BusWrite { addr: (base + 1) as u16, width: Width::Bits8, value: 0x00 },
        BusWrite { addr: (base + 3) as u16, width: Width::Bits8, value: 0x80 },
        BusWrite { addr: base, width: Width::Bits8, value: 0x01 },
        BusWrite { addr: (base + 1) as u16, width: Width::Bits8, value: 0x00 },
        BusWrite { addr: (base + 3) as u16, width: Width::Bits8, value: 0x03 },
        BusWrite { addr: (base + 2) as u16, width: Width::Bits8, value: 0xC7 },
        BusWrite { addr: (base + 4) as u16, width: Width::Bits8, value: 0x0B },
    ]
}

impl Serial {
    /// The device's base port address.
    pub closed spec fn base(&self) -> u16 {
        self.data.addr()
    }

    /// The seven registers sit at offsets 0 to 5 and 7 from the base.
    pub closed spec fn wf(&self) -> bool {
        &&& self.base() <= MAX_BASE
        &&& self.data.addr() == self.base()
        &&& self.interrupt_enable.addr() == self.base() + 1
        &&& self.fifo_control.addr() == self.base() + 2
        &&& self.line_control.addr() == self.base() + 3
        &&& self.modem_control.addr() == self.base() + 4
        &&& self.line_status.addr() == self.base() + 5
        &&& self.scratch.addr() == self.base() + 7
    }

    /// Create the register map of a device at the given base address.
    pub fn new(base: u16) -> (s: Self)
        requires
            base <= MAX_BASE,
        ensures
            s.wf(),
            s.base() == base,
    {
        Serial {
            data: Port::new(base),
            interrupt_enable: Port::new(base + 1),
            fifo_control: Port::new(base + 2),
            line_control: Port::new(base + 3),
            modem_control: Port::new(base + 4),
            line_status: Port::new(base + 5),
            scratch: Port::new(base + 7),
        }
    }

    /// First half of the detection probe: write the sentinel byte to the
    /// scratch register.
    pub fn probe_write(&self) -> (w: BusWrite)
        requires
            self.wf(),
        ensures
            w == (BusWrite {
                addr: (self.base() + 7) as u16,
                width: Width::Bits8,
                value: PROBE_SENTINEL as u32,
            }),
    {
        self.scratch.write(PROBE_SENTINEL)
    }

    /// Second half of the detection probe: read the scratch register back.
    pub fn probe_read(&self) -> (r: BusRead)
        requires
            self.wf(),
        ensures
            r == (BusRead { addr: (self.base() + 7) as u16, width: Width::Bits8 }),
    {
        self.scratch.read()
    }

    /// The probe's conclusion: the device is present exactly when the
    /// scratch register echoed the sentinel.
    pub fn probe_ok(readback: u8) -> (present: bool)
        ensures
            present <==> readback == PROBE_SENTINEL,
    {
        readback == PROBE_SENTINEL
    }

    /// The configuration writes to perform, in order, on a successfully
    /// probed device.
    pub fn config_writes(&self) -> (ws: Vec<BusWrite>)
        requires
            self.wf(),
        ensures
            ws@ == config_seq(self.base()),
    {
        let mut ws: Vec<BusWrite> = Vec::new();
        ws.push(self.interrupt_enable.write(0x00));
        ws.push(self.line_control.write(0x80));
        ws.push(self.data.write(0x01));
        ws.push(self.interrupt_enable.write(0x00));
        ws.push(self.line_control.write(0x03));
        ws.push(self.fifo_control.write(0xC7));
        ws.push(self.modem_control.write(0x0B));
        proof {
            assert(ws@ =~= config_seq(self.base()));
        }
        ws
    }

    /// The bus cycle that samples the line-status register.
    pub fn status_read(&self) -> (r: BusRead)
        requires
            self.wf(),
        ensures
            r == (BusRead { addr: (self.base() + 5) as u16, width: Width::Bits8 }),
    {
        self.line_status.read()
    }

    /// Whether a sampled line-status value reports the transmit holding
    /// register empty.
    pub fn is_transmit_ready(line_status: u8) -> (r: bool)
        ensures
            r <==> (line_status & TRANSMIT_READY_BIT) != 0,
    {
        line_status & TRANSMIT_READY_BIT != 0
    }

    /// One step of the blocking send: given the latest line-status sample,
    /// either the byte goes out on the data register now, or the caller
    /// must poll the line status again.
    pub fn write_byte(&self, line_status: u8, byte: u8) -> (w: Option<BusWrite>)
        requires
            self.wf(),
        ensures
            (line_status & TRANSMIT_READY_BIT) != 0 ==> w == Some(
                BusWrite { addr: self.base(), width: Width::Bits8, value: byte as u32 },
            ),
            (line_status & TRANSMIT_READY_BIT) == 0 ==> w is None,
    {
        if Self::is_transmit_ready(line_status) {
            Some(self.data.write(byte))
        } else {
            None
        }
    }

    /// The non-blocking receive decision: given the latest line-status
    /// sample, either a byte is waiting on the data register, or no data
    /// is available — an expected condition, not an error.
    pub fn read_byte(&self, line_status: u8) -> (r: Option<BusRead>)
        requires
            self.wf(),
        ensures
            (line_status & DATA_READY_BIT) != 0 ==> r == Some(
                BusRead { addr: self.base(), width: Width::Bits8 },
            ),
            (line_status & DATA_READY_BIT) == 0 ==> r is None,
    {
        if line_status & DATA_READY_BIT != 0 {
            Some(self.data.read())
        } else {
            None
        }
    }
}

/// Initialize the global serial driver once: publish the register map of
/// the device at the primary base address. Calling again later is a
/// no-op. The caller must still run the detection probe
/// (`probe_write` / `probe_read` / `probe_ok`) and the configuration
/// sequence against the hardware, and must treat a failed probe as fatal:
/// without the device there is no diagnostic channel.
pub fn init(cell: &mut InitOnce<Serial>)
    ensures
        final(cell).is_init(),
        old(cell).is_init() ==> *final(cell) == *old(cell),
        !old(cell).is_init() ==> final(cell).value_spec().wf()
            && final(cell).value_spec().base() == COM1_BASE,
{
    let s = Serial::new(COM1_BASE);
    cell.call_once(s);
}

/// Outgoing text with line endings normalized for terminal consumers:
/// every line feed is preceded by an injected carriage return.
pub open spec fn crlf_encode(s: Seq<u8>) -> Seq<u8>
    decreases s.len(),
{
    if s.len() == 0 {
        Seq::empty()
    } else if s[0] == 0x0A {
        seq![0x0Du8, 0x0Au8] + crlf_encode(s.skip(1))
    } else {
        seq![s[0]] + crlf_encode(s.skip(1))
    }
}

/// The inverse view of the wire stream: drop the carriage return injected
/// before each line feed.
pub open spec fn crlf_decode(w: Seq<u8>) -> Seq<u8>
    decreases w.len(),
{
    if w.len() == 0 {
        Seq::empty()
    } else if w.len() >= 2 && w[0] == 0x0D && w[1] == 0x0A {
        seq![0x0Au8] + crlf_decode(w.skip(2))
    } else {
        seq![w[0]] + crlf_decode(w.skip(1))
    }
}

/// Concatenation distributes over the wire encoding.
pub proof fn lemma_crlf_encode_concat(a: Seq<u8>, b: Seq<u8>)
    ensures
        crlf_encode(a + b) == crlf_encode(a) + crlf_encode(b),
    decreases a.len(),
{
    if a.len() == 0 {
        assert(a + b =~= b);
        assert(crlf_encode(a) + crlf_encode(b) =~= crlf_encode(b));
    } else {
        lemma_crlf_encode_concat(a.skip(1), b);
        assert((a + b).skip(1) =~= a.skip(1) + b);
        assert(crlf_encode(a + b) =~= crlf_encode(a) + crlf_encode(b));
    }
}

/// The wire encoding never begins with a bare line feed.
proof fn lemma_crlf_encode_head(s: Seq<u8>)
    requires
        s.len() > 0,
    ensures
        crlf_encode(s).len() > 0,
        crlf_encode(s)[0] != 0x0A || s[0] == 0x0A,
        s[0] == 0x0A ==> crlf_encode(s)[0] == 0x0D,
{
}

/// Round trip: what the wire carries decodes back to exactly the bytes
/// that were sent.
pub proof fn lemma_crlf_round_trip(s: Seq<u8>)
    ensures
        crlf_decode(crlf_encode(s)) == s,
    decreases s.len(),
{
    if s.len() == 0 {
        assert(crlf_decode(crlf_encode(s)) =~= s);
    } else {
        lemma_crlf_round_trip(s.skip(1));
        let rest = crlf_encode(s.skip(1));
        if s[0] == 0x0A {
            let w = crlf_encode(s);
            assert(w == seq![0x0Du8, 0x0Au8] + rest);
            assert(w.len() >= 2 && w[0] == 0x0D && w[1] == 0x0A);
            assert(w.skip(2) =~= rest);
            assert(crlf_decode(w) == seq![0x0Au8] + crlf_decode(rest));
            assert(seq![0x0Au8] + s.skip(1) =~= s);
        } else {
            let w = crlf_encode(s);
            assert(w == seq![s[0]] + rest);
            if w.len() >= 2 && w[0] == 0x0D && w[1] == 0x0A {
                // impossible: the tail encoding never begins with a line feed
                assert(rest[0] == 0x0A);
                assert(s.skip(1).len() > 0);
                lemma_crlf_encode_head(s.skip(1));
                assert(false);
            }
            assert(w.skip(1) =~= rest);
            assert(crlf_decode(w) == seq![s[0]] + crlf_decode(rest));
            assert(seq![s[0]] + s.skip(1) =~= s);
        }
    }
}

/// Every line feed on the wire is immediately preceded by a carriage
/// return.
pub proof fn lemma_crlf_lf_preceded(s: Seq<u8>)
    ensures
        forall|i: int|
            0 <= i < crlf_encode(s).len() && #[trigger] crlf_encode(s)[i] == 0x0A ==> i > 0
                && crlf_encode(s)[i - 1] == 0x0D,
    decreases s.len(),
{
    if s.len() == 0 {
    } else {
        lemma_crlf_lf_preceded(s.skip(1));
        let rest = crlf_encode(s.skip(1));
        let head: Seq<u8> = if s[0] == 0x0A { seq![0x0Du8, 0x0Au8] } else { seq![s[0]] };
        assert(crlf_encode(s) == head + rest);
        if s.skip(1).len() > 0 {
            lemma_crlf_encode_head(s.skip(1));
        }
        assert forall|i: int|
            0 <= i < crlf_encode(s).len() && #[trigger] crlf_encode(s)[i] == 0x0A implies i > 0
            && crlf_encode(s)[i - 1] == 0x0D by {
            if i >= head.len() {
                assert(crlf_encode(s)[i] == rest[i - head.len()]);
                if i == head.len() {
                    // the tail encoding never begins with a line feed that
                    // the head must cover: its first byte is either not a
                    // line feed or the head ends in a carriage return
                    assert(rest[0] != 0x0A);
                } else {
                    assert(crlf_encode(s)[i - 1] == rest[i - head.len() - 1]);
                }
            }
        }
    }
}

/// Encode outgoing bytes for the wire: inject a carriage return before
/// every line feed.
pub fn wire_bytes(s: &Vec<u8>) -> (w: Vec<u8>)
    ensures
        w@ == crlf_encode(s@),
{
    let mut w: Vec<u8> = Vec::new();
    let mut i: usize = 0;
    while i < s.len()
        invariant
            i <= s.len(),
            w@ == crlf_encode(s@.take(i as int)),
        decreases s.len() - i,
    {
        let b = s[i];
        if b == 0x0A {
            w.push(0x0D);
            w.push(0x0A);
        } else {
            w.push(b);
        }
        proof {
            let prefix = s@.take(i as int);
            let step = s@.take(i + 1 as int);
            assert(step =~= prefix + seq![s@[i as int]]);
            lemma_crlf_encode_concat(prefix, seq![s@[i as int]]);
            let single = seq![s@[i as int]];
            assert(single.skip(1) =~= Seq::<u8>::empty());
            assert(crlf_encode(single.skip(1)) =~= Seq::<u8>::empty());
            if b == 0x0A {
                assert(crlf_encode(single) =~= seq![0x0Du8, 0x0Au8]);
            } else {
                assert(crlf_encode(single) =~= seq![b]);
            }
            assert(w@ =~= crlf_encode(step));
        }
        i = i + 1;
    }
    proof {
        assert(s@.take(s@.len() as int) =~= s@);
    }
    w
}

} // verus!
