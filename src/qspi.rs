//! Register model of the quad-SPI peripheral as it is used to drive SWD.
//!
//! The model holds the command registers as plain values, the bytes queued
//! for the data register, and the bytes the peripheral has sampled from the
//! target. Reading the data register blocks on the hardware until the
//! operation completes, so the model reads the next sampled byte without any
//! busy poll.

use vstd::prelude::*;

use crate::rcc::Clocks;
use crate::swd::{
    assemble_read_data, decode_read_ack, decode_write_ack, disperse_data, expand_request,
    gather_request, is_data_frame, is_expanded_request, is_read_word, lemma_request_round_trip,
    parity_byte, pick3, read_parity,
};

verus! {

/// The fields of the communication configuration register that SWD uses;
/// every other field is zero.
#[derive(PartialEq, Eq, Structural, Clone, Copy, Debug)]
pub struct Command {
    /// Double data rate.
    pub ddrm: u32,
    /// 0: indirect write, 1: indirect read.
    pub fmode: u32,
    /// Data lanes: 1 single, 2 dual.
    pub dmode: u32,
    /// Dummy cycles between address and data.
    pub dcyc: u32,
    /// Address size: 0 is 8 bits, 1 is 16, 3 is 32.
    pub adsize: u32,
    /// Address lanes: 0 none, 2 dual.
    pub admode: u32,
}

pub open spec fn read_request_command() -> Command {
    Command { ddrm: 1, fmode: 1, dmode: 1, dcyc: 0, adsize: 3, admode: 2 }
}

pub open spec fn write_request_command() -> Command {
    Command { ddrm: 1, fmode: 1, dmode: 1, dcyc: 1, adsize: 3, admode: 2 }
}

pub open spec fn read_data_command() -> Command {
    Command { ddrm: 1, fmode: 1, dmode: 2, dcyc: 0, adsize: 0, admode: 0 }
}

pub open spec fn write_data_command() -> Command {
    Command { ddrm: 0, fmode: 0, dmode: 2, dcyc: 0, adsize: 3, admode: 2 }
}

pub open spec fn dummy_command() -> Command {
    Command { ddrm: 0, fmode: 1, dmode: 0, dcyc: 0, adsize: 1, admode: 2 }
}

impl Command {
    /// Request phase of a read: a 32-bit DDR dual-lane address carries the
    /// request, then one DDR single-lane byte samples turnaround and ack.
    pub fn read_request() -> (c: Command)
        ensures
            c == read_request_command(),
    {
        Command { ddrm: 1, fmode: 1, dmode: 1, dcyc: 0, adsize: 3, admode: 2 }
    }

    /// Request phase of a write: as for a read, with one idle cycle before
    /// the ack is sampled.
    pub fn write_request() -> (c: Command)
        ensures
            c == write_request_command(),
    {
        Command { ddrm: 1, fmode: 1, dmode: 1, dcyc: 1, adsize: 3, admode: 2 }
    }

    /// Data phase of a read: DDR dual-lane sampling with no address.
    pub fn read_data() -> (c: Command)
        ensures
            c == read_data_command(),
    {
        Command { ddrm: 1, fmode: 1, dmode: 2, dcyc: 0, adsize: 0, admode: 0 }
    }

    /// Data phase of a write: SDR dual-lane writes.
    pub fn write_data() -> (c: Command)
        ensures
            c == write_data_command(),
    {
        Command { ddrm: 0, fmode: 0, dmode: 2, dcyc: 0, adsize: 3, admode: 2 }
    }

    /// Idle cycles that return the bus to its rest state: a 16-bit address
    /// of zero with no data.
    pub fn dummy() -> (c: Command)
        ensures
            c == dummy_command(),
    {
        Command { ddrm: 0, fmode: 1, dmode: 0, dcyc: 0, adsize: 1, admode: 2 }
    }
}

/// One write to the data register, at the width it is made with. A wider
/// write queues its bytes least significant first.
#[derive(PartialEq, Eq, Structural, Clone, Copy, Debug)]
pub enum DrWrite {
    Word(u32),
    Half(u16),
    Byte(u8),
}

/// One register access, in the order it is made.
#[derive(PartialEq, Eq, Structural, Clone, Copy, Debug)]
pub enum QspiOp {
    /// Data length register write.
    Dlr(u32),
    /// Communication configuration register write.
    Ccr(Command),
    /// Address register write; in indirect mode it starts the operation.
    Ar(u32),
    /// Data register write.
    Write(DrWrite),
    /// Data register read, and the byte it returned. The access stalls
    /// until the peripheral has the byte, so no busy poll precedes it.
    Read(u8),
    /// Wait until the busy flag reads clear.
    WaitIdle,
    /// Clear the enable bit.
    Disable,
    /// Prescaler field write.
    Prescaler(u32),
}

/// The reads that return `bytes`, one after the other.
pub open spec fn reads(bytes: Seq<u8>) -> Seq<QspiOp> {
    bytes.map_values(|b: u8| QspiOp::Read(b))
}

/// Data length register value for a request phase.
pub const REQUEST_DL: u32 = 1;

/// Data length register value for a read data phase: 34 bits, sampled on
/// two lanes and both edges, make 17 bytes.
pub const READ_DATA_DL: u32 = 17;

/// Data length register value for a write data phase.
pub const WRITE_DATA_DL: u32 = 11;

/// Register model of the quad-SPI peripheral.
pub struct QSPI {
    pub enabled: bool,
    /// Clock prescaler field.
    pub prescaler: u32,
    /// Clock that feeds the peripheral, in Hz; zero until it is known.
    pub base_clock: u32,
    pub dlr: u32,
    pub ccr: Command,
    pub ar: u32,
    /// Register accesses made so far, in order.
    pub ops: Vec<QspiOp>,
    /// Bytes sampled from the target, in order of arrival.
    pub sampled: Vec<u8>,
    /// How many of `sampled` have been read from the data register.
    pub read_pos: usize,
}

impl QSPI {
    /// How many sampled bytes are still waiting in the data register.
    pub open spec fn pending(&self) -> int {
        self.sampled@.len() - self.read_pos
    }

    pub open spec fn wf(&self) -> bool {
        self.read_pos <= self.sampled@.len()
    }

    /// A disabled peripheral with no clock known, nothing sent and
    /// `sampled` waiting to be read.
    pub fn new(sampled: Vec<u8>) -> (q: QSPI)
        ensures
            q.wf(),
            !q.enabled,
            q.base_clock == 0,
            q.ops@.len() == 0,
            q.sampled@ == sampled@,
            q.read_pos == 0,
    {
        QSPI {
            enabled: false,
            prescaler: 0,
            base_clock: 0,
            dlr: 0,
            ccr: Command { ddrm: 0, fmode: 0, dmode: 0, dcyc: 0, adsize: 0, admode: 0 },
            ar: 0,
            ops: Vec::new(),
            sampled,
            read_pos: 0,
        }
    }

    /// Records the AHB clock, which feeds the peripheral.
    pub fn set_base_clock(&mut self, clocks: &Clocks)
        ensures
            final(self).base_clock == clocks.hclk_spec(),
            final(self).enabled == old(self).enabled,
            final(self).prescaler == old(self).prescaler,
            final(self).dlr == old(self).dlr,
            final(self).ccr == old(self).ccr,
            final(self).ar == old(self).ar,
            final(self).ops@ == old(self).ops@,
            final(self).sampled@ == old(self).sampled@,
            final(self).read_pos == old(self).read_pos,
    {
        self.base_clock = clocks.hclk();
    }

    /// The prescaler that divides the base clock down to `max_frequency`, or
    /// `None` where the clock is unknown or `max_frequency` is at or below
    /// the slowest rate (base clock / 256).
    pub fn calculate_prescaler(&self, max_frequency: u32) -> (p: Option<u32>)
        ensures
            self.base_clock == 0 || self.base_clock / 256 >= max_frequency
                ==> p.is_none(),
            self.base_clock != 0 && self.base_clock / 256 < max_frequency
                ==> p == Some(self.base_clock / max_frequency),
    {
        let base_clock = self.base_clock;
        if base_clock == 0 || (base_clock / 256) >= max_frequency {
            return None;
        }
        Some(base_clock / max_frequency)
    }

    /// Sets the 8-bit clock prescaler field.
    pub fn set_prescaler(&mut self, prescaler: u32)
        ensures
            final(self).prescaler == prescaler & 0xff,
            final(self).ops@ == old(self).ops@.push(QspiOp::Prescaler(prescaler & 0xff)),
            final(self).enabled == old(self).enabled,
            final(self).base_clock == old(self).base_clock,
            final(self).dlr == old(self).dlr,
            final(self).ccr == old(self).ccr,
            final(self).ar == old(self).ar,
            final(self).sampled@ == old(self).sampled@,
            final(self).read_pos == old(self).read_pos,
    {
        self.prescaler = prescaler & 0xff;
        self.ops.push(QspiOp::Prescaler(prescaler & 0xff));
    }

    /// Waits until the pending operation is done, then disables the
    /// peripheral.
    pub fn disable(&mut self)
        ensures
            !final(self).enabled,
            final(self).ops@ == old(self).ops@ + seq![QspiOp::WaitIdle, QspiOp::Disable],
            final(self).prescaler == old(self).prescaler,
            final(self).base_clock == old(self).base_clock,
            final(self).dlr == old(self).dlr,
            final(self).ccr == old(self).ccr,
            final(self).ar == old(self).ar,
            final(self).sampled@ == old(self).sampled@,
            final(self).read_pos == old(self).read_pos,
    {
        let ghost before = self.ops@;
        self.ops.push(QspiOp::WaitIdle);
        self.ops.push(QspiOp::Disable);
        self.enabled = false;
        assert(self.ops@ =~= before + seq![QspiOp::WaitIdle, QspiOp::Disable]);
    }

    /// Nothing to set up beyond what each operation writes.
    pub fn setup_swd(&self) {
    }

    /// Issues idle cycles that return the bus to rest: the command first,
    /// then the address write that starts it.
    pub fn swd_dummy_bytes(&mut self)
        ensures
            final(self).ccr == dummy_command(),
            final(self).ar == 0,
            final(self).ops@ == old(self).ops@ + seq![QspiOp::Ccr(dummy_command()), QspiOp::Ar(0)],
            final(self).dlr == old(self).dlr,
            final(self).enabled == old(self).enabled,
            final(self).prescaler == old(self).prescaler,
            final(self).base_clock == old(self).base_clock,
            final(self).sampled@ == old(self).sampled@,
            final(self).read_pos == old(self).read_pos,
    {
        let ghost before = self.ops@;
        let c = Command::dummy();
        self.ccr = c;
        self.ops.push(QspiOp::Ccr(c));
        self.ar = 0;
        self.ops.push(QspiOp::Ar(0));
        assert(self.ops@ =~= before + seq![QspiOp::Ccr(dummy_command()), QspiOp::Ar(0)]);
    }

    /// Reads one byte from the data register.
    fn read_dr_u8(&mut self) -> (b: u8)
        requires
            old(self).wf(),
            old(self).pending() >= 1,
        ensures
            final(self).wf(),
            b == old(self).sampled@[old(self).read_pos as int],
            final(self).ops@ == old(self).ops@.push(QspiOp::Read(b)),
            final(self).read_pos == old(self).read_pos + 1,
            final(self).sampled@ == old(self).sampled@,
            final(self).enabled == old(self).enabled,
            final(self).prescaler == old(self).prescaler,
            final(self).base_clock == old(self).base_clock,
            final(self).dlr == old(self).dlr,
            final(self).ccr == old(self).ccr,
            final(self).ar == old(self).ar,
    {
        let len = self.sampled.len();
        proof {
            assert(self.read_pos < len);
        }
        let b = self.sampled[self.read_pos];
        self.read_pos = self.read_pos + 1;
        self.ops.push(QspiOp::Read(b));
        b
    }

    /// Programs a request phase: length, command, then the address write
    /// carrying the expanded request, which starts it.
    fn issue_request(&mut self, request: u8, c: Command)
        ensures
            is_expanded_request(final(self).ar, request),
            gather_request(final(self).ar) == request,
            final(self).dlr == REQUEST_DL,
            final(self).ccr == c,
            final(self).ops@ == old(self).ops@ + seq![
                QspiOp::Dlr(REQUEST_DL),
                QspiOp::Ccr(c),
                QspiOp::Ar(final(self).ar),
            ],
            final(self).read_pos == old(self).read_pos,
            final(self).sampled@ == old(self).sampled@,
            final(self).enabled == old(self).enabled,
            final(self).prescaler == old(self).prescaler,
            final(self).base_clock == old(self).base_clock,
    {
        let ghost before = self.ops@;
        let expanded = expand_request(request);
        proof {
            lemma_request_round_trip(request, expanded);
        }
        self.dlr = REQUEST_DL;
        self.ops.push(QspiOp::Dlr(REQUEST_DL));
        self.ccr = c;
        self.ops.push(QspiOp::Ccr(c));
        self.ar = expanded;
        self.ops.push(QspiOp::Ar(expanded));
        assert(self.ops@ =~= before + seq![
            QspiOp::Dlr(REQUEST_DL),
            QspiOp::Ccr(c),
            QspiOp::Ar(expanded),
        ]);
    }

    /// Sends an SWD read request and returns the three ack bits sampled
    /// after it: length, command and address written in that order, the
    /// address write starting the phase, then one data register read with
    /// no busy poll before it.
    pub fn swd_read_req(&mut self, request: u8) -> (ack: u8)
        requires
            old(self).wf(),
            old(self).pending() >= 1,
        ensures
            final(self).wf(),
            final(self).dlr == REQUEST_DL,
            final(self).ccr == read_request_command(),
            is_expanded_request(final(self).ar, request),
            gather_request(final(self).ar) == request,
            final(self).ops@ == old(self).ops@ + seq![
                QspiOp::Dlr(REQUEST_DL),
                QspiOp::Ccr(read_request_command()),
                QspiOp::Ar(final(self).ar),
                QspiOp::Read(old(self).sampled@[old(self).read_pos as int]),
            ],
            ack == pick3(old(self).sampled@[old(self).read_pos as int], 0, 2, 4),
            final(self).read_pos == old(self).read_pos + 1,
            final(self).sampled@ == old(self).sampled@,
            final(self).enabled == old(self).enabled,
            final(self).prescaler == old(self).prescaler,
            final(self).base_clock == old(self).base_clock,
    {
        let ghost before = self.ops@;
        self.issue_request(request, Command::read_request());
        let raw = self.read_dr_u8();
        assert(self.ops@ =~= before + seq![
            QspiOp::Dlr(REQUEST_DL),
            QspiOp::Ccr(read_request_command()),
            QspiOp::Ar(self.ar),
            QspiOp::Read(raw),
        ]);
        decode_read_ack(raw)
    }

    /// Sends an SWD write request and returns the three ack bits sampled
    /// after the extra turnaround cycle; the accesses are as for a read
    /// request, with the write request command.
    pub fn swd_write_req(&mut self, request: u8) -> (ack: u8)
        requires
            old(self).wf(),
            old(self).pending() >= 1,
        ensures
            final(self).wf(),
            final(self).dlr == REQUEST_DL,
            final(self).ccr == write_request_command(),
            is_expanded_request(final(self).ar, request),
            gather_request(final(self).ar) == request,
            final(self).ops@ == old(self).ops@ + seq![
                QspiOp::Dlr(REQUEST_DL),
                QspiOp::Ccr(write_request_command()),
                QspiOp::Ar(final(self).ar),
                QspiOp::Read(old(self).sampled@[old(self).read_pos as int]),
            ],
            ack == pick3(old(self).sampled@[old(self).read_pos as int], 2, 4, 6),
            final(self).read_pos == old(self).read_pos + 1,
            final(self).sampled@ == old(self).sampled@,
            final(self).enabled == old(self).enabled,
            final(self).prescaler == old(self).prescaler,
            final(self).base_clock == old(self).base_clock,
    {
        let ghost before = self.ops@;
        self.issue_request(request, Command::write_request());
        let raw = self.read_dr_u8();
        assert(self.ops@ =~= before + seq![
            QspiOp::Dlr(REQUEST_DL),
            QspiOp::Ccr(write_request_command()),
            QspiOp::Ar(self.ar),
            QspiOp::Read(raw),
        ]);
        decode_write_ack(raw)
    }

    /// Reads a data phase: length and read-data command, 17 data register
    /// reads (16 data bytes and the parity byte), then idle cycles.
    pub fn swd_read_data(&mut self) -> (r: (u32, u8))
        requires
            old(self).wf(),
            old(self).pending() >= 17,
        ensures
            final(self).wf(),
            is_read_word(
                r.0,
                old(self).sampled@.subrange(old(self).read_pos as int, old(self).read_pos + 16),
            ),
            r.1 == read_parity(old(self).sampled@[old(self).read_pos + 16]),
            final(self).ops@ == old(self).ops@ + seq![
                QspiOp::Dlr(READ_DATA_DL),
                QspiOp::Ccr(read_data_command()),
            ] + reads(
                old(self).sampled@.subrange(old(self).read_pos as int, old(self).read_pos + 17),
            ) + seq![QspiOp::Ccr(dummy_command()), QspiOp::Ar(0)],
            final(self).read_pos == old(self).read_pos + 17,
            final(self).dlr == READ_DATA_DL,
            final(self).ccr == dummy_command(),
            final(self).ar == 0,
            final(self).sampled@ == old(self).sampled@,
            final(self).enabled == old(self).enabled,
            final(self).prescaler == old(self).prescaler,
            final(self).base_clock == old(self).base_clock,
    {
        let ghost before = self.ops@;
        self.dlr = READ_DATA_DL;
        self.ops.push(QspiOp::Dlr(READ_DATA_DL));
        let c = Command::read_data();
        self.ccr = c;
        self.ops.push(QspiOp::Ccr(c));
        let ghost programmed = self.ops@;
        assert(programmed =~= before + seq![
            QspiOp::Dlr(READ_DATA_DL),
            QspiOp::Ccr(read_data_command()),
        ]);
        let mut buf: Vec<u8> = Vec::new();
        let ghost start = self.read_pos as int;
        let mut i: usize = 0;
        while i < 17
            invariant
                self.wf(),
                i <= 17,
                self.read_pos == start + i,
                self.sampled@.len() >= start + 17,
                buf@ == self.sampled@.subrange(start, start + i),
                self.ops@ == programmed + reads(buf@),
                self.sampled@ == old(self).sampled@,
                self.enabled == old(self).enabled,
                self.prescaler == old(self).prescaler,
                self.base_clock == old(self).base_clock,
                self.dlr == READ_DATA_DL,
                self.ccr == read_data_command(),
                start == old(self).read_pos,
            decreases 17 - i,
        {
            let ghost ops0 = self.ops@;
            let ghost buf0 = buf@;
            let b = self.read_dr_u8();
            buf.push(b);
            assert(reads(buf@) =~= reads(buf0).push(QspiOp::Read(b)));
            assert(self.ops@ =~= programmed + reads(buf@));
            i = i + 1;
        }
        let r = assemble_read_data(buf.as_slice());
        proof {
            assert(buf@.subrange(0, 16) =~= self.sampled@.subrange(start, start + 16));
        }
        self.swd_dummy_bytes();
        assert(self.ops@ =~= programmed + reads(buf@) + seq![
            QspiOp::Ccr(dummy_command()),
            QspiOp::Ar(0),
        ]);
        r
    }

    /// Writes a data phase: length and write-data command, then the word
    /// spread over two 32-bit writes, the parity byte, and a 16-bit pad of
    /// idle cycles.
    pub fn swd_write_data(&mut self, data: u32, parity: u8)
        ensures
            final(self).dlr == WRITE_DATA_DL,
            final(self).ccr == write_data_command(),
            ({
                let n = old(self).ops@.len() as int;
                let s = final(self).ops@;
                &&& s.len() == n + 6
                &&& s.subrange(0, n) == old(self).ops@
                &&& s[n] == QspiOp::Dlr(WRITE_DATA_DL)
                &&& s[n + 1] == QspiOp::Ccr(write_data_command())
                &&& s[n + 2] matches QspiOp::Write(DrWrite::Word(hi))
                &&& s[n + 3] matches QspiOp::Write(DrWrite::Word(lo))
                &&& is_data_frame(hi, lo, data)
                &&& s[n + 4] == QspiOp::Write(DrWrite::Byte(parity_byte(parity)))
                &&& s[n + 5] == QspiOp::Write(DrWrite::Half(0))
            }),
            final(self).ar == old(self).ar,
            final(self).sampled@ == old(self).sampled@,
            final(self).read_pos == old(self).read_pos,
            final(self).enabled == old(self).enabled,
            final(self).prescaler == old(self).prescaler,
            final(self).base_clock == old(self).base_clock,
    {
        self.dlr = WRITE_DATA_DL;
        self.ops.push(QspiOp::Dlr(WRITE_DATA_DL));
        let c = Command::write_data();
        self.ccr = c;
        self.ops.push(QspiOp::Ccr(c));
        let (hi, lo) = disperse_data(data);
        let p: u8 = parity << 7;
        self.ops.push(QspiOp::Write(DrWrite::Word(hi)));
        self.ops.push(QspiOp::Write(DrWrite::Word(lo)));
        self.ops.push(QspiOp::Write(DrWrite::Byte(p)));
        self.ops.push(QspiOp::Write(DrWrite::Half(0)));
    }
}

} // verus!
