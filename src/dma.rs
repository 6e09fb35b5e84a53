//! Transfer engine: a model of the DMA streams that move serial data
//! without the CPU.
//!
//! A one-shot full-duplex pair serves the synchronous serial peripheral; a
//! circular receive stream serves the trace input. Buffers are handed to
//! the engine when a transfer starts and handed back when it stops, so the
//! engine owns them exactly while they are in flight. Every register step
//! that starts or stops a transfer is recorded in order in `ops`.

use vstd::prelude::*;

verus! {

/// Which way a stream moves data.
#[derive(PartialEq, Eq, Structural, Clone, Copy, Debug)]
pub enum Direction {
    PeripheralToMemory,
    MemoryToPeripheral,
}

/// The data register a stream is tied to.
#[derive(PartialEq, Eq, Structural, Clone, Copy, Debug)]
pub enum Peripheral {
    Spi5,
    Uart5,
    Usart6,
}

/// A stream's fixed wiring, as setup programs it.
#[derive(PartialEq, Eq, Structural, Clone, Copy, Debug)]
pub struct StreamConfig {
    /// Request channel selection.
    pub channel: u32,
    pub peripheral: Peripheral,
    pub direction: Direction,
    /// Restart at the buffer start after the last byte.
    pub circular: bool,
    /// High stream priority.
    pub high_priority: bool,
    /// Memory and peripheral sides both move single bytes.
    pub byte_transfers: bool,
    /// The memory address advances after each byte.
    pub memory_increment: bool,
    /// The peripheral address advances after each byte.
    pub peripheral_increment: bool,
}

/// One register step on a stream, in the order it is made.
#[derive(PartialEq, Eq, Structural, Clone, Copy, Debug)]
pub enum DmaOp {
    /// Clear every event flag (complete, half, error, direct-mode error,
    /// FIFO error) of a duplex stream.
    ClearSpiRxFlags,
    ClearSpiTxFlags,
    SpiRxLength(usize),
    SpiTxLength(usize),
    EnableSpiRx,
    EnableSpiTx,
    DisableSpiRx,
    DisableSpiTx,
    ClearUartFlags,
    UartLength(usize),
    EnableUart,
    DisableUart,
}

/// Model of the two DMA controllers' streams in use.
pub struct DMA {
    /// Serial peripheral receive and transmit, trace receive, and the
    /// second serial port's receive and transmit; `None` until setup.
    pub spi_rx_config: Option<StreamConfig>,
    pub spi_tx_config: Option<StreamConfig>,
    pub uart_rx_config: Option<StreamConfig>,
    pub usart_rx_config: Option<StreamConfig>,
    pub usart_tx_config: Option<StreamConfig>,
    /// Duplex pair: both streams enabled.
    pub spi_enabled: bool,
    /// Duplex pair: receive transfer-complete flag.
    pub spi_complete: bool,
    /// Bytes to send.
    pub spi_tx: Vec<u8>,
    /// Receive buffer while in flight.
    pub spi_rx: Vec<u8>,
    /// Bytes sent so far.
    pub spi_tx_done: usize,
    /// Bytes received so far.
    pub spi_rx_done: usize,
    /// Trace receive: stream enabled.
    pub uart_enabled: bool,
    /// Trace receive buffer while in flight.
    pub uart_buf: Vec<u8>,
    /// Trace receive: bytes left in the current pass.
    pub uart_ndtr: usize,
    /// Trace receive: bytes that arrived since the start.
    pub uart_received: Ghost<nat>,
    /// Register steps made so far, in order.
    pub ops: Vec<DmaOp>,
}

/// The wiring of each stream: bytes on both sides, memory side
/// incrementing, peripheral address fixed, high priority.
pub open spec fn wiring(channel: u32, p: Peripheral, d: Direction, circular: bool) -> StreamConfig {
    StreamConfig {
        channel,
        peripheral: p,
        direction: d,
        circular,
        high_priority: true,
        byte_transfers: true,
        memory_increment: true,
        peripheral_increment: false,
    }
}

pub open spec fn spi_rx_wiring() -> StreamConfig {
    wiring(2, Peripheral::Spi5, Direction::PeripheralToMemory, false)
}

pub open spec fn spi_tx_wiring() -> StreamConfig {
    wiring(2, Peripheral::Spi5, Direction::MemoryToPeripheral, false)
}

pub open spec fn uart_rx_wiring() -> StreamConfig {
    wiring(4, Peripheral::Uart5, Direction::PeripheralToMemory, true)
}

pub open spec fn usart_rx_wiring() -> StreamConfig {
    wiring(5, Peripheral::Usart6, Direction::PeripheralToMemory, true)
}

pub open spec fn usart_tx_wiring() -> StreamConfig {
    wiring(5, Peripheral::Usart6, Direction::MemoryToPeripheral, false)
}

fn make_wiring(channel: u32, p: Peripheral, d: Direction, circular: bool) -> (c: StreamConfig)
    ensures
        c == wiring(channel, p, d, circular),
{
    StreamConfig {
        channel,
        peripheral: p,
        direction: d,
        circular,
        high_priority: true,
        byte_transfers: true,
        memory_increment: true,
        peripheral_increment: false,
    }
}

impl DMA {
    /// Length of the trace buffer in flight.
    pub open spec fn uart_len(&self) -> nat {
        self.uart_buf@.len()
    }

    /// Every stream keeps the wiring it has in `other`.
    pub open spec fn same_wiring(&self, other: DMA) -> bool {
        &&& self.spi_rx_config == other.spi_rx_config
        &&& self.spi_tx_config == other.spi_tx_config
        &&& self.uart_rx_config == other.uart_rx_config
        &&& self.usart_rx_config == other.usart_rx_config
        &&& self.usart_tx_config == other.usart_tx_config
    }

    pub open spec fn wf(&self) -> bool {
        &&& self.spi_tx_done <= self.spi_tx@.len()
        &&& self.spi_rx_done <= self.spi_rx@.len()
        &&& self.spi_complete <==> self.spi_rx_done == self.spi_rx@.len()
        &&& self.uart_enabled ==> {
            &&& 0 < self.uart_len() < 0x10000
            &&& 0 < self.uart_ndtr <= self.uart_len()
            &&& self.uart_ndtr == self.uart_len() - self.uart_received@ % self.uart_len()
        }
    }

    /// Both controllers with nothing wired, nothing in flight and no step
    /// made.
    pub fn new() -> (d: DMA)
        ensures
            d.wf(),
            d.spi_rx_config.is_none(),
            d.spi_tx_config.is_none(),
            d.uart_rx_config.is_none(),
            d.usart_rx_config.is_none(),
            d.usart_tx_config.is_none(),
            !d.spi_enabled,
            !d.uart_enabled,
            d.ops@.len() == 0,
    {
        DMA {
            spi_rx_config: None,
            spi_tx_config: None,
            uart_rx_config: None,
            usart_rx_config: None,
            usart_tx_config: None,
            spi_enabled: false,
            spi_complete: true,
            spi_tx: Vec::new(),
            spi_rx: Vec::new(),
            spi_tx_done: 0,
            spi_rx_done: 0,
            uart_enabled: false,
            uart_buf: Vec::new(),
            uart_ndtr: 0,
            uart_received: Ghost(0),
            ops: Vec::new(),
        }
    }

    /// Wires each stream to its peripheral's data register and direction,
    /// all disabled. Calling it again changes nothing.
    pub fn setup(&mut self)
        requires
            old(self).wf(),
        ensures
            final(self).wf(),
            final(self).spi_rx_config == Some(spi_rx_wiring()),
            final(self).spi_tx_config == Some(spi_tx_wiring()),
            final(self).uart_rx_config == Some(uart_rx_wiring()),
            final(self).usart_rx_config == Some(usart_rx_wiring()),
            final(self).usart_tx_config == Some(usart_tx_wiring()),
            !final(self).spi_enabled,
            !final(self).uart_enabled,
            final(self).spi_complete == old(self).spi_complete,
            final(self).spi_tx@ == old(self).spi_tx@,
            final(self).spi_rx@ == old(self).spi_rx@,
            final(self).spi_tx_done == old(self).spi_tx_done,
            final(self).spi_rx_done == old(self).spi_rx_done,
            final(self).uart_buf@ == old(self).uart_buf@,
            final(self).uart_ndtr == old(self).uart_ndtr,
            final(self).ops@ == old(self).ops@,
    {
        self.spi_rx_config = Some(
            make_wiring(2, Peripheral::Spi5, Direction::PeripheralToMemory, false),
        );
        self.spi_tx_config = Some(
            make_wiring(2, Peripheral::Spi5, Direction::MemoryToPeripheral, false),
        );
        self.uart_rx_config = Some(
            make_wiring(4, Peripheral::Uart5, Direction::PeripheralToMemory, true),
        );
        self.usart_rx_config = Some(
            make_wiring(5, Peripheral::Usart6, Direction::PeripheralToMemory, true),
        );
        self.usart_tx_config = Some(
            make_wiring(5, Peripheral::Usart6, Direction::MemoryToPeripheral, false),
        );
        self.spi_enabled = false;
        self.uart_enabled = false;
    }

    /// Starts a full-duplex transfer: clears every event flag of both
    /// streams, programs both lengths, then enables the receive stream and
    /// after it the transmit stream. The receive buffer is the engine's
    /// until the transfer is stopped. A stream of length zero would never
    /// complete, so both lengths are at least one.
    pub fn spi5_enable(&mut self, tx: &[u8], rx: Vec<u8>)
        requires
            old(self).wf(),
            !old(self).spi_enabled,
            0 < tx@.len() < 0x10000,
            0 < rx@.len() < 0x10000,
        ensures
            final(self).wf(),
            final(self).spi_enabled,
            !final(self).spi_complete,
            final(self).spi_tx@ == tx@,
            final(self).spi_rx@ == rx@,
            final(self).spi_tx_done == 0,
            final(self).spi_rx_done == 0,
            final(self).ops@ == old(self).ops@ + seq![
                DmaOp::ClearSpiRxFlags,
                DmaOp::ClearSpiTxFlags,
                DmaOp::SpiRxLength(rx@.len() as usize),
                DmaOp::SpiTxLength(tx@.len() as usize),
                DmaOp::EnableSpiRx,
                DmaOp::EnableSpiTx,
            ],
            final(self).same_wiring(*old(self)),
            final(self).uart_enabled == old(self).uart_enabled,
            final(self).uart_buf@ == old(self).uart_buf@,
            final(self).uart_ndtr == old(self).uart_ndtr,
            final(self).uart_received == old(self).uart_received,
    {
        let ghost before = self.ops@;
        self.ops.push(DmaOp::ClearSpiRxFlags);
        self.ops.push(DmaOp::ClearSpiTxFlags);
        self.spi_complete = false;
        self.ops.push(DmaOp::SpiRxLength(rx.len()));
        self.ops.push(DmaOp::SpiTxLength(tx.len()));
        self.spi_tx = vstd::slice::slice_to_vec(tx);
        self.spi_rx = rx;
        self.spi_tx_done = 0;
        self.spi_rx_done = 0;
        self.ops.push(DmaOp::EnableSpiRx);
        self.ops.push(DmaOp::EnableSpiTx);
        self.spi_enabled = true;
        assert(self.ops@ =~= before + seq![
            DmaOp::ClearSpiRxFlags,
            DmaOp::ClearSpiTxFlags,
            DmaOp::SpiRxLength(self.spi_rx@.len() as usize),
            DmaOp::SpiTxLength(self.spi_tx@.len() as usize),
            DmaOp::EnableSpiRx,
            DmaOp::EnableSpiTx,
        ]);
    }

    /// Whether the duplex transfer has yet to complete: the receive side
    /// has bytes still to come.
    pub fn spi5_busy(&self) -> (b: bool)
        ensures
            b == !self.spi_complete,
    {
        !self.spi_complete
    }

    /// The peripheral clocks one byte: it stores `incoming` in the receive
    /// buffer and sends the next byte of the transmit buffer, if one is left.
    pub fn spi5_clock_byte(&mut self, incoming: u8) -> (outgoing: Option<u8>)
        requires
            old(self).wf(),
            old(self).spi_enabled,
            !old(self).spi_complete,
        ensures
            final(self).wf(),
            old(self).spi_tx_done < old(self).spi_tx@.len() ==> outgoing == Some(
                old(self).spi_tx@[old(self).spi_tx_done as int],
            ) && final(self).spi_tx_done == old(self).spi_tx_done + 1,
            old(self).spi_tx_done == old(self).spi_tx@.len() ==> outgoing.is_none()
                && final(self).spi_tx_done == old(self).spi_tx_done,
            final(self).spi_rx@ == old(self).spi_rx@.update(old(self).spi_rx_done as int, incoming),
            final(self).spi_rx_done == old(self).spi_rx_done + 1,
            final(self).spi_tx@ == old(self).spi_tx@,
            final(self).spi_enabled,
            final(self).ops@ == old(self).ops@,
            final(self).same_wiring(*old(self)),
            final(self).uart_enabled == old(self).uart_enabled,
            final(self).uart_buf@ == old(self).uart_buf@,
            final(self).uart_ndtr == old(self).uart_ndtr,
            final(self).uart_received == old(self).uart_received,
    {
        let i = self.spi_rx_done;
        let len = self.spi_rx.len();
        self.spi_rx[i] = incoming;
        self.spi_rx_done = i + 1;
        self.spi_complete = i + 1 == len;
        let t = self.spi_tx_done;
        if t < self.spi_tx.len() {
            self.spi_tx_done = t + 1;
            Some(self.spi_tx[t])
        } else {
            None
        }
    }

    /// Force-disables both duplex streams, receive first, and hands the
    /// receive buffer back; only the bytes counted as received are defined.
    pub fn spi5_disable(&mut self) -> (rx: Vec<u8>)
        requires
            old(self).wf(),
        ensures
            final(self).wf(),
            !final(self).spi_enabled,
            rx@ == old(self).spi_rx@,
            final(self).spi_rx@.len() == 0,
            final(self).ops@ == old(self).ops@ + seq![DmaOp::DisableSpiRx, DmaOp::DisableSpiTx],
            final(self).same_wiring(*old(self)),
            final(self).uart_enabled == old(self).uart_enabled,
            final(self).uart_buf@ == old(self).uart_buf@,
            final(self).uart_ndtr == old(self).uart_ndtr,
            final(self).uart_received == old(self).uart_received,
    {
        let ghost before = self.ops@;
        self.ops.push(DmaOp::DisableSpiRx);
        self.ops.push(DmaOp::DisableSpiTx);
        assert(self.ops@ =~= before + seq![DmaOp::DisableSpiRx, DmaOp::DisableSpiTx]);
        self.spi_enabled = false;
        self.spi_tx = Vec::new();
        self.spi_tx_done = 0;
        self.spi_rx_done = 0;
        self.spi_complete = true;
        let mut rx: Vec<u8> = Vec::new();
        core::mem::swap(&mut rx, &mut self.spi_rx);
        rx
    }

    /// A whole duplex transfer of `tx`, with the attached device clocking
    /// back `device` byte for byte: returns exactly the bytes received.
    pub fn spi5_exchange(&mut self, tx: &[u8], device: &[u8]) -> (rx: Vec<u8>)
        requires
            old(self).wf(),
            !old(self).spi_enabled,
            tx@.len() < 0x10000,
            device@.len() >= tx@.len(),
        ensures
            final(self).wf(),
            !final(self).spi_enabled,
            rx@ == device@.subrange(0, tx@.len() as int),
            final(self).same_wiring(*old(self)),
            final(self).uart_enabled == old(self).uart_enabled,
            final(self).uart_buf@ == old(self).uart_buf@,
            final(self).uart_ndtr == old(self).uart_ndtr,
            final(self).uart_received == old(self).uart_received,
    {
        let n = tx.len();
        if n == 0 {
            return Vec::new();
        }
        let mut rx: Vec<u8> = Vec::new();
        let mut i: usize = 0;
        while i < n
            invariant
                i <= n,
                n == tx@.len(),
                rx@.len() == i,
            decreases n - i,
        {
            rx.push(0);
            i = i + 1;
        }
        self.spi5_enable(tx, rx);
        while self.spi5_busy()
            invariant
                self.wf(),
                self.spi_enabled,
                self.spi_rx@.len() == n,
                n == tx@.len(),
                device@.len() >= n,
                forall|j: int| 0 <= j < self.spi_rx_done ==> self.spi_rx@[j] == device@[j],
                self.same_wiring(*old(self)),
                self.uart_enabled == old(self).uart_enabled,
                self.uart_buf@ == old(self).uart_buf@,
                self.uart_ndtr == old(self).uart_ndtr,
                self.uart_received == old(self).uart_received,
            decreases n - self.spi_rx_done,
        {
            let b = device[self.spi_rx_done];
            self.spi5_clock_byte(b);
        }
        let rx = self.spi5_disable();
        assert(rx@ =~= device@.subrange(0, n as int));
        rx
    }

    /// Starts circular reception into `rx`: clears the stream's flags,
    /// programs the length, then enables the stream, which restarts at the
    /// buffer start after the last byte without the CPU.
    pub fn uart5_start(&mut self, rx: Vec<u8>)
        requires
            old(self).wf(),
            0 < rx@.len() < 0x10000,
        ensures
            final(self).wf(),
            final(self).uart_enabled,
            final(self).uart_buf@ == rx@,
            final(self).uart_ndtr == rx@.len(),
            final(self).uart_received@ == 0,
            final(self).ops@ == old(self).ops@ + seq![
                DmaOp::ClearUartFlags,
                DmaOp::UartLength(rx@.len() as usize),
                DmaOp::EnableUart,
            ],
            final(self).same_wiring(*old(self)),
            final(self).spi_enabled == old(self).spi_enabled,
            final(self).spi_complete == old(self).spi_complete,
            final(self).spi_tx@ == old(self).spi_tx@,
            final(self).spi_rx@ == old(self).spi_rx@,
            final(self).spi_tx_done == old(self).spi_tx_done,
            final(self).spi_rx_done == old(self).spi_rx_done,
    {
        proof {
            let l = rx@.len();
            assert(0nat % l == 0) by (nonlinear_arith)
                requires
                    l > 0,
            ;
        }
        let ghost before = self.ops@;
        self.ops.push(DmaOp::ClearUartFlags);
        self.ops.push(DmaOp::UartLength(rx.len()));
        self.ops.push(DmaOp::EnableUart);
        assert(self.ops@ =~= before + seq![
            DmaOp::ClearUartFlags,
            DmaOp::UartLength(rx@.len() as usize),
            DmaOp::EnableUart,
        ]);
        self.uart_ndtr = rx.len();
        self.uart_buf = rx;
        self.uart_received = Ghost(0);
        self.uart_enabled = true;
    }

    /// One byte arrives on the trace input: it is stored at the write
    /// position, and the count left in the pass drops, reloading to the
    /// buffer length after the last byte.
    pub fn uart5_receive_byte(&mut self, b: u8)
        requires
            old(self).wf(),
            old(self).uart_enabled,
        ensures
            final(self).wf(),
            final(self).uart_enabled,
            final(self).uart_buf@ == old(self).uart_buf@.update(
                old(self).uart_len() - old(self).uart_ndtr,
                b,
            ),
            final(self).uart_received@ == old(self).uart_received@ + 1,
            final(self).uart_ndtr == if old(self).uart_ndtr == 1 {
                old(self).uart_len()
            } else {
                (old(self).uart_ndtr - 1) as nat
            },
            final(self).ops@ == old(self).ops@,
            final(self).same_wiring(*old(self)),
            final(self).spi_enabled == old(self).spi_enabled,
            final(self).spi_complete == old(self).spi_complete,
            final(self).spi_tx@ == old(self).spi_tx@,
            final(self).spi_rx@ == old(self).spi_rx@,
            final(self).spi_tx_done == old(self).spi_tx_done,
            final(self).spi_rx_done == old(self).spi_rx_done,
    {
        let len = self.uart_buf.len();
        let pos = len - self.uart_ndtr;
        self.uart_buf[pos] = b;
        proof {
            let k = self.uart_received@;
            let l = len as nat;
            assert(k % l < l) by (nonlinear_arith)
                requires
                    l > 0,
            ;
            lemma_mod_step(k, l);
        }
        self.uart_received = Ghost(self.uart_received@ + 1);
        if self.uart_ndtr == 1 {
            self.uart_ndtr = len;
        } else {
            self.uart_ndtr = self.uart_ndtr - 1;
        }
    }

    /// Bytes left in the current pass: after `k` bytes since the start it is
    /// the buffer length less `k` modulo the length.
    pub fn uart5_ndtr(&self) -> (r: usize)
        requires
            self.wf(),
            self.uart_enabled,
        ensures
            r == self.uart_len() - self.uart_received@ % self.uart_len(),
            0 < r <= self.uart_len(),
    {
        self.uart_ndtr
    }

    /// Disables circular reception and hands the buffer back; the stream
    /// keeps its wiring, so reception can be started again.
    pub fn uart5_stop(&mut self) -> (rx: Vec<u8>)
        requires
            old(self).wf(),
        ensures
            final(self).wf(),
            !final(self).uart_enabled,
            rx@ == old(self).uart_buf@,
            final(self).ops@ == old(self).ops@.push(DmaOp::DisableUart),
            final(self).same_wiring(*old(self)),
            final(self).spi_enabled == old(self).spi_enabled,
            final(self).spi_complete == old(self).spi_complete,
            final(self).spi_tx@ == old(self).spi_tx@,
            final(self).spi_rx@ == old(self).spi_rx@,
            final(self).spi_tx_done == old(self).spi_tx_done,
            final(self).spi_rx_done == old(self).spi_rx_done,
    {
        self.ops.push(DmaOp::DisableUart);
        self.uart_enabled = false;
        self.uart_ndtr = 0;
        let mut rx: Vec<u8> = Vec::new();
        core::mem::swap(&mut rx, &mut self.uart_buf);
        rx
    }
}

/// Bytes that arrived in a circular buffer of `len` bytes since the reader
/// stood at `cursor`, with `remaining` bytes left in the current pass.
pub open spec fn arrived(len: int, cursor: int, remaining: int) -> int {
    ((len - remaining) + len - cursor) % len
}

/// How many bytes a reader at `cursor` can take from the circular trace
/// buffer, given the count left in the current pass.
pub fn arrived_since(len: usize, cursor: usize, remaining: usize) -> (n: usize)
    requires
        cursor < len,
        0 < remaining <= len,
    ensures
        n == arrived(len as int, cursor as int, remaining as int),
        n < len,
{
    let write = len - remaining;
    if write >= cursor {
        proof {
            let (l, w, c) = (len as int, write as int, cursor as int);
            assert((w + l - c) % l == w - c) by (nonlinear_arith)
                requires
                    0 <= c <= w < l,
            ;
        }
        write - cursor
    } else {
        proof {
            let (l, w, c) = (len as int, write as int, cursor as int);
            assert((w + l - c) % l == w + l - c) by (nonlinear_arith)
                requires
                    0 <= w < c < l,
            ;
        }
        len - cursor + write
    }
}

/// The count of new bytes is right across wraparound: a reader whose cursor
/// stood at the write position after `k0` arrivals, reading after `k`
/// arrivals with fewer than a buffer's worth in between, finds `k - k0`.
pub proof fn lemma_arrived_counts(len: nat, k0: nat, k: nat)
    requires
        len > 0,
        k0 <= k < k0 + len,
    ensures
        arrived(len as int, (k0 % len) as int, len - k % len) == k - k0,
{
    let l = len as int;
    let a = k0 as int;
    let b = k as int;
    assert((((l - (l - b % l)) + l - a % l) % l) == b - a) by (nonlinear_arith)
        requires
            l > 0,
            a <= b < a + l,
    ;
}

proof fn lemma_mod_step(k: nat, l: nat)
    requires
        l > 0,
    ensures
        (k + 1) % l == if k % l == l - 1 { 0 } else { k % l + 1 },
{
    assert((k + 1) % l == if k % l == l - 1 { 0 } else { k % l + 1 }) by (nonlinear_arith)
        requires
            l > 0,
    ;
}

} // verus!
