//! Mode and request dispatcher.
//!
//! The dispatcher owns the operating mode and a model of the board: which
//! role the debug lines are configured for, whether the serial peripheral
//! is enabled and for which role, which host-facing interface is active, and
//! the levels of the control lines. Each request turns into an ordered list
//! of hardware actions; the caller performs them in order. The model after a
//! request is the model before it with those actions applied.

use vstd::prelude::*;

pub use crate::gpio::PinState;
use crate::gpio::{
    field2, field4, GPIO, MODE_ALTERNATE, MODE_INPUT, MODE_OUTPUT, OSPEED_VERYHIGH,
};

verus! {

/// Operating mode of the probe.
#[derive(PartialEq, Eq, Structural, Clone, Copy, Debug)]
pub enum Mode {
    HighImpedance,
    Flash,
    FPGA,
}

/// The wire value of each mode, and the mode of each wire value.
pub open spec fn mode_of(v: u16) -> Option<Mode> {
    if v == 0 {
        Some(Mode::HighImpedance)
    } else if v == 1 {
        Some(Mode::Flash)
    } else if v == 2 {
        Some(Mode::FPGA)
    } else {
        None
    }
}

pub open spec fn pin_state_of(v: u16) -> Option<PinState> {
    if v == 0 {
        Some(PinState::Low)
    } else if v == 1 {
        Some(PinState::High)
    } else {
        None
    }
}

impl Mode {
    /// Decodes a wire value; anything out of range is refused, never taken
    /// for a valid mode.
    pub fn from_u16(v: u16) -> (m: Option<Mode>)
        ensures
            m == mode_of(v),
    {
        match v {
            0 => Some(Mode::HighImpedance),
            1 => Some(Mode::Flash),
            2 => Some(Mode::FPGA),
            _ => None,
        }
    }
}

impl PinState {
    /// Decodes a wire value; anything out of range is refused.
    pub fn from_u16(v: u16) -> (s: Option<PinState>)
        ensures
            s == pin_state_of(v),
    {
        match v {
            0 => Some(PinState::Low),
            1 => Some(PinState::High),
            _ => None,
        }
    }
}

/// Largest payload of a bulk-transfer or debug-command request.
pub const REPORT_SIZE: usize = 64;

/// A request from the host, decoded.
#[derive(Clone, Copy)]
pub enum Request {
    SetCS(PinState),
    SetFPGA(PinState),
    SetTPwr(PinState),
    SetLED(PinState),
    SetMode(Mode),
    GetTPwr,
    Bootload,
    Suspend,
    SPITransmit(([u8; 64], usize)),
    DAP1Command(([u8; 64], usize)),
    DAP2Command(([u8; 64], usize)),
}

/// Vendor control request codes.
pub const VENDOR_SET_CS: u8 = 1;
pub const VENDOR_SET_FPGA: u8 = 2;
pub const VENDOR_SET_MODE: u8 = 3;
pub const VENDOR_SET_TPWR: u8 = 4;
pub const VENDOR_GET_TPWR: u8 = 5;
pub const VENDOR_SET_LED: u8 = 6;
pub const VENDOR_BOOTLOAD: u8 = 7;

/// The request that a vendor control request with code `code` and value
/// `value` stands for, if any.
pub open spec fn vendor_request(code: u8, value: u16) -> Option<Request> {
    if code == VENDOR_SET_CS {
        match pin_state_of(value) {
            Some(s) => Some(Request::SetCS(s)),
            None => None,
        }
    } else if code == VENDOR_SET_FPGA {
        match pin_state_of(value) {
            Some(s) => Some(Request::SetFPGA(s)),
            None => None,
        }
    } else if code == VENDOR_SET_MODE {
        match mode_of(value) {
            Some(m) => Some(Request::SetMode(m)),
            None => None,
        }
    } else if code == VENDOR_SET_TPWR {
        match pin_state_of(value) {
            Some(s) => Some(Request::SetTPwr(s)),
            None => None,
        }
    } else if code == VENDOR_GET_TPWR {
        Some(Request::GetTPwr)
    } else if code == VENDOR_SET_LED {
        match pin_state_of(value) {
            Some(s) => Some(Request::SetLED(s)),
            None => None,
        }
    } else if code == VENDOR_BOOTLOAD {
        Some(Request::Bootload)
    } else {
        None
    }
}

impl Request {
    /// Decodes a vendor control request. An unknown code, or a level or mode
    /// value out of range, gives no request at all.
    pub fn from_vendor(code: u8, value: u16) -> (r: Option<Request>)
        ensures
            r == vendor_request(code, value),
    {
        if code == VENDOR_SET_CS {
            match PinState::from_u16(value) {
                Some(s) => Some(Request::SetCS(s)),
                None => None,
            }
        } else if code == VENDOR_SET_FPGA {
            match PinState::from_u16(value) {
                Some(s) => Some(Request::SetFPGA(s)),
                None => None,
            }
        } else if code == VENDOR_SET_MODE {
            match Mode::from_u16(value) {
                Some(m) => Some(Request::SetMode(m)),
                None => None,
            }
        } else if code == VENDOR_SET_TPWR {
            match PinState::from_u16(value) {
                Some(s) => Some(Request::SetTPwr(s)),
                None => None,
            }
        } else if code == VENDOR_GET_TPWR {
            Some(Request::GetTPwr)
        } else if code == VENDOR_SET_LED {
            match PinState::from_u16(value) {
                Some(s) => Some(Request::SetLED(s)),
                None => None,
            }
        } else if code == VENDOR_BOOTLOAD {
            Some(Request::Bootload)
        } else {
            None
        }
    }
}

/// What the debug and serial lines are configured for.
#[derive(PartialEq, Eq, Structural, Clone, Copy, Debug)]
pub enum PinRole {
    /// All released to inputs.
    Released,
    /// Claimed by the serial peripheral, routed to the flash chip.
    Flash,
    /// Claimed by the serial peripheral, routed to the FPGA.
    Fpga,
}

/// Alternate function that routes a line to the serial peripheral.
pub const SPI_AF: u32 = 5;

/// `new` differs from `old` at most in the mode, speed and alternate
/// function fields of pin `n`.
pub open spec fn only_pin_changed(old: GPIO, new: GPIO, n: u32) -> bool {
    &&& new.otyper == old.otyper
    &&& new.pupdr == old.pupdr
    &&& new.odr == old.odr
    &&& new.idr == old.idr
    &&& forall|k: u32| k < 16 && k != n ==> #[trigger] field2(new.moder, k) == field2(old.moder, k)
    &&& forall|k: u32| k < 16 && k != n ==> #[trigger] field2(new.ospeedr, k) == field2(
        old.ospeedr,
        k,
    )
    &&& forall|k: u32|
        k < 8 && (n >= 8 || k != n) ==> #[trigger] field4(new.afrl, k) == field4(old.afrl, k)
    &&& forall|k: u32|
        k < 8 && (n < 8 || k != n - 8) ==> #[trigger] field4(new.afrh, k) == field4(old.afrh, k)
}

/// The alternate function field of pin `n`.
pub open spec fn af_of(g: GPIO, n: u32) -> u32 {
    if n < 8 {
        field4(g.afrl, n)
    } else {
        field4(g.afrh, (n - 8) as u32)
    }
}

/// Gives serial line `n` of `port` to a role: an input when released; the
/// serial peripheral's alternate function at full speed when claimed. The
/// flash and FPGA roles use the same line setup.
pub fn configure_serial_line(role: PinRole, port: &mut GPIO, n: u8)
    requires
        n < 16,
    ensures
        only_pin_changed(*old(port), *final(port), n as u32),
        role == PinRole::Released ==> field2(final(port).moder, n as u32) == MODE_INPUT
            && final(port).ospeedr == old(port).ospeedr && final(port).afrl == old(port).afrl
            && final(port).afrh == old(port).afrh,
        role != PinRole::Released ==> {
            &&& field2(final(port).moder, n as u32) == MODE_ALTERNATE
            &&& field2(final(port).ospeedr, n as u32) == OSPEED_VERYHIGH
            &&& af_of(*final(port), n as u32) == SPI_AF
        },
{
    proof {
        crate::gpio::lemma_field_values();
        assert(5u32 & 15 == 5) by (bit_vector);
    }
    match role {
        PinRole::Released => port.set_mode_input(n),
        _ => {
            port.set_af(n, SPI_AF);
            port.set_ospeed_veryhigh(n);
            port.set_mode_alternate(n);
        },
    }
}

/// Gives the chip select line `n` of `port` to a role: an input when
/// released; when claimed, driven high (deselected) before it becomes an
/// output.
pub fn configure_chip_select(role: PinRole, port: &mut GPIO, n: u8)
    requires
        n < 16,
    ensures
        role == PinRole::Released ==> *final(port) == old(port).with_moder(final(port).moder)
            && field2(final(port).moder, n as u32) == MODE_INPUT
            && forall|k: u32| k < 16 && k != n ==> #[trigger] field2(final(port).moder, k)
                == field2(old(port).moder, k),
        role != PinRole::Released ==> {
            &&& final(port).odr == old(port).odr | (1u32 << n)
            &&& field2(final(port).moder, n as u32) == MODE_OUTPUT
            &&& forall|k: u32| k < 16 && k != n ==> #[trigger] field2(final(port).moder, k)
                == field2(old(port).moder, k)
            &&& *final(port) == old(port).with_odr(final(port).odr).with_moder(final(port).moder)
        },
{
    proof {
        crate::gpio::lemma_field_values();
    }
    match role {
        PinRole::Released => port.set_mode_input(n),
        _ => {
            port.set_high(n);
            port.set_mode_output(n);
        },
    }
}

/// A control line that a request can set.
#[derive(PartialEq, Eq, Structural, Clone, Copy, Debug)]
pub enum Line {
    Cs,
    FpgaReset,
    TargetPower,
    Led,
}

/// One hardware operation, performed by the caller in list order.
#[derive(PartialEq, Eq, Structural, Clone, Copy, Debug)]
pub enum Action {
    SetLine(Line, PinState),
    /// Reconfigure the lines for a role.
    ConfigurePins(PinRole),
    /// Enable the serial peripheral for the role the lines now have.
    SpiEnable,
    SpiDisable,
    /// Switch the host side between bulk-transfer passthrough (true) and
    /// debug-command reporting (false).
    HostPassthrough(bool),
    /// Exchange the first `n` bytes of the request's buffer over the serial
    /// peripheral and reply with exactly the `n` bytes received.
    SpiExchange(usize),
    /// Reply with the sampled level of the target power detect line.
    ReplyTargetPower,
    /// Forward the first `n` bytes of the report to the debug command
    /// interpreter and relay its response, if any, on interface 1 or 2.
    ForwardDap1(usize),
    ForwardDap2(usize),
    /// Hand over to the system bootloader.
    Bootload,
    /// Acknowledge the host interrupt.
    UnpendUsb,
    /// Send one batch of streamed trace bytes.
    StreamSwo,
    /// Sleep until the next hardware event.
    WaitForEvent,
}

/// The board as the dispatcher has configured it.
#[derive(PartialEq, Eq, Structural, Clone, Copy, Debug)]
pub struct Board {
    pub pins: PinRole,
    /// The role the serial peripheral is enabled for, if it is enabled.
    pub spi: Option<PinRole>,
    /// Bulk-transfer passthrough active on the host side; debug-command
    /// reporting is active otherwise.
    pub passthrough: bool,
    pub cs: PinState,
    pub fpga_rst: PinState,
    pub tpwr_en: PinState,
    pub led: PinState,
}

/// No line is driven by two roles: an enabled peripheral's role is the
/// role the lines are configured for.
pub open spec fn consistent(b: Board) -> bool {
    match b.spi {
        Some(r) => r == b.pins && r != PinRole::Released,
        None => true,
    }
}

/// The board after one action.
pub open spec fn step(b: Board, a: Action) -> Board {
    match a {
        Action::SetLine(Line::Cs, s) => Board { cs: s, ..b },
        Action::SetLine(Line::FpgaReset, s) => Board { fpga_rst: s, ..b },
        Action::SetLine(Line::TargetPower, s) => Board { tpwr_en: s, ..b },
        Action::SetLine(Line::Led, s) => Board { led: s, ..b },
        Action::ConfigurePins(r) => Board { pins: r, ..b },
        Action::SpiEnable => Board { spi: Some(b.pins), ..b },
        Action::SpiDisable => Board { spi: None, ..b },
        Action::HostPassthrough(on) => Board { passthrough: on, ..b },
        _ => b,
    }
}

/// The board after a list of actions, in order.
pub open spec fn run(b: Board, acts: Seq<Action>) -> Board
    decreases acts.len(),
{
    if acts.len() == 0 {
        b
    } else {
        step(run(b, acts.drop_last()), acts.last())
    }
}

/// The line role each mode uses.
pub open spec fn role_of(m: Mode) -> PinRole {
    match m {
        Mode::HighImpedance => PinRole::Released,
        Mode::Flash => PinRole::Flash,
        Mode::FPGA => PinRole::Fpga,
    }
}

/// The actions that switch a board to mode `m`: a running peripheral is
/// disabled first, then the lines take the new role, then the host side is
/// switched, and last the peripheral is enabled in the new role.
pub open spec fn transition(b: Board, m: Mode) -> Seq<Action> {
    let stop = if b.spi.is_some() {
        seq![Action::SpiDisable]
    } else {
        seq![]
    };
    stop + match m {
        Mode::HighImpedance => seq![
            Action::ConfigurePins(PinRole::Released),
            Action::HostPassthrough(false),
        ],
        _ => seq![
            Action::ConfigurePins(role_of(m)),
            Action::HostPassthrough(true),
            Action::SpiEnable,
        ],
    }
}

/// Whether `a` reconfigures the lines.
pub open spec fn is_pin_change(a: Action) -> bool {
    a matches Action::ConfigurePins(_)
}

/// The actions that suspend the board: lines released, with the peripheral
/// stopped first, then the LED and target power switched off.
pub open spec fn suspension(b: Board) -> Seq<Action> {
    let stop = if b.spi.is_some() {
        seq![Action::SpiDisable]
    } else {
        seq![]
    };
    stop + seq![
        Action::ConfigurePins(PinRole::Released),
        Action::SetLine(Line::Led, PinState::Low),
        Action::SetLine(Line::TargetPower, PinState::Low),
    ]
}

/// The actions for a request, on board `b`.
pub open spec fn request_actions(b: Board, req: Request) -> Seq<Action> {
    match req {
        Request::SetCS(s) => seq![Action::SetLine(Line::Cs, s)],
        Request::SetFPGA(s) => seq![Action::SetLine(Line::FpgaReset, s)],
        Request::SetTPwr(s) => seq![Action::SetLine(Line::TargetPower, s)],
        Request::SetLED(s) => seq![Action::SetLine(Line::Led, s)],
        Request::SetMode(m) => transition(b, m),
        Request::GetTPwr => seq![Action::ReplyTargetPower],
        Request::Bootload => seq![Action::Bootload],
        Request::Suspend => suspension(b),
        Request::SPITransmit((_, n)) => seq![Action::SpiExchange(n)],
        Request::DAP1Command((_, n)) => seq![Action::ForwardDap1(n)],
        Request::DAP2Command((_, n)) => seq![Action::ForwardDap2(n)],
    }
}

/// The payload length a request carries is within its buffer.
pub open spec fn request_ok(req: Request) -> bool {
    match req {
        Request::SPITransmit((_, n)) => n <= REPORT_SIZE,
        Request::DAP1Command((_, n)) => n <= REPORT_SIZE,
        Request::DAP2Command((_, n)) => n <= REPORT_SIZE,
        _ => true,
    }
}

/// The dispatcher.
pub struct App {
    mode: Mode,
    board: Board,
}

impl App {
    pub closed spec fn mode_spec(&self) -> Mode {
        self.mode
    }

    pub closed spec fn board_spec(&self) -> Board {
        self.board
    }

    pub open spec fn wf(&self) -> bool {
        consistent(self.board_spec())
    }

    /// The dispatcher once the hardware is set up: high impedance, lines
    /// released, peripheral off, debug reporting active, control lines low.
    pub fn new() -> (a: App)
        ensures
            a.wf(),
            a.mode_spec() == Mode::HighImpedance,
            a.board_spec() == (Board {
                pins: PinRole::Released,
                spi: None,
                passthrough: false,
                cs: PinState::Low,
                fpga_rst: PinState::Low,
                tpwr_en: PinState::Low,
                led: PinState::Low,
            }),
    {
        App {
            mode: Mode::HighImpedance,
            board: Board {
                pins: PinRole::Released,
                spi: None,
                passthrough: false,
                cs: PinState::Low,
                fpga_rst: PinState::Low,
                tpwr_en: PinState::Low,
                led: PinState::Low,
            },
        }
    }

    /// The recorded operating mode.
    pub fn mode(&self) -> (m: Mode)
        ensures
            m == self.mode_spec(),
    {
        self.mode
    }

    /// The board as configured.
    pub fn board(&self) -> (b: Board)
        ensures
            b == self.board_spec(),
    {
        self.board
    }

    /// Records action `a` after those in `acts` and applies it to the board.
    fn perform(&mut self, acts: &mut Vec<Action>, a: Action, Ghost(b0): Ghost<Board>)
        requires
            old(self).board_spec() == run(b0, old(acts)@),
        ensures
            final(acts)@ == old(acts)@.push(a),
            final(self).board_spec() == run(b0, final(acts)@),
            final(self).board_spec() == step(old(self).board_spec(), a),
            final(self).mode_spec() == old(self).mode_spec(),
    {
        let ghost before = acts@;
        acts.push(a);
        proof {
            assert(acts@.drop_last() =~= before);
        }
        let b = self.board;
        self.board = match a {
            Action::SetLine(Line::Cs, s) => Board { cs: s, ..b },
            Action::SetLine(Line::FpgaReset, s) => Board { fpga_rst: s, ..b },
            Action::SetLine(Line::TargetPower, s) => Board { tpwr_en: s, ..b },
            Action::SetLine(Line::Led, s) => Board { led: s, ..b },
            Action::ConfigurePins(r) => Board { pins: r, ..b },
            Action::SpiEnable => Board { spi: Some(b.pins), ..b },
            Action::SpiDisable => Board { spi: None, ..b },
            Action::HostPassthrough(on) => Board { passthrough: on, ..b },
            _ => b,
        };
    }

    /// Stops the serial peripheral if it runs.
    fn stop_spi(&mut self, acts: &mut Vec<Action>, Ghost(b0): Ghost<Board>)
        requires
            old(self).board_spec() == run(b0, old(acts)@),
        ensures
            final(acts)@ == old(acts)@ + if old(self).board_spec().spi.is_some() {
                seq![Action::SpiDisable]
            } else {
                seq![]
            },
            final(self).board_spec() == run(b0, final(acts)@),
            final(self).mode_spec() == old(self).mode_spec(),
    {
        if self.board.spi.is_some() {
            self.perform(acts, Action::SpiDisable, Ghost(b0));
            assert(acts@ =~= old(acts)@ + seq![Action::SpiDisable]);
        } else {
            assert(acts@ =~= old(acts)@ + seq![]);
        }
    }

    /// Handles one request to completion and returns the hardware actions it
    /// takes, in order. Only a mode-set request changes the recorded mode;
    /// suspension releases the lines and leaves the recorded mode alone.
    pub fn process_request(&mut self, req: Request) -> (acts: Vec<Action>)
        requires
            old(self).wf(),
            request_ok(req),
        ensures
            final(self).wf(),
            acts@ == request_actions(old(self).board_spec(), req),
            final(self).board_spec() == run(old(self).board_spec(), acts@),
            final(self).mode_spec() == match req {
                Request::SetMode(m) => m,
                _ => old(self).mode_spec(),
            },
    {
        let ghost b0 = self.board;
        let mut acts: Vec<Action> = Vec::new();
        assert(run(b0, acts@) == b0);
        match req {
            Request::SetCS(s) => self.perform(&mut acts, Action::SetLine(Line::Cs, s), Ghost(b0)),
            Request::SetFPGA(s) => self.perform(
                &mut acts,
                Action::SetLine(Line::FpgaReset, s),
                Ghost(b0),
            ),
            Request::SetTPwr(s) => self.perform(
                &mut acts,
                Action::SetLine(Line::TargetPower, s),
                Ghost(b0),
            ),
            Request::SetLED(s) => self.perform(&mut acts, Action::SetLine(Line::Led, s), Ghost(b0)),
            Request::SetMode(mode) => {
                self.stop_spi(&mut acts, Ghost(b0));
                let ghost stopped = acts@;
                match mode {
                    Mode::HighImpedance => {
                        self.perform(&mut acts, Action::ConfigurePins(PinRole::Released), Ghost(b0));
                        self.perform(&mut acts, Action::HostPassthrough(false), Ghost(b0));
                        assert(acts@ =~= stopped + seq![
                            Action::ConfigurePins(PinRole::Released),
                            Action::HostPassthrough(false),
                        ]);
                    },
                    Mode::Flash => {
                        self.perform(&mut acts, Action::ConfigurePins(PinRole::Flash), Ghost(b0));
                        self.perform(&mut acts, Action::HostPassthrough(true), Ghost(b0));
                        self.perform(&mut acts, Action::SpiEnable, Ghost(b0));
                        assert(acts@ =~= stopped + seq![
                            Action::ConfigurePins(PinRole::Flash),
                            Action::HostPassthrough(true),
                            Action::SpiEnable,
                        ]);
                    },
                    Mode::FPGA => {
                        self.perform(&mut acts, Action::ConfigurePins(PinRole::Fpga), Ghost(b0));
                        self.perform(&mut acts, Action::HostPassthrough(true), Ghost(b0));
                        self.perform(&mut acts, Action::SpiEnable, Ghost(b0));
                        assert(acts@ =~= stopped + seq![
                            Action::ConfigurePins(PinRole::Fpga),
                            Action::HostPassthrough(true),
                            Action::SpiEnable,
                        ]);
                    },
                }
                self.mode = mode;
            },
            Request::GetTPwr => self.perform(&mut acts, Action::ReplyTargetPower, Ghost(b0)),
            Request::Bootload => self.perform(&mut acts, Action::Bootload, Ghost(b0)),
            Request::Suspend => {
                self.stop_spi(&mut acts, Ghost(b0));
                let ghost stopped = acts@;
                self.perform(&mut acts, Action::ConfigurePins(PinRole::Released), Ghost(b0));
                self.perform(&mut acts, Action::SetLine(Line::Led, PinState::Low), Ghost(b0));
                self.perform(
                    &mut acts,
                    Action::SetLine(Line::TargetPower, PinState::Low),
                    Ghost(b0),
                );
                assert(acts@ =~= stopped + seq![
                    Action::ConfigurePins(PinRole::Released),
                    Action::SetLine(Line::Led, PinState::Low),
                    Action::SetLine(Line::TargetPower, PinState::Low),
                ]);
            },
            Request::SPITransmit((_, n)) => self.perform(&mut acts, Action::SpiExchange(n), Ghost(b0)),
            Request::DAP1Command((_, n)) => self.perform(&mut acts, Action::ForwardDap1(n), Ghost(b0)),
            Request::DAP2Command((_, n)) => self.perform(&mut acts, Action::ForwardDap2(n), Ghost(b0)),
        }
        proof {
            lemma_request_keeps_consistent(b0, req);
        }
        acts
    }

    /// Handles a vendor control request. One that does not decode (an
    /// unknown code, a mode or level out of range) is dropped: no actions,
    /// no reply, nothing changed.
    pub fn process_vendor(&mut self, code: u8, value: u16) -> (acts: Option<Vec<Action>>)
        requires
            old(self).wf(),
        ensures
            final(self).wf(),
            vendor_request(code, value) is None ==> acts is None && final(self).mode_spec()
                == old(self).mode_spec() && final(self).board_spec() == old(self).board_spec(),
            vendor_request(code, value) matches Some(req) ==> {
                &&& acts matches Some(v) && v@ == request_actions(old(self).board_spec(), req)
                &&& final(self).board_spec() == run(
                    old(self).board_spec(),
                    request_actions(old(self).board_spec(), req),
                )
                &&& final(self).mode_spec() == match req {
                    Request::SetMode(m) => m,
                    _ => old(self).mode_spec(),
                }
            },
    {
        match Request::from_vendor(code, value) {
            Some(req) => Some(self.process_request(req)),
            None => None,
        }
    }

    /// One pass of the main loop. A pending host interrupt is served first:
    /// the request it delivered, if any, is handled to completion and the
    /// interrupt acknowledged. Only otherwise is one batch of streamed trace
    /// data sent, when streaming is on and the output is free; failing both,
    /// the loop sleeps until the next event. `request` is looked at only
    /// while an interrupt is pending.
    pub fn poll(
        &mut self,
        usb_pending: bool,
        request: Option<Request>,
        swo_streaming: bool,
        swo_busy: bool,
    ) -> (acts: Vec<Action>)
        requires
            old(self).wf(),
            request matches Some(r) ==> request_ok(r),
        ensures
            final(self).wf(),
            final(self).board_spec() == run(old(self).board_spec(), acts@),
            usb_pending ==> acts@ == match request {
                Some(r) => request_actions(old(self).board_spec(), r),
                None => seq![],
            } + seq![Action::UnpendUsb],
            usb_pending ==> forall|i: int| 0 <= i < acts@.len() ==> acts@[i] != Action::StreamSwo,
            !usb_pending && swo_streaming && !swo_busy ==> acts@ == seq![Action::StreamSwo],
            !usb_pending && !(swo_streaming && !swo_busy) ==> acts@ == seq![Action::WaitForEvent],
            final(self).mode_spec() == match request {
                Some(Request::SetMode(m)) if usb_pending => m,
                _ => old(self).mode_spec(),
            },
    {
        let ghost b0 = self.board;
        let mut acts: Vec<Action>;
        if usb_pending {
            acts = match request {
                Some(req) => self.process_request(req),
                None => Vec::new(),
            };
            let ghost served = acts@;
            proof {
                match request {
                    Some(r) => lemma_no_stream(b0, r),
                    None => {},
                }
            }
            self.perform(&mut acts, Action::UnpendUsb, Ghost(b0));
            assert(acts@ =~= served + seq![Action::UnpendUsb]);
        } else if swo_streaming && !swo_busy {
            acts = Vec::new();
            self.perform(&mut acts, Action::StreamSwo, Ghost(b0));
            assert(acts@ =~= seq![Action::StreamSwo]);
        } else {
            acts = Vec::new();
            self.perform(&mut acts, Action::WaitForEvent, Ghost(b0));
            assert(acts@ =~= seq![Action::WaitForEvent]);
        }
        acts
    }
}

/// No request sends streamed data.
proof fn lemma_no_stream(b: Board, req: Request)
    ensures
        forall|i: int|
            0 <= i < request_actions(b, req).len() ==> #[trigger] request_actions(b, req)[i]
                != Action::StreamSwo,
{
    match req {
        Request::SetMode(m) => {
            if b.spi.is_some() {
                match m {
                    Mode::HighImpedance => {
                        assert(transition(b, m) =~= seq![
                            Action::SpiDisable,
                            Action::ConfigurePins(PinRole::Released),
                            Action::HostPassthrough(false),
                        ]);
                    },
                    _ => {
                        assert(transition(b, m) =~= seq![
                            Action::SpiDisable,
                            Action::ConfigurePins(role_of(m)),
                            Action::HostPassthrough(true),
                            Action::SpiEnable,
                        ]);
                    },
                }
            } else {
                match m {
                    Mode::HighImpedance => {
                        assert(transition(b, m) =~= seq![
                            Action::ConfigurePins(PinRole::Released),
                            Action::HostPassthrough(false),
                        ]);
                    },
                    _ => {
                        assert(transition(b, m) =~= seq![
                            Action::ConfigurePins(role_of(m)),
                            Action::HostPassthrough(true),
                            Action::SpiEnable,
                        ]);
                    },
                }
            }
        },
        Request::Suspend => {
            if b.spi.is_some() {
                assert(suspension(b) =~= seq![
                    Action::SpiDisable,
                    Action::ConfigurePins(PinRole::Released),
                    Action::SetLine(Line::Led, PinState::Low),
                    Action::SetLine(Line::TargetPower, PinState::Low),
                ]);
            } else {
                assert(suspension(b) =~= seq![
                    Action::ConfigurePins(PinRole::Released),
                    Action::SetLine(Line::Led, PinState::Low),
                    Action::SetLine(Line::TargetPower, PinState::Low),
                ]);
            }
        },
        _ => {},
    }
}

/// Every request leaves a consistent board consistent.
proof fn lemma_request_keeps_consistent(b: Board, req: Request)
    requires
        consistent(b),
    ensures
        consistent(run(b, request_actions(b, req))),
{
    reveal_with_fuel(run, 5);
    match req {
        Request::SetMode(m) => {
            lemma_transition_safe(b, m);
            let acts = transition(b, m);
            assert(acts.subrange(0, acts.len() as int) =~= acts);
        },
        Request::Suspend => {
            let acts = suspension(b);
            if b.spi.is_some() {
                assert(acts =~= seq![
                    Action::SpiDisable,
                    Action::ConfigurePins(PinRole::Released),
                    Action::SetLine(Line::Led, PinState::Low),
                    Action::SetLine(Line::TargetPower, PinState::Low),
                ]);
            } else {
                assert(acts =~= seq![
                    Action::ConfigurePins(PinRole::Released),
                    Action::SetLine(Line::Led, PinState::Low),
                    Action::SetLine(Line::TargetPower, PinState::Low),
                ]);
            }
        },
        _ => {},
    }
}

/// Switching modes never drives a line from two roles: starting from a
/// consistent board, the board is consistent after every prefix of the
/// transition. The lines take their new role before the peripheral is
/// enabled, and the peripheral is disabled before the lines change role.
/// At the end exactly the target mode's line role is configured, the
/// peripheral runs in that role unless the mode is high impedance, and the
/// host side offers passthrough exactly when the peripheral runs.
pub proof fn lemma_transition_safe(b: Board, m: Mode)
    requires
        consistent(b),
    ensures
        forall|i: int|
            0 <= i <= transition(b, m).len() ==> consistent(
                #[trigger] run(b, transition(b, m).subrange(0, i)),
            ),
        forall|i: int, j: int|
            0 <= i < transition(b, m).len() && 0 <= j < transition(b, m).len() && is_pin_change(
                #[trigger] transition(b, m)[i],
            ) && #[trigger] transition(b, m)[j] == Action::SpiEnable ==> i < j,
        forall|i: int, j: int|
            0 <= i < transition(b, m).len() && 0 <= j < transition(b, m).len() && #[trigger] transition(
                b,
                m,
            )[i] == Action::SpiDisable && is_pin_change(#[trigger] transition(b, m)[j]) ==> i < j,
        run(b, transition(b, m)).pins == role_of(m),
        run(b, transition(b, m)).spi == if m == Mode::HighImpedance {
            None
        } else {
            Some(role_of(m))
        },
        run(b, transition(b, m)).passthrough == (m != Mode::HighImpedance),
{
    reveal_with_fuel(run, 5);
    let acts = transition(b, m);
    assert forall|i: int| 0 <= i <= acts.len() implies consistent(
        #[trigger] run(b, acts.subrange(0, i)),
    ) by {
        let p = acts.subrange(0, i);
        if b.spi.is_some() {
            match m {
                Mode::HighImpedance => {
                    assert(acts =~= seq![
                        Action::SpiDisable,
                        Action::ConfigurePins(PinRole::Released),
                        Action::HostPassthrough(false),
                    ]);
                },
                _ => {
                    assert(acts =~= seq![
                        Action::SpiDisable,
                        Action::ConfigurePins(role_of(m)),
                        Action::HostPassthrough(true),
                        Action::SpiEnable,
                    ]);
                },
            }
        } else {
            match m {
                Mode::HighImpedance => {
                    assert(acts =~= seq![
                        Action::ConfigurePins(PinRole::Released),
                        Action::HostPassthrough(false),
                    ]);
                },
                _ => {
                    assert(acts =~= seq![
                        Action::ConfigurePins(role_of(m)),
                        Action::HostPassthrough(true),
                        Action::SpiEnable,
                    ]);
                },
            }
        }
        if i == 0 {
            assert(p =~= seq![]);
        } else if i == 1 {
            assert(p =~= seq![acts[0]]);
        } else if i == 2 {
            assert(p =~= seq![acts[0], acts[1]]);
            assert(p.drop_last() =~= seq![acts[0]]);
        } else if i == 3 {
            assert(p =~= seq![acts[0], acts[1], acts[2]]);
            assert(p.drop_last() =~= seq![acts[0], acts[1]]);
            assert(p.drop_last().drop_last() =~= seq![acts[0]]);
        } else {
            assert(p =~= seq![acts[0], acts[1], acts[2], acts[3]]);
            assert(p.drop_last() =~= seq![acts[0], acts[1], acts[2]]);
            assert(p.drop_last().drop_last() =~= seq![acts[0], acts[1]]);
            assert(p.drop_last().drop_last().drop_last() =~= seq![acts[0]]);
        }
    }
    assert(acts.subrange(0, acts.len() as int) =~= acts);
    assert(consistent(run(b, acts.subrange(0, acts.len() as int))));
}

/// A mode switch begins by disabling the peripheral exactly when it runs:
/// the first action is the disable when it runs, and no disable is issued
/// when it is already off (as after a suspension).
pub proof fn lemma_transition_disables_first(b: Board, m: Mode)
    ensures
        b.spi.is_some() ==> transition(b, m)[0] == Action::SpiDisable,
        b.spi.is_none() ==> forall|i: int|
            0 <= i < transition(b, m).len() ==> #[trigger] transition(b, m)[i]
                != Action::SpiDisable,
{
    let acts = transition(b, m);
    if b.spi.is_some() {
        match m {
            Mode::HighImpedance => {
                assert(acts =~= seq![
                    Action::SpiDisable,
                    Action::ConfigurePins(PinRole::Released),
                    Action::HostPassthrough(false),
                ]);
            },
            _ => {
                assert(acts =~= seq![
                    Action::SpiDisable,
                    Action::ConfigurePins(role_of(m)),
                    Action::HostPassthrough(true),
                    Action::SpiEnable,
                ]);
            },
        }
    } else {
        match m {
            Mode::HighImpedance => {
                assert(acts =~= seq![
                    Action::ConfigurePins(PinRole::Released),
                    Action::HostPassthrough(false),
                ]);
            },
            _ => {
                assert(acts =~= seq![
                    Action::ConfigurePins(role_of(m)),
                    Action::HostPassthrough(true),
                    Action::SpiEnable,
                ]);
            },
        }
    }
}

} // verus!
