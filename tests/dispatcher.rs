use hs_probe::app::{
    configure_chip_select, configure_serial_line, Action, App, SPI_AF, Board, Line, Mode, PinRole, PinState, Request, VENDOR_BOOTLOAD, VENDOR_GET_TPWR,
    VENDOR_SET_CS, VENDOR_SET_LED, VENDOR_SET_MODE,
};
use hs_probe::gpio::GPIO;

fn consistent(b: &Board) -> bool {
    match b.spi {
        Some(r) => r == b.pins && r != PinRole::Released,
        None => true,
    }
}

/// Applies actions one at a time and checks the board after each.
fn replay(start: Board, acts: &[Action]) -> Board {
    let mut b = start;
    assert!(consistent(&b));
    for a in acts {
        match *a {
            Action::ConfigurePins(r) => b.pins = r,
            Action::SpiEnable => b.spi = Some(b.pins),
            Action::SpiDisable => b.spi = None,
            Action::HostPassthrough(on) => b.passthrough = on,
            Action::SetLine(Line::Cs, s) => b.cs = s,
            Action::SetLine(Line::FpgaReset, s) => b.fpga_rst = s,
            Action::SetLine(Line::TargetPower, s) => b.tpwr_en = s,
            Action::SetLine(Line::Led, s) => b.led = s,
            _ => {}
        }
        assert!(consistent(&b));
    }
    b
}

fn role(m: Mode) -> PinRole {
    match m {
        Mode::HighImpedance => PinRole::Released,
        Mode::Flash => PinRole::Flash,
        Mode::FPGA => PinRole::Fpga,
    }
}

#[test]
fn every_mode_pair_ends_in_one_role() {
    let modes = [Mode::HighImpedance, Mode::Flash, Mode::FPGA];
    for &a in &modes {
        for &b in &modes {
            if a == b {
                continue;
            }
            let mut app = App::new();
            app.process_request(Request::SetMode(a));
            let before = app.board();
            let acts = app.process_request(Request::SetMode(b));
            let after = replay(before, &acts);
            assert_eq!(after, app.board());
            assert_eq!(app.mode(), b);
            assert_eq!(after.pins, role(b));
            let runs = b != Mode::HighImpedance;
            assert_eq!(after.spi, if runs { Some(role(b)) } else { None });
            assert_eq!(after.passthrough, runs);
        }
    }
}

#[test]
fn pins_switch_before_enable_and_after_disable() {
    let mut app = App::new();
    let acts = app.process_request(Request::SetMode(Mode::Flash));
    assert_eq!(
        acts,
        vec![
            Action::ConfigurePins(PinRole::Flash),
            Action::HostPassthrough(true),
            Action::SpiEnable
        ]
    );
    let acts = app.process_request(Request::SetMode(Mode::FPGA));
    assert_eq!(
        acts,
        vec![
            Action::SpiDisable,
            Action::ConfigurePins(PinRole::Fpga),
            Action::HostPassthrough(true),
            Action::SpiEnable
        ]
    );
    let acts = app.process_request(Request::SetMode(Mode::HighImpedance));
    assert_eq!(
        acts,
        vec![
            Action::SpiDisable,
            Action::ConfigurePins(PinRole::Released),
            Action::HostPassthrough(false)
        ]
    );
}

#[test]
fn line_requests_set_one_line() {
    let mut app = App::new();
    assert_eq!(
        app.process_request(Request::SetLED(PinState::High)),
        vec![Action::SetLine(Line::Led, PinState::High)]
    );
    assert_eq!(app.board().led, PinState::High);
    app.process_request(Request::SetCS(PinState::High));
    app.process_request(Request::SetFPGA(PinState::High));
    app.process_request(Request::SetTPwr(PinState::High));
    let b = app.board();
    assert_eq!((b.cs, b.fpga_rst, b.tpwr_en), (PinState::High, PinState::High, PinState::High));
    assert_eq!(app.mode(), Mode::HighImpedance);
}

#[test]
fn suspend_releases_lines_but_keeps_recorded_mode() {
    let mut app = App::new();
    app.process_request(Request::SetMode(Mode::FPGA));
    app.process_request(Request::SetLED(PinState::High));
    app.process_request(Request::SetTPwr(PinState::High));
    let before = app.board();
    let acts = app.process_request(Request::Suspend);
    assert_eq!(acts[0], Action::SpiDisable);
    let after = replay(before, &acts);
    assert_eq!(after, app.board());
    assert_eq!(after.pins, PinRole::Released);
    assert_eq!(after.spi, None);
    assert_eq!((after.led, after.tpwr_en), (PinState::Low, PinState::Low));
    assert_eq!(app.mode(), Mode::FPGA);
}

#[test]
fn payload_requests_forward_their_length() {
    let mut app = App::new();
    let mut buf = [0u8; 64];
    buf[0] = 0x9F;
    assert_eq!(app.process_request(Request::SPITransmit((buf, 4))), vec![Action::SpiExchange(4)]);
    assert_eq!(app.process_request(Request::SPITransmit((buf, 64))), vec![Action::SpiExchange(64)]);
    assert_eq!(app.process_request(Request::DAP1Command((buf, 0))), vec![Action::ForwardDap1(0)]);
    assert_eq!(app.process_request(Request::DAP2Command((buf, 33))), vec![Action::ForwardDap2(33)]);
    assert_eq!(app.process_request(Request::GetTPwr), vec![Action::ReplyTargetPower]);
    assert_eq!(app.process_request(Request::Bootload), vec![Action::Bootload]);
    assert_eq!(app.board(), App::new().board());
}

#[test]
fn pending_request_is_served_before_streaming() {
    let mut app = App::new();
    let acts = app.poll(true, Some(Request::SetLED(PinState::High)), true, false);
    assert_eq!(acts, vec![Action::SetLine(Line::Led, PinState::High), Action::UnpendUsb]);
    assert!(!acts.contains(&Action::StreamSwo));
    assert_eq!(app.board().led, PinState::High);
    let acts = app.poll(false, None, true, false);
    assert_eq!(acts, vec![Action::StreamSwo]);
    assert_eq!(app.poll(false, None, true, true), vec![Action::WaitForEvent]);
    assert_eq!(app.poll(false, None, false, false), vec![Action::WaitForEvent]);
    assert_eq!(app.poll(true, None, true, false), vec![Action::UnpendUsb]);
}

#[test]
fn malformed_mode_value_is_dropped() {
    let mut app = App::new();
    app.process_request(Request::SetMode(Mode::Flash));
    let before = app.board();
    assert!(app.process_vendor(VENDOR_SET_MODE, 7).is_none());
    assert!(app.process_vendor(VENDOR_SET_MODE, 3).is_none());
    assert!(app.process_vendor(VENDOR_SET_LED, 2).is_none());
    assert!(app.process_vendor(0, 0).is_none());
    assert!(app.process_vendor(200, 1).is_none());
    assert_eq!(app.mode(), Mode::Flash);
    assert_eq!(app.board(), before);
    assert!(Mode::from_u16(7).is_none());
    assert!(PinState::from_u16(2).is_none());
}

#[test]
fn vendor_requests_decode_and_dispatch() {
    let mut app = App::new();
    assert_eq!(Mode::from_u16(2), Some(Mode::FPGA));
    assert_eq!(PinState::from_u16(1), Some(PinState::High));
    let acts = app.process_vendor(VENDOR_SET_MODE, 1).unwrap();
    assert_eq!(acts.len(), 3);
    assert_eq!(app.mode(), Mode::Flash);
    assert_eq!(
        app.process_vendor(VENDOR_SET_CS, 1).unwrap(),
        vec![Action::SetLine(Line::Cs, PinState::High)]
    );
    assert_eq!(app.process_vendor(VENDOR_GET_TPWR, 0).unwrap(), vec![Action::ReplyTargetPower]);
    assert_eq!(app.process_vendor(VENDOR_BOOTLOAD, 0).unwrap(), vec![Action::Bootload]);
    assert!(matches!(Request::from_vendor(VENDOR_SET_MODE, 0), Some(Request::SetMode(Mode::HighImpedance))));
}

#[test]
fn switch_after_suspend_has_no_disable() {
    let mut app = App::new();
    app.process_request(Request::SetMode(Mode::Flash));
    app.process_request(Request::Suspend);
    assert_eq!(app.mode(), Mode::Flash);
    assert_eq!(app.board().spi, None);
    let acts = app.process_request(Request::SetMode(Mode::FPGA));
    assert!(!acts.contains(&Action::SpiDisable));
    assert_eq!(acts[0], Action::ConfigurePins(PinRole::Fpga));
}

#[test]
fn serial_lines_follow_the_role() {
    let mut g = GPIO::new();
    g.moder = 0xFFFF_FFFF;
    configure_serial_line(PinRole::Flash, &mut g, 9);
    assert_eq!((g.moder >> 18) & 3, 2);
    assert_eq!((g.ospeedr >> 18) & 3, 3);
    assert_eq!((g.afrh >> 4) & 15, SPI_AF);
    assert_eq!(g.moder | (3 << 18), 0xFFFF_FFFF);
    configure_serial_line(PinRole::Released, &mut g, 9);
    assert_eq!((g.moder >> 18) & 3, 0);
    configure_serial_line(PinRole::Fpga, &mut g, 2);
    assert_eq!((g.afrl >> 8) & 15, SPI_AF);
    let mut c = GPIO::new();
    configure_chip_select(PinRole::Fpga, &mut c, 6);
    assert_eq!(c.odr, 1 << 6);
    assert_eq!((c.moder >> 12) & 3, 1);
    configure_chip_select(PinRole::Released, &mut c, 6);
    assert_eq!(c.moder, 0);
}
