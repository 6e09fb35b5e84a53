use hs_probe::gpio::{
    DebugLine, PinChange, PinState, Pins, GPIO, OTYPE_OPENDRAIN, OTYPE_PUSHPULL, MODE_ALTERNATE, MODE_INPUT, MODE_OUTPUT, OSPEED_VERYHIGH, PULL_UP,
};

#[test]
fn set_mode_touches_only_its_field() {
    let mut g = GPIO::new();
    g.moder = 0xFFFF_FFFF;
    g.set_mode(3, MODE_OUTPUT);
    assert_eq!(g.moder, 0xFFFF_FF7F);
    g.set_mode_input(15);
    assert_eq!(g.moder, 0x3FFF_FF7F);
    g.set_mode_alternate(0);
    assert_eq!(g.moder, 0x3FFF_FF7E);
    g.set_mode_analog(0);
    assert_eq!(g.moder, 0x3FFF_FF7F);
}

#[test]
fn memoised_mode_matches_direct_set() {
    for n in 0..16u8 {
        for start in [0u32, 0xFFFF_FFFF, 0x1234_5678] {
            let mut a = GPIO::new();
            a.moder = start;
            let mut b = a;
            a.set_mode_alternate(n);
            b.apply_memoised_mode(GPIO::memoise_mode_alternate(n));
            assert_eq!(a, b);
        }
    }
    let mut g = GPIO::new();
    g.apply_memoised_mode(GPIO::memoise_mode(0x13, MODE_OUTPUT));
    assert_eq!(g.moder, 1 << 6);
}

#[test]
fn output_type_speed_and_pull_fields() {
    let mut g = GPIO::new();
    g.set_otype_opendrain(5);
    assert_eq!(g.otyper, 1 << 5);
    g.set_otype_pushpull(5);
    assert_eq!(g.otyper, 0);
    g.set_ospeed_veryhigh(2);
    g.set_ospeed_medium(3);
    assert_eq!(g.ospeedr, 0b01_11 << 4);
    g.set_ospeed_low(2);
    g.set_ospeed_high(4);
    assert_eq!(g.ospeedr, (0b01 << 6) | (0b10 << 8));
    g.set_pull_up(1);
    g.set_pull_down(2);
    assert_eq!(g.pupdr, (0b01 << 2) | (0b10 << 4));
    g.set_pull_floating(1);
    assert_eq!(g.pupdr, 0b10 << 4);
}

#[test]
fn alternate_function_uses_low_or_high_register() {
    let mut g = GPIO::new();
    g.set_af(2, 5);
    g.set_af(9, 0xC);
    assert_eq!(g.afrl, 5 << 8);
    assert_eq!(g.afrh, 0xC << 4);
    g.set_af(9, 0x13);
    assert_eq!(g.afrh, 3 << 4);
}

#[test]
fn output_levels_and_toggle() {
    let mut g = GPIO::new();
    g.set_high(4);
    assert_eq!(g.odr, 1 << 4);
    g.set_low(4);
    assert_eq!(g.odr, 0);
    g.idr = 1 << 7;
    g.toggle(7);
    assert_eq!(g.odr, 0);
    g.toggle(6);
    assert_eq!(g.odr, 1 << 6);
    assert_eq!(g.get_idr(), 1 << 7);
    assert_eq!(g.get_pin_idr(7), 1);
    assert_eq!(g.get_pin_idr(6), 0);
}

#[test]
fn pin_reads_and_drives_its_line() {
    let mut port = GPIO::new();
    port.idr = 1 << 9;
    let mut p = port.pin(9);
    assert_eq!(p.get_state(), PinState::High);
    assert!(p.is_high());
    assert!(!p.is_low());
    p.set_state(PinState::High);
    assert_eq!(p.port.odr, 1 << 9);
    p.set_state(PinState::Low);
    assert_eq!(p.port.odr, 0);
    p.toggle();
    assert_eq!(p.port.odr, 0);
    let q = port.pin(8);
    assert_eq!(q.get_state(), PinState::Low);
    assert!(q.is_low());
}

#[test]
fn pins_setup_configures_debug_lines() {
    let port = GPIO::new();
    let mut pins = Pins {
        led: port.pin(0),
        swdi: port.pin(1),
        swdo: port.pin(2),
        swclk: port.pin(3),
        rst: port.pin(10),
        ops: Vec::new(),
    };
    pins.setup();
    let rst: Vec<PinChange> =
        pins.ops.iter().filter(|(l, _)| *l == DebugLine::Rst).map(|&(_, c)| c).collect();
    assert_eq!(
        rst,
        vec![
            PinChange::Af(0),
            PinChange::OType(OTYPE_PUSHPULL),
            PinChange::OSpeed(OSPEED_VERYHIGH),
            PinChange::OType(OTYPE_OPENDRAIN),
            PinChange::Level(PinState::High),
            PinChange::Mode(MODE_OUTPUT)
        ]
    );
    assert_eq!(pins.ops.len(), 20);
    assert_eq!((pins.swclk.port.moder >> 6) & 3, MODE_ALTERNATE);
    assert_eq!((pins.swclk.port.pupdr >> 6) & 3, PULL_UP);
    assert_eq!((pins.swclk.port.ospeedr >> 6) & 3, OSPEED_VERYHIGH);
    assert_eq!((pins.rst.port.moder >> 20) & 3, MODE_OUTPUT);
    assert_eq!((pins.rst.port.otyper >> 10) & 1, 1);
    assert_eq!((pins.rst.port.odr >> 10) & 1, 1);
    assert_eq!((pins.swdo.port.moder >> 4) & 3, MODE_ALTERNATE);
    assert_eq!((pins.swdi.port.moder >> 2) & 3, MODE_ALTERNATE);
    assert_eq!(pins.led.port, port);
    pins.swd_rx();
    assert_eq!((pins.swdo.port.moder >> 4) & 3, MODE_INPUT);
    pins.swd_tx();
    assert_eq!((pins.swdo.port.moder >> 4) & 3, MODE_ALTERNATE);
    pins.swd_clk_direct();
    assert_eq!((pins.swclk.port.moder >> 6) & 3, MODE_OUTPUT);
    pins.swd_clk_spi();
    assert_eq!((pins.swclk.port.moder >> 6) & 3, MODE_ALTERNATE);
    assert_eq!(pins.ops[20], (DebugLine::Swdo, PinChange::Mode(MODE_INPUT)));
    assert_eq!(pins.ops[23], (DebugLine::Swclk, PinChange::Mode(MODE_ALTERNATE)));
}

#[test]
fn pin_level_configuration_methods() {
    let port = GPIO::new();
    let mut p = port.pin(12);
    p.set_mode_output();
    assert_eq!((p.port.moder >> 24) & 3, MODE_OUTPUT);
    p.set_mode_analog();
    assert_eq!((p.port.moder >> 24) & 3, 3);
    p.set_mode_input();
    assert_eq!(p.port.moder, 0);
    p.set_mode_alternate();
    p.set_af(7);
    assert_eq!(p.port.afrh, 7 << 16);
    p.set_otype_opendrain();
    p.set_ospeed_high();
    p.set_pull_down();
    assert_eq!(p.port.otyper, 1 << 12);
    assert_eq!(p.port.ospeedr, 2 << 24);
    assert_eq!(p.port.pupdr, 2 << 24);
    p.set_otype_pushpull();
    p.set_ospeed_low();
    p.set_ospeed_medium();
    p.set_ospeed_veryhigh();
    p.set_pull_floating();
    p.set_pull_up();
    assert_eq!(p.port.otyper, 0);
    assert_eq!(p.port.ospeedr, 3 << 24);
    assert_eq!(p.port.pupdr, 1 << 24);
    let m = p.memoise_mode_output();
    p.apply_memoised_mode(m);
    assert_eq!(p.port.moder, 1 << 24);
    p.apply_memoised_mode(p.memoise_mode_input());
    assert_eq!(p.port.moder, 0);
    p.apply_memoised_mode(p.memoise_mode_alternate());
    assert_eq!(p.port.moder, 2 << 24);
    p.apply_memoised_mode(p.memoise_mode_analog());
    assert_eq!(p.port.moder, 3 << 24);
    p.set_high();
    assert_eq!(p.port.odr, 1 << 12);
    p.set_low();
    assert_eq!(p.port.odr, 0);
}
