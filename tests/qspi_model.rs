use hs_probe::qspi::{Command, DrWrite, QspiOp, QSPI, READ_DATA_DL, REQUEST_DL, WRITE_DATA_DL};
use hs_probe::rcc::Clocks;

#[test]
fn read_request_programs_address_and_decodes_ack() {
    let mut q = QSPI::new(vec![0b0000_0001]);
    let ack = q.swd_read_req(0xA5);
    assert_eq!(ack, 0b001);
    assert_eq!(q.dlr, REQUEST_DL);
    assert_eq!(q.ccr, Command::read_request());
    assert_eq!(q.ar, 0xA0A0_0A0A);
    assert_eq!(q.read_pos, 1);
    assert_eq!(
        q.ops,
        vec![
            QspiOp::Dlr(REQUEST_DL),
            QspiOp::Ccr(Command::read_request()),
            QspiOp::Ar(0xA0A0_0A0A),
            QspiOp::Read(0b0000_0001)
        ]
    );
}

#[test]
fn write_request_adds_a_dummy_cycle() {
    let mut q = QSPI::new(vec![0b0001_0000]);
    let ack = q.swd_write_req(0x81);
    assert_eq!(ack, 0b010);
    assert_eq!(q.ccr.dcyc, 1);
    assert_eq!(q.ar, 0xA000_000A);
    assert_eq!(
        q.ops,
        vec![
            QspiOp::Dlr(REQUEST_DL),
            QspiOp::Ccr(Command::write_request()),
            QspiOp::Ar(0xA000_000A),
            QspiOp::Read(0b0001_0000)
        ]
    );
}

#[test]
fn read_data_consumes_seventeen_bytes_then_idles() {
    let mut sampled = vec![0u8, 2, 0, 32, 0, 34, 2, 0, 2, 2, 2, 32, 2, 34, 32, 0, 0x20];
    sampled.push(0x55);
    let mut q = QSPI::new(sampled.clone());
    assert_eq!(q.swd_read_data(), (0x1234_5678, 1));
    let mut expected = vec![QspiOp::Dlr(READ_DATA_DL), QspiOp::Ccr(Command::read_data())];
    expected.extend(sampled[..17].iter().map(|&b| QspiOp::Read(b)));
    expected.push(QspiOp::Ccr(Command::dummy()));
    expected.push(QspiOp::Ar(0));
    assert_eq!(q.ops, expected);
    assert_eq!(q.read_pos, 17);
    assert_eq!(q.dlr, READ_DATA_DL);
    assert_eq!(q.ccr, Command::dummy());
    assert_eq!(q.ar, 0);
}

#[test]
fn write_data_queues_an_eleven_byte_frame() {
    let mut q = QSPI::new(Vec::new());
    q.swd_write_data(0xDEAD_BEEF, 1);
    assert_eq!(q.dlr, WRITE_DATA_DL);
    assert_eq!(q.ccr, Command::write_data());
    assert_eq!(
        q.ops,
        vec![
            QspiOp::Dlr(WRITE_DATA_DL),
            QspiOp::Ccr(Command::write_data()),
            QspiOp::Write(DrWrite::Word(0xA2A8_88A2)),
            QspiOp::Write(DrWrite::Word(0x8AA8_A8AA)),
            QspiOp::Write(DrWrite::Byte(0x80)),
            QspiOp::Write(DrWrite::Half(0))
        ]
    );
}

#[test]
fn prescaler_needs_a_known_clock_and_a_reachable_rate() {
    let mut q = QSPI::new(Vec::new());
    assert_eq!(q.calculate_prescaler(1_000_000), None);
    q.set_base_clock(&Clocks::new(216_000_000, 0, 0, 0));
    assert_eq!(q.base_clock, 216_000_000);
    assert_eq!(q.calculate_prescaler(1_000_000), Some(216));
    assert_eq!(q.calculate_prescaler(843_750), None);
    assert_eq!(q.calculate_prescaler(843_751), Some(255));
    assert_eq!(q.calculate_prescaler(0), None);
    q.set_base_clock(&Clocks::new(216_000_000, 8, 0, 0));
    assert_eq!(q.base_clock, 108_000_000);
}

#[test]
fn prescaler_field_and_disable() {
    let mut q = QSPI::new(Vec::new());
    q.enabled = true;
    q.set_prescaler(0x1_23);
    assert_eq!(q.prescaler, 0x23);
    q.disable();
    assert!(!q.enabled);
    q.swd_dummy_bytes();
    assert_eq!(q.ccr, Command::dummy());
    assert_eq!(
        q.ops,
        vec![
            QspiOp::Prescaler(0x23),
            QspiOp::WaitIdle,
            QspiOp::Disable,
            QspiOp::Ccr(Command::dummy()),
            QspiOp::Ar(0)
        ]
    );
}
