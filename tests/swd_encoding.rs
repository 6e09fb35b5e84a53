use hs_probe::swd::{
    assemble_read_data, decode_read_ack, decode_write_ack, disperse_data, expand_request, Ack,
};

#[test]
fn expand_request_places_each_bit_twice() {
    assert_eq!(expand_request(0xA5), 0xA0A0_0A0A);
    assert_eq!(expand_request(0xFF), 0xAAAA_AAAA);
    assert_eq!(expand_request(0x81), 0xA000_000A);
    assert_eq!(expand_request(0x00), 0);
}

fn gather(e: u32) -> u8 {
    let mut r: u8 = 0;
    for i in 0..8 {
        r |= (((e >> (4 * i + 1)) & 1) as u8) << i;
    }
    r
}

#[test]
fn expand_request_round_trips_for_every_byte() {
    for r in 0..=255u8 {
        let e = expand_request(r);
        assert_eq!(gather(e), r);
        assert_eq!(e & 0x5555_5555, 0);
        assert_eq!((e >> 2) & 0x2222_2222, e & 0x2222_2222);
    }
}

#[test]
fn read_ack_bits_come_from_even_positions() {
    assert_eq!(decode_read_ack(0b0000_0001), 0b001);
    assert_eq!(decode_read_ack(0b0000_0100), 0b010);
    assert_eq!(decode_read_ack(0b0001_0000), 0b100);
    assert_eq!(decode_read_ack(0b0000_0010), 0);
    assert_eq!(decode_read_ack(0xFF), 0b111);
    assert_eq!(decode_read_ack(0b0000_0011), 0b001);
}

#[test]
fn write_ack_bits_are_shifted_by_the_turnaround() {
    assert_eq!(decode_write_ack(0b0000_0100), 0b001);
    assert_eq!(decode_write_ack(0b0001_0000), 0b010);
    assert_eq!(decode_write_ack(0b0100_0000), 0b100);
    assert_eq!(decode_write_ack(0b0000_0001), 0);
    assert_eq!(decode_write_ack(0xFF), 0b111);
}

#[test]
fn ack_classification_never_coerces_to_fault() {
    assert_eq!(Ack::from_bits(1), Ack::Accepted);
    assert_eq!(Ack::from_bits(2), Ack::Wait);
    assert_eq!(Ack::from_bits(4), Ack::Fault);
    assert_eq!(Ack::from_bits(7), Ack::Protocol(7));
    assert_eq!(Ack::from_bits(0), Ack::Protocol(0));
    assert_eq!(Ack::from_bits(6), Ack::Protocol(6));
}

#[test]
fn disperse_data_spreads_over_odd_bits() {
    assert_eq!(disperse_data(0xDEAD_BEEF), (0xA2A8_88A2, 0x8AA8_A8AA));
    assert_eq!(disperse_data(0xFFFF_FFFF), (0xAAAA_AAAA, 0xAAAA_AAAA));
    assert_eq!(disperse_data(0), (0, 0));
}

fn gather_odd(d: u32) -> u32 {
    let mut h = 0;
    for k in 0..16 {
        h |= ((d >> (2 * k + 1)) & 1) << k;
    }
    h
}

#[test]
fn data_frame_round_trips() {
    for &w in &[0u32, 1, 0x8000_0000, 0xDEAD_BEEF, 0x1234_5678, 0xFFFF_FFFF] {
        for p in 0..2u8 {
            let (hi, lo) = disperse_data(w);
            let pbyte = p << 7;
            assert_eq!((gather_odd(hi) << 16) | gather_odd(lo), w);
            assert_eq!(pbyte >> 7, p);
        }
    }
}

#[test]
fn read_data_reassembles_word_and_parity() {
    let mut bytes = vec![0u8, 2, 0, 32, 0, 34, 2, 0, 2, 2, 2, 32, 2, 34, 32, 0];
    bytes.push(0x20);
    assert_eq!(assemble_read_data(&bytes), (0x1234_5678, 1));
    let mut ones = vec![0x22u8; 16];
    ones.push(0xDF);
    assert_eq!(assemble_read_data(&ones), (0xFFFF_FFFF, 0));
}
