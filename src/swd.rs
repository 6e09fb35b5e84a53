//! SWD transport encoding for a dual-lane, double-data-rate serial engine.
//!
//! Each request bit `i` is placed at bit `4 * i + 1` of the address word and
//! duplicated at `4 * i + 3`, so that both clock edges of the DDR engine see
//! it. Data words are spread over the odd bits of two 32-bit writes.

use vstd::prelude::*;

verus! {

/// Bit `i` of `x`, as 0 or 1.
pub open spec fn bit32(x: u32, i: u32) -> u32 {
    (x >> i) & 1
}

/// Bit `i` of the byte `x`, as 0 or 1.
pub open spec fn bit8(x: u8, i: u32) -> u8 {
    (x >> i) & 1
}

/// The address word that carries request `r`: request bit `i` at bits
/// `4 * i + 1` and `4 * i + 3`, every other bit clear.
pub open spec fn is_expanded_request(e: u32, r: u8) -> bool {
    forall|i: u32|
        i < 8 ==> {
            &&& #[trigger] bit32(e, (4 * i + 1) as u32) == bit8(r, i) as u32
            &&& bit32(e, (4 * i + 3) as u32) == bit8(r, i) as u32
            &&& bit32(e, (4 * i) as u32) == 0
            &&& bit32(e, (4 * i + 2) as u32) == 0
        }
}

/// Places each request bit at its lane and edge position.
pub fn expand_request(request: u8) -> (e: u32)
    ensures
        is_expanded_request(e, request),
{
    let r = request as u32;
    let e: u32 = (r & 0x80) >> 7 << 29 | (r & 0x40) >> 6 << 25 | (r & 0x20) >> 5 << 21 | (r & 0x10)
        >> 4 << 17 | (r & 0x08) >> 3 << 13 | (r & 0x04) >> 2 << 9 | (r & 0x02) >> 1 << 5 | (r
        & 0x01) << 1;
    let e2: u32 = e | e << 2;
    assert forall|i: u32| i < 8 implies {
        &&& #[trigger] bit32(e2, (4 * i + 1) as u32) == bit8(request, i) as u32
        &&& bit32(e2, (4 * i + 3) as u32) == bit8(request, i) as u32
        &&& bit32(e2, (4 * i) as u32) == 0
        &&& bit32(e2, (4 * i + 2) as u32) == 0
    } by {
        assert({
            &&& ((e2 >> ((4 * i + 1) as u32)) & 1) == ((request >> i) & 1) as u32
            &&& ((e2 >> ((4 * i + 3) as u32)) & 1) == ((request >> i) & 1) as u32
            &&& ((e2 >> ((4 * i) as u32)) & 1) == 0
            &&& ((e2 >> ((4 * i + 2) as u32)) & 1) == 0
        }) by (bit_vector)
            requires
                i < 8,
                r == request as u32,
                e == (r & 0x80) >> 7 << 29 | (r & 0x40) >> 6 << 25 | (r & 0x20) >> 5 << 21 | (r
                    & 0x10) >> 4 << 17 | (r & 0x08) >> 3 << 13 | (r & 0x04) >> 2 << 9 | (r & 0x02)
                    >> 1 << 5 | (r & 0x01) << 1,
                e2 == e | e << 2,
        ;
    }
    e2
}

/// The request byte read back from the address word `e`: bit `i` from bit
/// `4 * i + 1`.
pub open spec fn gather_request(e: u32) -> u8 {
    (bit32(e, 1) | bit32(e, 5) << 1 | bit32(e, 9) << 2 | bit32(e, 13) << 3 | bit32(e, 17) << 4
        | bit32(e, 21) << 5 | bit32(e, 25) << 6 | bit32(e, 29) << 7) as u8
}

/// The request expansion loses nothing: reading the request back from the
/// used positions of its address word gives the request, so two requests
/// never share an address word.
pub proof fn lemma_request_round_trip(r: u8, e: u32)
    requires
        is_expanded_request(e, r),
    ensures
        gather_request(e) == r,
{
    assert(bit32(e, (4 * 0u32 + 1) as u32) == bit8(r, 0) as u32);
    assert(bit32(e, (4 * 1u32 + 1) as u32) == bit8(r, 1) as u32);
    assert(bit32(e, (4 * 2u32 + 1) as u32) == bit8(r, 2) as u32);
    assert(bit32(e, (4 * 3u32 + 1) as u32) == bit8(r, 3) as u32);
    assert(bit32(e, (4 * 4u32 + 1) as u32) == bit8(r, 4) as u32);
    assert(bit32(e, (4 * 5u32 + 1) as u32) == bit8(r, 5) as u32);
    assert(bit32(e, (4 * 6u32 + 1) as u32) == bit8(r, 6) as u32);
    assert(bit32(e, (4 * 7u32 + 1) as u32) == bit8(r, 7) as u32);
    assert(((e >> 1) & 1 | ((e >> 5) & 1) << 1 | ((e >> 9) & 1) << 2 | ((e >> 13) & 1) << 3 | ((e
        >> 17) & 1) << 4 | ((e >> 21) & 1) << 5 | ((e >> 25) & 1) << 6 | ((e >> 29) & 1) << 7) as u8
        == r) by (bit_vector)
        requires
            (e >> 1) & 1 == ((r >> 0) & 1) as u32,
            (e >> 5) & 1 == ((r >> 1) & 1) as u32,
            (e >> 9) & 1 == ((r >> 2) & 1) as u32,
            (e >> 13) & 1 == ((r >> 3) & 1) as u32,
            (e >> 17) & 1 == ((r >> 4) & 1) as u32,
            (e >> 21) & 1 == ((r >> 5) & 1) as u32,
            (e >> 25) & 1 == ((r >> 6) & 1) as u32,
            (e >> 29) & 1 == ((r >> 7) & 1) as u32,
    ;
}

/// Three bits of `raw`, taken from positions `a`, `b` and `c`, as bits 0, 1
/// and 2 of the result.
pub open spec fn pick3(raw: u8, a: u32, b: u32, c: u32) -> u8 {
    bit8(raw, a) | bit8(raw, b) << 1 | bit8(raw, c) << 2
}

/// The acknowledgement of a read request, from the byte sampled after it.
/// The byte holds turnaround and ack, each bit sampled on both clock edges
/// and so present twice; one sample of each ack bit is taken, from bits 0,
/// 2 and 4. These positions are a deliberate choice of this library.
pub fn decode_read_ack(raw: u8) -> (ack: u8)
    ensures
        ack == pick3(raw, 0, 2, 4),
        ack < 8,
{
    let ack: u8 = raw & 0x1 | (raw & 0x4) >> 1 | (raw & 0x10) >> 2;
    assert(ack == ((raw >> 0u32) & 1) | ((raw >> 2u32) & 1) << 1 | ((raw >> 4u32) & 1) << 2 && ack
        < 8) by (bit_vector)
        requires
            ack == raw & 0x1 | (raw & 0x4) >> 1 | (raw & 0x10) >> 2,
    ;
    ack
}

/// The acknowledgement of a write request. The extra idle cycle before
/// sampling moves the three ack bits to bits 2, 4 and 6. These positions
/// are a deliberate choice of this library, one sample per ack bit as for
/// a read request; they have not been checked against the target timing.
pub fn decode_write_ack(raw: u8) -> (ack: u8)
    ensures
        ack == pick3(raw, 2, 4, 6),
        ack < 8,
{
    let ack: u8 = (raw & 0x4) >> 2 | (raw & 0x10) >> 3 | (raw & 0x40) >> 4;
    assert(ack == ((raw >> 2u32) & 1) | ((raw >> 4u32) & 1) << 1 | ((raw >> 6u32) & 1) << 2 && ack
        < 8) by (bit_vector)
        requires
            ack == (raw & 0x4) >> 2 | (raw & 0x10) >> 3 | (raw & 0x40) >> 4,
    ;
    ack
}

/// The outcome of an SWD request phase.
#[derive(PartialEq, Eq, Structural, Clone, Copy, Debug)]
pub enum Ack {
    Accepted,
    Wait,
    Fault,
    /// Any other three-bit pattern; it is never taken for a fault.
    Protocol(u8),
}

/// The outcome that the three ack bits `bits` stand for.
pub open spec fn ack_of(bits: u8) -> Ack {
    if bits == 1 {
        Ack::Accepted
    } else if bits == 2 {
        Ack::Wait
    } else if bits == 4 {
        Ack::Fault
    } else {
        Ack::Protocol(bits)
    }
}

impl Ack {
    /// Classifies three ack bits, as the target sends them least significant
    /// bit first.
    pub fn from_bits(bits: u8) -> (a: Ack)
        ensures
            a == ack_of(bits),
    {
        if bits == 1 {
            Ack::Accepted
        } else if bits == 2 {
            Ack::Wait
        } else if bits == 4 {
            Ack::Fault
        } else {
            Ack::Protocol(bits)
        }
    }
}

/// `d` carries the 16-bit value `h` on its odd bits: bit `k` of `h` at bit
/// `2 * k + 1`, every even bit clear.
pub open spec fn is_spread(d: u32, h: u32) -> bool {
    forall|k: u32|
        k < 16 ==> {
            &&& #[trigger] bit32(d, (2 * k + 1) as u32) == bit32(h, k)
            &&& bit32(d, (2 * k) as u32) == 0
        }
}

/// The two 32-bit data register writes that send `data`, most significant
/// half first.
pub open spec fn is_data_frame(hi: u32, lo: u32, data: u32) -> bool {
    is_spread(hi, data >> 16) && is_spread(lo, data & 0xffff)
}

/// The parity byte that follows the data words: the parity bit is sent last
/// in the byte's most significant position.
pub open spec fn parity_byte(parity: u8) -> u8 {
    (parity << 7) as u8
}

/// Spreads a data word over the odd bits of two register writes.
pub fn disperse_data(data: u32) -> (r: (u32, u32))
    ensures
        is_data_frame(r.0, r.1, data),
{
    let hi: u32 = (data & 0x80000000) >> 31 << 31 | (data & 0x40000000) >> 30 << 29
        | (data & 0x20000000) >> 29 << 27 | (data & 0x10000000) >> 28 << 25
        | (data & 0x08000000) >> 27 << 23 | (data & 0x04000000) >> 26 << 21
        | (data & 0x02000000) >> 25 << 19 | (data & 0x01000000) >> 24 << 17
        | (data & 0x00800000) >> 23 << 15 | (data & 0x00400000) >> 22 << 13
        | (data & 0x00200000) >> 21 << 11 | (data & 0x00100000) >> 20 << 9
        | (data & 0x00080000) >> 19 << 7 | (data & 0x00040000) >> 18 << 5
        | (data & 0x00020000) >> 17 << 3 | (data & 0x00010000) >> 16 << 1;
    let lo: u32 = (data & 0x00008000) >> 15 << 31 | (data & 0x00004000) >> 14 << 29
        | (data & 0x00002000) >> 13 << 27 | (data & 0x00001000) >> 12 << 25
        | (data & 0x00000800) >> 11 << 23 | (data & 0x00000400) >> 10 << 21
        | (data & 0x00000200) >> 9 << 19 | (data & 0x00000100) >> 8 << 17
        | (data & 0x00000080) >> 7 << 15 | (data & 0x00000040) >> 6 << 13
        | (data & 0x00000020) >> 5 << 11 | (data & 0x00000010) >> 4 << 9
        | (data & 0x00000008) >> 3 << 7 | (data & 0x00000004) >> 2 << 5
        | (data & 0x00000002) >> 1 << 3 | (data & 0x00000001) >> 0 << 1;
    assert forall|k: u32| k < 16 implies {
        &&& #[trigger] bit32(hi, (2 * k + 1) as u32) == bit32(data >> 16, k)
        &&& bit32(hi, (2 * k) as u32) == 0
    } by {
        assert({
            &&& (hi >> ((2 * k + 1) as u32)) & 1 == ((data >> 16) >> k) & 1
            &&& (hi >> ((2 * k) as u32)) & 1 == 0
        }) by (bit_vector)
            requires
                k < 16,
                hi == (data & 0x80000000) >> 31 << 31 | (data & 0x40000000) >> 30 << 29
                    | (data & 0x20000000) >> 29 << 27 | (data & 0x10000000) >> 28 << 25
                    | (data & 0x08000000) >> 27 << 23 | (data & 0x04000000) >> 26 << 21
                    | (data & 0x02000000) >> 25 << 19 | (data & 0x01000000) >> 24 << 17
                    | (data & 0x00800000) >> 23 << 15 | (data & 0x00400000) >> 22 << 13
                    | (data & 0x00200000) >> 21 << 11 | (data & 0x00100000) >> 20 << 9
                    | (data & 0x00080000) >> 19 << 7 | (data & 0x00040000) >> 18 << 5
                    | (data & 0x00020000) >> 17 << 3 | (data & 0x00010000) >> 16 << 1,
        ;
    }
    assert forall|k: u32| k < 16 implies {
        &&& #[trigger] bit32(lo, (2 * k + 1) as u32) == bit32(data & 0xffff, k)
        &&& bit32(lo, (2 * k) as u32) == 0
    } by {
        assert({
            &&& (lo >> ((2 * k + 1) as u32)) & 1 == ((data & 0xffff) >> k) & 1
            &&& (lo >> ((2 * k) as u32)) & 1 == 0
        }) by (bit_vector)
            requires
                k < 16,
                lo == (data & 0x00008000) >> 15 << 31 | (data & 0x00004000) >> 14 << 29
                    | (data & 0x00002000) >> 13 << 27 | (data & 0x00001000) >> 12 << 25
                    | (data & 0x00000800) >> 11 << 23 | (data & 0x00000400) >> 10 << 21
                    | (data & 0x00000200) >> 9 << 19 | (data & 0x00000100) >> 8 << 17
                    | (data & 0x00000080) >> 7 << 15 | (data & 0x00000040) >> 6 << 13
                    | (data & 0x00000020) >> 5 << 11 | (data & 0x00000010) >> 4 << 9
                    | (data & 0x00000008) >> 3 << 7 | (data & 0x00000004) >> 2 << 5
                    | (data & 0x00000002) >> 1 << 3 | (data & 0x00000001) >> 0 << 1,
        ;
    }
    (hi, lo)
}

/// The 16-bit value carried on the odd bits of `d`.
pub open spec fn gather_odd(d: u32) -> u32 {
    bit32(d, 1) << 0 | bit32(d, 3) << 1 | bit32(d, 5) << 2 | bit32(d, 7) << 3
        | bit32(d, 9) << 4 | bit32(d, 11) << 5 | bit32(d, 13) << 6 | bit32(d, 15) << 7
        | bit32(d, 17) << 8 | bit32(d, 19) << 9 | bit32(d, 21) << 10
        | bit32(d, 23) << 11 | bit32(d, 25) << 12 | bit32(d, 27) << 13
        | bit32(d, 29) << 14 | bit32(d, 31) << 15
}

/// The data word and parity bit that a frame written as `hi`, `lo` and the
/// parity byte `p` carries.
pub open spec fn decode_data_frame(hi: u32, lo: u32, p: u8) -> (u32, u8) {
    ((gather_odd(hi) << 16) | gather_odd(lo), p >> 7)
}

proof fn lemma_gather_spread(d: u32, h: u32)
    requires
        h < 0x10000,
        is_spread(d, h),
    ensures
        gather_odd(d) == h,
{
    assert(bit32(d, (2 * 0u32 + 1) as u32) == bit32(h, 0));
    assert(bit32(d, (2 * 1u32 + 1) as u32) == bit32(h, 1));
    assert(bit32(d, (2 * 2u32 + 1) as u32) == bit32(h, 2));
    assert(bit32(d, (2 * 3u32 + 1) as u32) == bit32(h, 3));
    assert(bit32(d, (2 * 4u32 + 1) as u32) == bit32(h, 4));
    assert(bit32(d, (2 * 5u32 + 1) as u32) == bit32(h, 5));
    assert(bit32(d, (2 * 6u32 + 1) as u32) == bit32(h, 6));
    assert(bit32(d, (2 * 7u32 + 1) as u32) == bit32(h, 7));
    assert(bit32(d, (2 * 8u32 + 1) as u32) == bit32(h, 8));
    assert(bit32(d, (2 * 9u32 + 1) as u32) == bit32(h, 9));
    assert(bit32(d, (2 * 10u32 + 1) as u32) == bit32(h, 10));
    assert(bit32(d, (2 * 11u32 + 1) as u32) == bit32(h, 11));
    assert(bit32(d, (2 * 12u32 + 1) as u32) == bit32(h, 12));
    assert(bit32(d, (2 * 13u32 + 1) as u32) == bit32(h, 13));
    assert(bit32(d, (2 * 14u32 + 1) as u32) == bit32(h, 14));
    assert(bit32(d, (2 * 15u32 + 1) as u32) == bit32(h, 15));
    assert(((d >> 1) & 1) << 0 | ((d >> 3) & 1) << 1 | ((d >> 5) & 1) << 2
        | ((d >> 7) & 1) << 3 | ((d >> 9) & 1) << 4 | ((d >> 11) & 1) << 5
        | ((d >> 13) & 1) << 6 | ((d >> 15) & 1) << 7 | ((d >> 17) & 1) << 8
        | ((d >> 19) & 1) << 9 | ((d >> 21) & 1) << 10 | ((d >> 23) & 1) << 11
        | ((d >> 25) & 1) << 12 | ((d >> 27) & 1) << 13 | ((d >> 29) & 1) << 14
        | ((d >> 31) & 1) << 15 == h) by (bit_vector)
        requires
            h < 0x10000,
            (d >> 1) & 1 == (h >> 0) & 1,
            (d >> 3) & 1 == (h >> 1) & 1,
            (d >> 5) & 1 == (h >> 2) & 1,
            (d >> 7) & 1 == (h >> 3) & 1,
            (d >> 9) & 1 == (h >> 4) & 1,
            (d >> 11) & 1 == (h >> 5) & 1,
            (d >> 13) & 1 == (h >> 6) & 1,
            (d >> 15) & 1 == (h >> 7) & 1,
            (d >> 17) & 1 == (h >> 8) & 1,
            (d >> 19) & 1 == (h >> 9) & 1,
            (d >> 21) & 1 == (h >> 10) & 1,
            (d >> 23) & 1 == (h >> 11) & 1,
            (d >> 25) & 1 == (h >> 12) & 1,
            (d >> 27) & 1 == (h >> 13) & 1,
            (d >> 29) & 1 == (h >> 14) & 1,
            (d >> 31) & 1 == (h >> 15) & 1,
    ;
}

/// Spreading a data word and its parity bit over a write frame and reading
/// them back from the frame gives the word and the bit.
pub proof fn lemma_data_round_trip(data: u32, parity: u8, hi: u32, lo: u32)
    requires
        parity < 2,
        is_data_frame(hi, lo, data),
    ensures
        decode_data_frame(hi, lo, parity_byte(parity)) == (data, parity),
{
    assert(data >> 16 < 0x10000 && data & 0xffff < 0x10000) by (bit_vector);
    lemma_gather_spread(hi, data >> 16);
    lemma_gather_spread(lo, data & 0xffff);
    assert(((data >> 16) << 16) | (data & 0xffff) == data) by (bit_vector);
    assert(((parity << 7) as u8) >> 7 == parity) by (bit_vector)
        requires
            parity < 2,
    ;
}

/// Sampling a data phase yields 16 bytes, each holding one bit pair of the
/// word, most significant pair first: the high bit of the pair at bit 5 of
/// the byte and the low bit at bit 1.
pub open spec fn is_read_word(w: u32, b: Seq<u8>) -> bool {
    forall|j: int|
        0 <= j < 16 ==> {
            &&& bit32(w, (31 - 2 * j) as u32) == bit8(#[trigger] b[j], 5) as u32
            &&& bit32(w, (30 - 2 * j) as u32) == bit8(b[j], 1) as u32
        }
}

/// The parity bit, from the byte sampled after the data word.
pub open spec fn read_parity(p: u8) -> u8 {
    bit8(p, 5)
}

proof fn lemma_shift_in(res: u32, dat: u8, r2: u32)
    requires
        r2 == (res << 2) | (((dat & 0x20) >> 4u8) as u32 | ((dat & 0x02) >> 1u8) as u32),
    ensures
        forall|k: u32| k < 30 ==> #[trigger] bit32(r2, (k + 2) as u32) == bit32(res, k),
        bit32(r2, 1) == bit8(dat, 5) as u32,
        bit32(r2, 0) == bit8(dat, 1) as u32,
{
    assert forall|k: u32| k < 30 implies #[trigger] bit32(r2, (k + 2) as u32) == bit32(res, k) by {
        assert((r2 >> ((k + 2) as u32)) & 1 == (res >> k) & 1) by (bit_vector)
            requires
                k < 30,
                r2 == (res << 2) | (((dat & 0x20) >> 4u8) as u32 | ((dat & 0x02) >> 1u8) as u32),
        ;
    }
    assert((r2 >> 1u32) & 1 == ((dat >> 5u32) & 1) as u32 && (r2 >> 0u32) & 1 == ((dat >> 1u32)
        & 1) as u32) by (bit_vector)
        requires
            r2 == (res << 2) | (((dat & 0x20) >> 4u8) as u32 | ((dat & 0x02) >> 1u8) as u32),
    ;
}

/// Reassembles a data word and its parity bit from the 17 bytes sampled
/// during a read data phase.
pub fn assemble_read_data(bytes: &[u8]) -> (r: (u32, u8))
    requires
        bytes@.len() >= 17,
    ensures
        is_read_word(r.0, bytes@),
        r.1 == read_parity(bytes@[16]),
{
    let mut res: u32 = 0;
    let mut j: usize = 0;
    while j < 16
        invariant
            j <= 16,
            bytes@.len() >= 17,
            forall|m: int|
                0 <= m < j ==> {
                    &&& bit32(res, (2 * (j - 1 - m) + 1) as u32) == bit8(#[trigger] bytes@[m], 5)
                        as u32
                    &&& bit32(res, (2 * (j - 1 - m)) as u32) == bit8(bytes@[m], 1) as u32
                },
        decreases 16 - j,
    {
        let dat = bytes[j];
        let r2: u32 = (res << 2) | (((dat & 0x20) >> 4) as u32 | ((dat & 0x02) >> 1) as u32);
        proof {
            lemma_shift_in(res, dat, r2);
            assert forall|m: int| 0 <= m < j + 1 implies {
                &&& bit32(r2, (2 * (j + 1 - 1 - m) + 1) as u32) == bit8(#[trigger] bytes@[m], 5)
                    as u32
                &&& bit32(r2, (2 * (j + 1 - 1 - m)) as u32) == bit8(bytes@[m], 1) as u32
            } by {
                if m < j {
                    let k1 = (2 * (j - 1 - m) + 1) as u32;
                    let k0 = (2 * (j - 1 - m)) as u32;
                    assert(bit32(r2, (k1 + 2) as u32) == bit32(res, k1));
                    assert(bit32(r2, (k0 + 2) as u32) == bit32(res, k0));
                }
            }
        }
        res = r2;
        j = j + 1;
    }
    let parity: u8 = (bytes[16] >> 5) & 1;
    proof {
        assert forall|jj: int| 0 <= jj < 16 implies {
            &&& bit32(res, (31 - 2 * jj) as u32) == bit8(#[trigger] bytes@[jj], 5) as u32
            &&& bit32(res, (30 - 2 * jj) as u32) == bit8(bytes@[jj], 1) as u32
        } by {
            assert((2 * (16 - 1 - jj) + 1) == 31 - 2 * jj);
        }
    }
    (res, parity)
}

} // verus!
