//! GPIO register file: one port's configuration and data registers as plain
//! values, with the per-pin field updates the board code makes.

use vstd::prelude::*;

verus! {

/// Mode field values.
pub const MODE_INPUT: u32 = 0;
pub const MODE_OUTPUT: u32 = 1;
pub const MODE_ALTERNATE: u32 = 2;
pub const MODE_ANALOG: u32 = 3;

/// Output type field values.
pub const OTYPE_PUSHPULL: u32 = 0;
pub const OTYPE_OPENDRAIN: u32 = 1;

/// Output speed field values.
pub const OSPEED_LOW: u32 = 0;
pub const OSPEED_MEDIUM: u32 = 1;
pub const OSPEED_HIGH: u32 = 2;
pub const OSPEED_VERYHIGH: u32 = 3;

/// Pull field values.
pub const PULL_FLOATING: u32 = 0;
pub const PULL_UP: u32 = 1;
pub const PULL_DOWN: u32 = 2;

/// Bit `k` of `r`.
pub open spec fn bit(r: u32, k: u32) -> u32 {
    (r >> k) & 1
}

/// The 2-bit field of pin `k` in `r`.
pub open spec fn field2(r: u32, k: u32) -> u32 {
    (r >> ((2 * k) as u32)) & 3
}

/// The 4-bit field of slot `k` in `r`.
pub open spec fn field4(r: u32, k: u32) -> u32 {
    (r >> ((4 * k) as u32)) & 15
}

/// `new` is `old` with bit `n` set to the low bit of `v`.
pub open spec fn updated1(new: u32, old: u32, n: u32, v: u32) -> bool {
    forall|k: u32| k < 32 ==> #[trigger] bit(new, k) == if k == n { v & 1 } else { bit(old, k) }
}

/// `new` is `old` with the 2-bit field of pin `n` set to the low bits of `v`.
pub open spec fn updated2(new: u32, old: u32, n: u32, v: u32) -> bool {
    forall|k: u32|
        k < 16 ==> #[trigger] field2(new, k) == if k == n { v & 3 } else { field2(old, k) }
}

/// `new` is `old` with the 4-bit field of slot `n` set to the low bits of `v`.
pub open spec fn updated4(new: u32, old: u32, n: u32, v: u32) -> bool {
    forall|k: u32|
        k < 8 ==> #[trigger] field4(new, k) == if k == n { v & 15 } else { field4(old, k) }
}

proof fn lemma_update1(r: u32, n: u32, v: u32)
    requires
        n < 16,
    ensures
        updated1((r & !(1u32 << n)) | ((v << n) & (1u32 << n)), r, n, v),
{
    let new = (r & !(1u32 << n)) | ((v << n) & (1u32 << n));
    assert forall|k: u32| k < 32 implies #[trigger] bit(new, k) == if k == n {
        v & 1
    } else {
        bit(r, k)
    } by {
        assert((new >> k) & 1 == if k == n { v & 1 } else { (r >> k) & 1 }) by (bit_vector)
            requires
                n < 16,
                k < 32,
                new == (r & !(1u32 << n)) | ((v << n) & (1u32 << n)),
        ;
    }
}

proof fn lemma_update2(r: u32, n: u32, v: u32)
    requires
        n < 16,
    ensures
        updated2(
            (r & !(3u32 << ((2 * n) as u32))) | ((v << ((2 * n) as u32)) & (3u32 << ((2 * n) as u32))),
            r,
            n,
            v,
        ),
{
    let o = (2 * n) as u32;
    let new = (r & !(3u32 << o)) | ((v << o) & (3u32 << o));
    assert forall|k: u32| k < 16 implies #[trigger] field2(new, k) == if k == n {
        v & 3
    } else {
        field2(r, k)
    } by {
        assert((new >> ((2 * k) as u32)) & 3 == if k == n { v & 3 } else { (r >> ((2 * k) as u32))
            & 3 }) by (bit_vector)
            requires
                n < 16,
                k < 16,
                o == 2 * n,
                new == (r & !(3u32 << o)) | ((v << o) & (3u32 << o)),
        ;
    }
}

proof fn lemma_update4(r: u32, n: u32, v: u32)
    requires
        n < 8,
    ensures
        updated4(
            (r & !(15u32 << ((4 * n) as u32))) | ((v << ((4 * n) as u32)) & (15u32 << ((4 * n) as u32))),
            r,
            n,
            v,
        ),
{
    let o = (4 * n) as u32;
    let new = (r & !(15u32 << o)) | ((v << o) & (15u32 << o));
    assert forall|k: u32| k < 8 implies #[trigger] field4(new, k) == if k == n {
        v & 15
    } else {
        field4(r, k)
    } by {
        assert((new >> ((4 * k) as u32)) & 15 == if k == n { v & 15 } else { (r >> ((4 * k) as u32))
            & 15 }) by (bit_vector)
            requires
                n < 8,
                k < 8,
                o == 4 * n,
                new == (r & !(15u32 << o)) | ((v << o) & (15u32 << o)),
        ;
    }
}

/// Field values fit their fields.
pub proof fn lemma_field_values()
    ensures
        0u32 & 1 == 0,
        1u32 & 1 == 1,
        0u32 & 3 == 0,
        1u32 & 3 == 1,
        2u32 & 3 == 2,
        3u32 & 3 == 3,
        0u32 & 15 == 0,
{
    assert(0u32 & 1 == 0 && 1u32 & 1 == 1 && 0u32 & 3 == 0 && 1u32 & 3 == 1 && 2u32 & 3 == 2
        && 3u32 & 3 == 3 && 0u32 & 15 == 0) by (bit_vector);
}

/// A precomputed mask and value for changing one pin's mode in a single
/// read-modify-write: the new mode register is `(r & mask) | value`.
#[derive(Clone, Copy, Debug)]
pub struct MemoisedMode {
    mask: u32,
    value: u32,
}

impl MemoisedMode {
    /// The mode register that applying this to `r` gives.
    pub closed spec fn apply_to(self, r: u32) -> u32 {
        (r & self.mask) | self.value
    }
}

/// A logical line level.
#[derive(PartialEq, Eq, Structural, Clone, Copy, Debug)]
pub enum PinState {
    Low,
    High,
}

/// One GPIO port's registers.
#[derive(PartialEq, Eq, Structural, Clone, Copy, Debug)]
pub struct GPIO {
    pub moder: u32,
    pub otyper: u32,
    pub ospeedr: u32,
    pub pupdr: u32,
    pub afrl: u32,
    pub afrh: u32,
    /// Output levels, as the set/reset register leaves them.
    pub odr: u32,
    /// Input levels, as last sampled.
    pub idr: u32,
}
impl GPIO {
    pub open spec fn with_moder(self, v: u32) -> GPIO {
        GPIO { moder: v, ..self }
    }

    pub open spec fn with_otyper(self, v: u32) -> GPIO {
        GPIO { otyper: v, ..self }
    }

    pub open spec fn with_ospeedr(self, v: u32) -> GPIO {
        GPIO { ospeedr: v, ..self }
    }

    pub open spec fn with_pupdr(self, v: u32) -> GPIO {
        GPIO { pupdr: v, ..self }
    }

    pub open spec fn with_afrl(self, v: u32) -> GPIO {
        GPIO { afrl: v, ..self }
    }

    pub open spec fn with_afrh(self, v: u32) -> GPIO {
        GPIO { afrh: v, ..self }
    }

    pub open spec fn with_odr(self, v: u32) -> GPIO {
        GPIO { odr: v, ..self }
    }

    /// The port after the alternate function of pin `n` is set to `af`.
    pub open spec fn af_set(self, new: GPIO, n: u32, af: u32) -> bool {
        if n < 8 {
            updated4(new.afrl, self.afrl, n, af) && new == self.with_afrl(new.afrl)
        } else {
            updated4(new.afrh, self.afrh, (n - 8) as u32, af) && new == self.with_afrh(new.afrh)
        }
    }

    /// A port with every register at zero: all pins inputs, push-pull, low
    /// speed, floating, low.
    pub fn new() -> (g: GPIO)
        ensures
            g == (GPIO { moder: 0, otyper: 0, ospeedr: 0, pupdr: 0, afrl: 0, afrh: 0, odr: 0, idr: 0 }),
    {
        GPIO { moder: 0, otyper: 0, ospeedr: 0, pupdr: 0, afrl: 0, afrh: 0, odr: 0, idr: 0 }
    }

    /// Pin `n` of this port, carrying a copy of the port's registers.
    pub fn pin(&self, n: u8) -> (p: Pin)
        requires
            n < 16,
        ensures
            p.n == n,
            p.port == *self,
    {
        Pin { n, port: *self }
    }

    /// Drives pin `n` high.
    pub fn set_high(&mut self, n: u8)
        requires
            n < 16,
        ensures
            *final(self) == old(self).with_odr(old(self).odr | (1u32 << n)),
    {
        self.odr = self.odr | (1u32 << n);
    }

    /// Drives pin `n` low.
    pub fn set_low(&mut self, n: u8)
        requires
            n < 16,
        ensures
            *final(self) == old(self).with_odr(old(self).odr & !(1u32 << n)),
    {
        self.odr = self.odr & !(1u32 << n);
    }

    /// Drives pin `n` to the opposite of its sampled input level.
    pub fn toggle(&mut self, n: u8)
        requires
            n < 16,
        ensures
            bit(old(self).idr, n as u32) == 1 ==> *final(self) == old(self).with_odr(
                old(self).odr & !(1u32 << n),
            ),
            bit(old(self).idr, n as u32) != 1 ==> *final(self) == old(self).with_odr(
                old(self).odr | (1u32 << n),
            ),
    {
        let pin = (self.idr >> n) & 1;
        if pin == 1 {
            self.set_low(n)
        } else {
            self.set_high(n)
        }
    }

    /// Sets the mode field of pin `n`.
    pub fn set_mode(&mut self, n: u8, mode: u32)
        requires
            n < 16,
        ensures
            updated2(final(self).moder, old(self).moder, n as u32, mode),
            *final(self) == old(self).with_moder(final(self).moder),
    {
        let offset: u32 = n as u32 * 2;
        let mask: u32 = 0b11u32 << offset;
        let val: u32 = (mode << offset) & mask;
        proof {
            lemma_update2(self.moder, n as u32, mode);
        }
        self.moder = (self.moder & !mask) | val;
    }

    /// The mask and value that set the mode of pin `n & 0xF` to `mode`.
    pub fn memoise_mode(n: u8, mode: u32) -> (m: MemoisedMode)
        ensures
            forall|r: u32| updated2(#[trigger] m.apply_to(r), r, (n & 0xF) as u32, mode),
    {
        let pin: u8 = n & 0xF;
        proof {
            assert(pin < 16) by (bit_vector)
                requires
                    pin == n & 0xF,
            ;
        }
        let offset: u32 = pin as u32 * 2;
        let mask: u32 = 0b11u32 << offset;
        let value: u32 = (mode << offset) & mask;
        let m = MemoisedMode { mask: !mask, value };
        proof {
            assert forall|r: u32| updated2(#[trigger] m.apply_to(r), r, pin as u32, mode) by {
                lemma_update2(r, pin as u32, mode);
            }
        }
        m
    }

    /// Applies a memoised mode change.
    pub fn apply_memoised_mode(&mut self, mode: MemoisedMode)
        ensures
            *final(self) == old(self).with_moder(mode.apply_to(old(self).moder)),
    {
        self.moder = (self.moder & mode.mask) | mode.value;
    }

    pub fn set_mode_input(&mut self, n: u8)
        requires
            n < 16,
        ensures
            updated2(final(self).moder, old(self).moder, n as u32, MODE_INPUT),
            *final(self) == old(self).with_moder(final(self).moder),
    {
        self.set_mode(n, MODE_INPUT)
    }

    pub fn memoise_mode_input(n: u8) -> (m: MemoisedMode)
        ensures
            forall|r: u32| updated2(#[trigger] m.apply_to(r), r, (n & 0xF) as u32, MODE_INPUT),
    {
        Self::memoise_mode(n, MODE_INPUT)
    }

    pub fn set_mode_output(&mut self, n: u8)
        requires
            n < 16,
        ensures
            updated2(final(self).moder, old(self).moder, n as u32, MODE_OUTPUT),
            *final(self) == old(self).with_moder(final(self).moder),
    {
        self.set_mode(n, MODE_OUTPUT)
    }

    pub fn memoise_mode_output(n: u8) -> (m: MemoisedMode)
        ensures
            forall|r: u32| updated2(#[trigger] m.apply_to(r), r, (n & 0xF) as u32, MODE_OUTPUT),
    {
        Self::memoise_mode(n, MODE_OUTPUT)
    }

    pub fn set_mode_alternate(&mut self, n: u8)
        requires
            n < 16,
        ensures
            updated2(final(self).moder, old(self).moder, n as u32, MODE_ALTERNATE),
            *final(self) == old(self).with_moder(final(self).moder),
    {
        self.set_mode(n, MODE_ALTERNATE)
    }

    pub fn memoise_mode_alternate(n: u8) -> (m: MemoisedMode)
        ensures
            forall|r: u32| updated2(#[trigger] m.apply_to(r), r, (n & 0xF) as u32, MODE_ALTERNATE),
    {
        Self::memoise_mode(n, MODE_ALTERNATE)
    }

    pub fn set_mode_analog(&mut self, n: u8)
        requires
            n < 16,
        ensures
            updated2(final(self).moder, old(self).moder, n as u32, MODE_ANALOG),
            *final(self) == old(self).with_moder(final(self).moder),
    {
        self.set_mode(n, MODE_ANALOG)
    }

    pub fn memoise_mode_analog(n: u8) -> (m: MemoisedMode)
        ensures
            forall|r: u32| updated2(#[trigger] m.apply_to(r), r, (n & 0xF) as u32, MODE_ANALOG),
    {
        Self::memoise_mode(n, MODE_ANALOG)
    }

    /// Sets the output type bit of pin `n`.
    pub fn set_otype(&mut self, n: u8, otype: u32)
        requires
            n < 16,
        ensures
            updated1(final(self).otyper, old(self).otyper, n as u32, otype),
            *final(self) == old(self).with_otyper(final(self).otyper),
    {
        let offset: u32 = n as u32;
        let mask: u32 = 0b1u32 << offset;
        let val: u32 = (otype << offset) & mask;
        proof {
            lemma_update1(self.otyper, n as u32, otype);
        }
        self.otyper = (self.otyper & !mask) | val;
    }

    pub fn set_otype_opendrain(&mut self, n: u8)
        requires
            n < 16,
        ensures
            updated1(final(self).otyper, old(self).otyper, n as u32, OTYPE_OPENDRAIN),
            *final(self) == old(self).with_otyper(final(self).otyper),
    {
        self.set_otype(n, OTYPE_OPENDRAIN)
    }

    pub fn set_otype_pushpull(&mut self, n: u8)
        requires
            n < 16,
        ensures
            updated1(final(self).otyper, old(self).otyper, n as u32, OTYPE_PUSHPULL),
            *final(self) == old(self).with_otyper(final(self).otyper),
    {
        self.set_otype(n, OTYPE_PUSHPULL)
    }

    /// Sets the output speed field of pin `n`.
    pub fn set_ospeed(&mut self, n: u8, ospeed: u32)
        requires
            n < 16,
        ensures
            updated2(final(self).ospeedr, old(self).ospeedr, n as u32, ospeed),
            *final(self) == old(self).with_ospeedr(final(self).ospeedr),
    {
        let offset: u32 = n as u32 * 2;
        let mask: u32 = 0b11u32 << offset;
        let val: u32 = (ospeed << offset) & mask;
        proof {
            lemma_update2(self.ospeedr, n as u32, ospeed);
        }
        self.ospeedr = (self.ospeedr & !mask) | val;
    }

    pub fn set_ospeed_low(&mut self, n: u8)
        requires
            n < 16,
        ensures
            updated2(final(self).ospeedr, old(self).ospeedr, n as u32, OSPEED_LOW),
            *final(self) == old(self).with_ospeedr(final(self).ospeedr),
    {
        self.set_ospeed(n, OSPEED_LOW)
    }

    pub fn set_ospeed_medium(&mut self, n: u8)
        requires
            n < 16,
        ensures
            updated2(final(self).ospeedr, old(self).ospeedr, n as u32, OSPEED_MEDIUM),
            *final(self) == old(self).with_ospeedr(final(self).ospeedr),
    {
        self.set_ospeed(n, OSPEED_MEDIUM)
    }

    pub fn set_ospeed_high(&mut self, n: u8)
        requires
            n < 16,
        ensures
            updated2(final(self).ospeedr, old(self).ospeedr, n as u32, OSPEED_HIGH),
            *final(self) == old(self).with_ospeedr(final(self).ospeedr),
    {
        self.set_ospeed(n, OSPEED_HIGH)
    }

    pub fn set_ospeed_veryhigh(&mut self, n: u8)
        requires
            n < 16,
        ensures
            updated2(final(self).ospeedr, old(self).ospeedr, n as u32, OSPEED_VERYHIGH),
            *final(self) == old(self).with_ospeedr(final(self).ospeedr),
    {
        self.set_ospeed(n, OSPEED_VERYHIGH)
    }

    /// Sets the pull field of pin `n`.
    pub fn set_pull(&mut self, n: u8, pull: u32)
        requires
            n < 16,
        ensures
            updated2(final(self).pupdr, old(self).pupdr, n as u32, pull),
            *final(self) == old(self).with_pupdr(final(self).pupdr),
    {
        let offset: u32 = n as u32 * 2;
        let mask: u32 = 0b11u32 << offset;
        let val: u32 = (pull << offset) & mask;
        proof {
            lemma_update2(self.pupdr, n as u32, pull);
        }
        self.pupdr = (self.pupdr & !mask) | val;
    }

    pub fn set_pull_floating(&mut self, n: u8)
        requires
            n < 16,
        ensures
            updated2(final(self).pupdr, old(self).pupdr, n as u32, PULL_FLOATING),
            *final(self) == old(self).with_pupdr(final(self).pupdr),
    {
        self.set_pull(n, PULL_FLOATING)
    }

    pub fn set_pull_up(&mut self, n: u8)
        requires
            n < 16,
        ensures
            updated2(final(self).pupdr, old(self).pupdr, n as u32, PULL_UP),
            *final(self) == old(self).with_pupdr(final(self).pupdr),
    {
        self.set_pull(n, PULL_UP)
    }

    pub fn set_pull_down(&mut self, n: u8)
        requires
            n < 16,
        ensures
            updated2(final(self).pupdr, old(self).pupdr, n as u32, PULL_DOWN),
            *final(self) == old(self).with_pupdr(final(self).pupdr),
    {
        self.set_pull(n, PULL_DOWN)
    }

    /// Sets the alternate function of pin `n`: pins 0 to 7 in the low
    /// register, 8 to 15 in the high one.
    pub fn set_af(&mut self, n: u8, af: u32)
        requires
            n < 16,
        ensures
            old(self).af_set(*final(self), n as u32, af),
    {
        if n < 8 {
            let offset: u32 = n as u32 * 4;
            let mask: u32 = 0b1111u32 << offset;
            let val: u32 = (af << offset) & mask;
            proof {
                lemma_update4(self.afrl, n as u32, af);
            }
            self.afrl = (self.afrl & !mask) | val;
        } else {
            let offset: u32 = (n as u32 - 8) * 4;
            let mask: u32 = 0b1111u32 << offset;
            let val: u32 = (af << offset) & mask;
            proof {
                lemma_update4(self.afrh, (n - 8) as u32, af);
            }
            self.afrh = (self.afrh & !mask) | val;
        }
    }

    /// The sampled input levels of the whole port.
    pub fn get_idr(&self) -> (r: u32)
        ensures
            r == self.idr,
    {
        self.idr
    }

    /// The sampled input level of pin `n`, as 0 or 1.
    pub fn get_pin_idr(&self, n: u8) -> (r: u32)
        requires
            n < 16,
        ensures
            r == bit(self.idr, n as u32),
            r < 2,
    {
        let r = (self.get_idr() & (1u32 << n)) >> n;
        proof {
            let idr = self.idr;
            assert((idr & (1u32 << n)) >> n == (idr >> n) & 1 && (idr >> n) & 1 < 2) by (bit_vector)
                requires
                    n < 16,
            ;
        }
        r
    }
}

/// One pin, with the registers of its port as this pin sees them. Each
/// operation changes only this pin's bits.
#[derive(PartialEq, Eq, Structural, Clone, Copy, Debug)]
pub struct Pin {
    pub n: u8,
    pub port: GPIO,
}

impl Pin {
    pub open spec fn wf(&self) -> bool {
        self.n < 16
    }

    /// The sampled level of this pin.
    pub open spec fn level(&self) -> PinState {
        if bit(self.port.idr, self.n as u32) == 1 {
            PinState::High
        } else {
            PinState::Low
        }
    }

    pub open spec fn mode(&self) -> u32 {
        field2(self.port.moder, self.n as u32)
    }

    pub open spec fn otype(&self) -> u32 {
        bit(self.port.otyper, self.n as u32)
    }

    pub open spec fn ospeed(&self) -> u32 {
        field2(self.port.ospeedr, self.n as u32)
    }

    pub open spec fn pull(&self) -> u32 {
        field2(self.port.pupdr, self.n as u32)
    }

    pub open spec fn af(&self) -> u32 {
        if self.n < 8 {
            field4(self.port.afrl, self.n as u32)
        } else {
            field4(self.port.afrh, (self.n - 8) as u32)
        }
    }

    /// The level this pin drives when it is an output.
    pub open spec fn driven(&self) -> PinState {
        if bit(self.port.odr, self.n as u32) == 1 {
            PinState::High
        } else {
            PinState::Low
        }
    }

    pub fn set_high(&mut self)
        requires
            old(self).wf(),
        ensures
            final(self).n == old(self).n,
            final(self).port == old(self).port.with_odr(old(self).port.odr | (1u32 << old(self).n)),
    {
        proof {
            lemma_field_values();
        }
        self.port.set_high(self.n);
    }

    pub fn set_low(&mut self)
        requires
            old(self).wf(),
        ensures
            final(self).n == old(self).n,
            final(self).port == old(self).port.with_odr(old(self).port.odr & !(1u32 << old(self).n)),
    {
        proof {
            lemma_field_values();
        }
        self.port.set_low(self.n);
    }

    /// Drives this pin to `state`.
    pub fn set_state(&mut self, state: PinState)
        requires
            old(self).wf(),
        ensures
            final(self).n == old(self).n,
            final(self).driven() == state,
            final(self).port == old(self).port.with_odr(final(self).port.odr),
            forall|k: u32| k < 32 && k != old(self).n ==> #[trigger] bit(final(self).port.odr, k) == bit(old(self).port.odr, k),
    {
        let ghost o = self.port.odr;
        let n = self.n;
        match state {
            PinState::Low => {
                self.set_low();
                proof {
                    let r = self.port.odr;
                    assert(r == o & !(1u32 << n));
                    assert((r >> n) & 1 == 0) by (bit_vector)
                        requires n < 16, r == o & !(1u32 << n),
                    ;
                    assert forall|k: u32| k < 32 && k != n implies #[trigger] bit(r, k) == bit(o, k) by {
                        assert((r >> k) & 1 == (o >> k) & 1) by (bit_vector)
                            requires n < 16, k < 32, k != n, r == o & !(1u32 << n),
                        ;
                    }
                }
            },
            PinState::High => {
                self.set_high();
                proof {
                    let r = self.port.odr;
                    assert(r == o | (1u32 << n));
                    assert((r >> n) & 1 == 1) by (bit_vector)
                        requires n < 16, r == o | (1u32 << n),
                    ;
                    assert forall|k: u32| k < 32 && k != n implies #[trigger] bit(r, k) == bit(o, k) by {
                        assert((r >> k) & 1 == (o >> k) & 1) by (bit_vector)
                            requires n < 16, k < 32, k != n, r == o | (1u32 << n),
                        ;
                    }
                }
            },
        }
    }

    /// The sampled level of this pin.
    pub fn get_state(&self) -> (s: PinState)
        requires
            self.wf(),
        ensures
            s == self.level(),
    {
        match self.port.get_pin_idr(self.n) {
            0 => PinState::Low,
            _ => PinState::High,
        }
    }

    pub fn is_high(&self) -> (b: bool)
        requires
            self.wf(),
        ensures
            b == (self.level() == PinState::High),
    {
        match self.get_state() {
            PinState::High => true,
            PinState::Low => false,
        }
    }

    pub fn is_low(&self) -> (b: bool)
        requires
            self.wf(),
        ensures
            b == (self.level() == PinState::Low),
    {
        match self.get_state() {
            PinState::Low => true,
            PinState::High => false,
        }
    }

    /// Drives this pin to the opposite of its sampled level.
    pub fn toggle(&mut self)
        requires
            old(self).wf(),
        ensures
            final(self).n == old(self).n,
            bit(old(self).port.idr, old(self).n as u32) == 1 ==> final(self).port == old(self).port.with_odr(
                old(self).port.odr & !(1u32 << old(self).n),
            ),
            bit(old(self).port.idr, old(self).n as u32) != 1 ==> final(self).port == old(self).port.with_odr(
                old(self).port.odr | (1u32 << old(self).n),
            ),
    {
        self.port.toggle(self.n);
    }

    pub fn set_mode_input(&mut self)
        requires
            old(self).wf(),
        ensures
            final(self).n == old(self).n,
            final(self).mode() == MODE_INPUT,
            updated2(final(self).port.moder, old(self).port.moder, old(self).n as u32, MODE_INPUT),
            final(self).port == old(self).port.with_moder(final(self).port.moder),
    {
        proof {
            lemma_field_values();
        }
        self.port.set_mode_input(self.n);
    }

    pub fn set_mode_output(&mut self)
        requires
            old(self).wf(),
        ensures
            final(self).n == old(self).n,
            final(self).mode() == MODE_OUTPUT,
            updated2(final(self).port.moder, old(self).port.moder, old(self).n as u32, MODE_OUTPUT),
            final(self).port == old(self).port.with_moder(final(self).port.moder),
    {
        proof {
            lemma_field_values();
        }
        self.port.set_mode_output(self.n);
    }

    pub fn set_mode_alternate(&mut self)
        requires
            old(self).wf(),
        ensures
            final(self).n == old(self).n,
            final(self).mode() == MODE_ALTERNATE,
            updated2(final(self).port.moder, old(self).port.moder, old(self).n as u32, MODE_ALTERNATE),
            final(self).port == old(self).port.with_moder(final(self).port.moder),
    {
        proof {
            lemma_field_values();
        }
        self.port.set_mode_alternate(self.n);
    }

    pub fn set_mode_analog(&mut self)
        requires
            old(self).wf(),
        ensures
            final(self).n == old(self).n,
            final(self).mode() == MODE_ANALOG,
            updated2(final(self).port.moder, old(self).port.moder, old(self).n as u32, MODE_ANALOG),
            final(self).port == old(self).port.with_moder(final(self).port.moder),
    {
        proof {
            lemma_field_values();
        }
        self.port.set_mode_analog(self.n);
    }

    pub fn memoise_mode_input(&self) -> (m: MemoisedMode)
        requires
            self.wf(),
        ensures
            forall|r: u32| updated2(#[trigger] m.apply_to(r), r, self.n as u32, MODE_INPUT),
    {
        proof {
            let n = self.n;
            assert(n & 0xF == n) by (bit_vector)
                requires
                    n < 16,
            ;
        }
        GPIO::memoise_mode_input(self.n)
    }

    pub fn memoise_mode_output(&self) -> (m: MemoisedMode)
        requires
            self.wf(),
        ensures
            forall|r: u32| updated2(#[trigger] m.apply_to(r), r, self.n as u32, MODE_OUTPUT),
    {
        proof {
            let n = self.n;
            assert(n & 0xF == n) by (bit_vector)
                requires
                    n < 16,
            ;
        }
        GPIO::memoise_mode_output(self.n)
    }

    pub fn memoise_mode_alternate(&self) -> (m: MemoisedMode)
        requires
            self.wf(),
        ensures
            forall|r: u32| updated2(#[trigger] m.apply_to(r), r, self.n as u32, MODE_ALTERNATE),
    {
        proof {
            let n = self.n;
            assert(n & 0xF == n) by (bit_vector)
                requires
                    n < 16,
            ;
        }
        GPIO::memoise_mode_alternate(self.n)
    }

    pub fn memoise_mode_analog(&self) -> (m: MemoisedMode)
        requires
            self.wf(),
        ensures
            forall|r: u32| updated2(#[trigger] m.apply_to(r), r, self.n as u32, MODE_ANALOG),
    {
        proof {
            let n = self.n;
            assert(n & 0xF == n) by (bit_vector)
                requires
                    n < 16,
            ;
        }
        GPIO::memoise_mode_analog(self.n)
    }

    pub fn apply_memoised_mode(&mut self, mode: MemoisedMode)
        requires
            old(self).wf(),
        ensures
            final(self).n == old(self).n,
            final(self).port == old(self).port.with_moder(mode.apply_to(old(self).port.moder)),
    {
        self.port.apply_memoised_mode(mode);
    }

    pub fn set_otype_opendrain(&mut self)
        requires
            old(self).wf(),
        ensures
            final(self).n == old(self).n,
            final(self).otype() == OTYPE_OPENDRAIN,
            updated1(final(self).port.otyper, old(self).port.otyper, old(self).n as u32, OTYPE_OPENDRAIN),
            final(self).port == old(self).port.with_otyper(final(self).port.otyper),
    {
        proof {
            lemma_field_values();
        }
        self.port.set_otype_opendrain(self.n);
    }

    pub fn set_otype_pushpull(&mut self)
        requires
            old(self).wf(),
        ensures
            final(self).n == old(self).n,
            final(self).otype() == OTYPE_PUSHPULL,
            updated1(final(self).port.otyper, old(self).port.otyper, old(self).n as u32, OTYPE_PUSHPULL),
            final(self).port == old(self).port.with_otyper(final(self).port.otyper),
    {
        proof {
            lemma_field_values();
        }
        self.port.set_otype_pushpull(self.n);
    }

    pub fn set_ospeed_low(&mut self)
        requires
            old(self).wf(),
        ensures
            final(self).n == old(self).n,
            final(self).ospeed() == OSPEED_LOW,
            updated2(final(self).port.ospeedr, old(self).port.ospeedr, old(self).n as u32, OSPEED_LOW),
            final(self).port == old(self).port.with_ospeedr(final(self).port.ospeedr),
    {
        proof {
            lemma_field_values();
        }
        self.port.set_ospeed_low(self.n);
    }

    pub fn set_ospeed_medium(&mut self)
        requires
            old(self).wf(),
        ensures
            final(self).n == old(self).n,
            final(self).ospeed() == OSPEED_MEDIUM,
            updated2(final(self).port.ospeedr, old(self).port.ospeedr, old(self).n as u32, OSPEED_MEDIUM),
            final(self).port == old(self).port.with_ospeedr(final(self).port.ospeedr),
    {
        proof {
            lemma_field_values();
        }
        self.port.set_ospeed_medium(self.n);
    }

    pub fn set_ospeed_high(&mut self)
        requires
            old(self).wf(),
        ensures
            final(self).n == old(self).n,
            final(self).ospeed() == OSPEED_HIGH,
            updated2(final(self).port.ospeedr, old(self).port.ospeedr, old(self).n as u32, OSPEED_HIGH),
            final(self).port == old(self).port.with_ospeedr(final(self).port.ospeedr),
    {
        proof {
            lemma_field_values();
        }
        self.port.set_ospeed_high(self.n);
    }

    pub fn set_ospeed_veryhigh(&mut self)
        requires
            old(self).wf(),
        ensures
            final(self).n == old(self).n,
            final(self).ospeed() == OSPEED_VERYHIGH,
            updated2(final(self).port.ospeedr, old(self).port.ospeedr, old(self).n as u32, OSPEED_VERYHIGH),
            final(self).port == old(self).port.with_ospeedr(final(self).port.ospeedr),
    {
        proof {
            lemma_field_values();
        }
        self.port.set_ospeed_veryhigh(self.n);
    }

    pub fn set_af(&mut self, af: u32)
        requires
            old(self).wf(),
        ensures
            final(self).n == old(self).n,
            old(self).port.af_set(final(self).port, old(self).n as u32, af),
            final(self).af() == af & 15,
    {
        self.port.set_af(self.n, af);
    }

    pub fn set_pull_floating(&mut self)
        requires
            old(self).wf(),
        ensures
            final(self).n == old(self).n,
            final(self).pull() == PULL_FLOATING,
            updated2(final(self).port.pupdr, old(self).port.pupdr, old(self).n as u32, PULL_FLOATING),
            final(self).port == old(self).port.with_pupdr(final(self).port.pupdr),
    {
        proof {
            lemma_field_values();
        }
        self.port.set_pull_floating(self.n);
    }

    pub fn set_pull_up(&mut self)
        requires
            old(self).wf(),
        ensures
            final(self).n == old(self).n,
            final(self).pull() == PULL_UP,
            updated2(final(self).port.pupdr, old(self).port.pupdr, old(self).n as u32, PULL_UP),
            final(self).port == old(self).port.with_pupdr(final(self).port.pupdr),
    {
        proof {
            lemma_field_values();
        }
        self.port.set_pull_up(self.n);
    }

    pub fn set_pull_down(&mut self)
        requires
            old(self).wf(),
        ensures
            final(self).n == old(self).n,
            final(self).pull() == PULL_DOWN,
            updated2(final(self).port.pupdr, old(self).port.pupdr, old(self).n as u32, PULL_DOWN),
            final(self).port == old(self).port.with_pupdr(final(self).port.pupdr),
    {
        proof {
            lemma_field_values();
        }
        self.port.set_pull_down(self.n);
    }
}

/// A line of `Pins`.
#[derive(PartialEq, Eq, Structural, Clone, Copy, Debug)]
pub enum DebugLine {
    Led,
    Swdi,
    Swdo,
    Swclk,
    Rst,
}

/// One configuration change on a line, with the value it writes.
#[derive(PartialEq, Eq, Structural, Clone, Copy, Debug)]
pub enum PinChange {
    Af(u32),
    OType(u32),
    OSpeed(u32),
    Mode(u32),
    Pull(u32),
    Level(PinState),
}

/// The debug lines and the status LED. Each line holds the registers of
/// its port as that line sees them, and every change touches only the
/// line's own bits, so lines that share a port combine by applying each
/// line's fields to the shared registers. `ops` records the changes made
/// through `Pins`, in order.
pub struct Pins {
    pub led: Pin,
    pub swdi: Pin,
    pub swdo: Pin,
    pub swclk: Pin,
    pub rst: Pin,
    pub ops: Vec<(DebugLine, PinChange)>,
}

impl Pins {
    pub open spec fn wf(&self) -> bool {
        &&& self.led.wf()
        &&& self.swdi.wf()
        &&& self.swdo.wf()
        &&& self.swclk.wf()
        &&& self.rst.wf()
    }

    /// The same lines, each on the same pin number.
    pub open spec fn same_pins(&self, other: Pins) -> bool {
        &&& self.led.n == other.led.n
        &&& self.swdi.n == other.swdi.n
        &&& self.swdo.n == other.swdo.n
        &&& self.swclk.n == other.swclk.n
        &&& self.rst.n == other.rst.n
    }

    /// Configures the debug lines: clock, data out and data in on the serial
    /// peripheral's alternate function at full speed, the clock pulled up,
    /// and reset an open-drain output released high.
    pub fn setup(&mut self)
        requires
            old(self).wf(),
        ensures
            final(self).wf(),
            final(self).same_pins(*old(self)),
            final(self).led == old(self).led,
            final(self).swclk.mode() == MODE_ALTERNATE,
            final(self).swclk.af() == 0,
            final(self).swclk.otype() == OTYPE_PUSHPULL,
            final(self).swclk.ospeed() == OSPEED_VERYHIGH,
            final(self).swclk.pull() == PULL_UP,
            final(self).rst.mode() == MODE_OUTPUT,
            final(self).rst.af() == 0,
            final(self).rst.otype() == OTYPE_OPENDRAIN,
            final(self).rst.ospeed() == OSPEED_VERYHIGH,
            final(self).rst.driven() == PinState::High,
            final(self).swdo.mode() == MODE_ALTERNATE,
            final(self).swdo.af() == 0,
            final(self).swdo.otype() == OTYPE_PUSHPULL,
            final(self).swdo.ospeed() == OSPEED_VERYHIGH,
            final(self).swdi.mode() == MODE_ALTERNATE,
            final(self).swdi.af() == 0,
            final(self).swdi.otype() == OTYPE_PUSHPULL,
            final(self).swdi.ospeed() == OSPEED_VERYHIGH,
            final(self).ops@ == old(self).ops@ + seq![
                (DebugLine::Swclk, PinChange::Af(0)),
                (DebugLine::Swclk, PinChange::OType(OTYPE_PUSHPULL)),
                (DebugLine::Swclk, PinChange::OSpeed(OSPEED_VERYHIGH)),
                (DebugLine::Swclk, PinChange::Mode(MODE_ALTERNATE)),
                (DebugLine::Swclk, PinChange::Pull(PULL_UP)),
                (DebugLine::Rst, PinChange::Af(0)),
                (DebugLine::Rst, PinChange::OType(OTYPE_PUSHPULL)),
                (DebugLine::Rst, PinChange::OSpeed(OSPEED_VERYHIGH)),
                (DebugLine::Rst, PinChange::OType(OTYPE_OPENDRAIN)),
                (DebugLine::Rst, PinChange::Level(PinState::High)),
                (DebugLine::Rst, PinChange::Mode(MODE_OUTPUT)),
                (DebugLine::Swdo, PinChange::Af(0)),
                (DebugLine::Swdo, PinChange::OType(OTYPE_PUSHPULL)),
                (DebugLine::Swdo, PinChange::OSpeed(OSPEED_VERYHIGH)),
                (DebugLine::Swdo, PinChange::Mode(MODE_ALTERNATE)),
                (DebugLine::Swdi, PinChange::Af(0)),
                (DebugLine::Swdi, PinChange::OType(OTYPE_PUSHPULL)),
                (DebugLine::Swdi, PinChange::OSpeed(OSPEED_VERYHIGH)),
                (DebugLine::Swdi, PinChange::Mode(MODE_INPUT)),
                (DebugLine::Swdi, PinChange::Mode(MODE_ALTERNATE)),
            ],
    {
        proof {
            lemma_field_values();
        }
        let ghost before = self.ops@;
        self.swclk.set_af(0);
        self.ops.push((DebugLine::Swclk, PinChange::Af(0)));
        self.swclk.set_otype_pushpull();
        self.ops.push((DebugLine::Swclk, PinChange::OType(OTYPE_PUSHPULL)));
        self.swclk.set_ospeed_veryhigh();
        self.ops.push((DebugLine::Swclk, PinChange::OSpeed(OSPEED_VERYHIGH)));
        self.swclk.set_mode_alternate();
        self.ops.push((DebugLine::Swclk, PinChange::Mode(MODE_ALTERNATE)));
        self.swclk.set_pull_up();
        self.ops.push((DebugLine::Swclk, PinChange::Pull(PULL_UP)));
        self.rst.set_af(0);
        self.ops.push((DebugLine::Rst, PinChange::Af(0)));
        self.rst.set_otype_pushpull();
        self.ops.push((DebugLine::Rst, PinChange::OType(OTYPE_PUSHPULL)));
        self.rst.set_ospeed_veryhigh();
        self.ops.push((DebugLine::Rst, PinChange::OSpeed(OSPEED_VERYHIGH)));
        self.rst.set_otype_opendrain();
        self.ops.push((DebugLine::Rst, PinChange::OType(OTYPE_OPENDRAIN)));
        self.rst.set_state(PinState::High);
        self.ops.push((DebugLine::Rst, PinChange::Level(PinState::High)));
        self.rst.set_mode_output();
        self.ops.push((DebugLine::Rst, PinChange::Mode(MODE_OUTPUT)));
        self.swdo.set_af(0);
        self.ops.push((DebugLine::Swdo, PinChange::Af(0)));
        self.swdo.set_otype_pushpull();
        self.ops.push((DebugLine::Swdo, PinChange::OType(OTYPE_PUSHPULL)));
        self.swdo.set_ospeed_veryhigh();
        self.ops.push((DebugLine::Swdo, PinChange::OSpeed(OSPEED_VERYHIGH)));
        self.swdo.set_mode_alternate();
        self.ops.push((DebugLine::Swdo, PinChange::Mode(MODE_ALTERNATE)));
        self.swdi.set_af(0);
        self.ops.push((DebugLine::Swdi, PinChange::Af(0)));
        self.swdi.set_otype_pushpull();
        self.ops.push((DebugLine::Swdi, PinChange::OType(OTYPE_PUSHPULL)));
        self.swdi.set_ospeed_veryhigh();
        self.ops.push((DebugLine::Swdi, PinChange::OSpeed(OSPEED_VERYHIGH)));
        self.swdi.set_mode_input();
        self.ops.push((DebugLine::Swdi, PinChange::Mode(MODE_INPUT)));
        self.swdi.set_mode_alternate();
        self.ops.push((DebugLine::Swdi, PinChange::Mode(MODE_ALTERNATE)));
        assert(self.ops@ =~= before + seq![
            (DebugLine::Swclk, PinChange::Af(0)),
            (DebugLine::Swclk, PinChange::OType(OTYPE_PUSHPULL)),
            (DebugLine::Swclk, PinChange::OSpeed(OSPEED_VERYHIGH)),
            (DebugLine::Swclk, PinChange::Mode(MODE_ALTERNATE)),
            (DebugLine::Swclk, PinChange::Pull(PULL_UP)),
            (DebugLine::Rst, PinChange::Af(0)),
            (DebugLine::Rst, PinChange::OType(OTYPE_PUSHPULL)),
            (DebugLine::Rst, PinChange::OSpeed(OSPEED_VERYHIGH)),
            (DebugLine::Rst, PinChange::OType(OTYPE_OPENDRAIN)),
            (DebugLine::Rst, PinChange::Level(PinState::High)),
            (DebugLine::Rst, PinChange::Mode(MODE_OUTPUT)),
            (DebugLine::Swdo, PinChange::Af(0)),
            (DebugLine::Swdo, PinChange::OType(OTYPE_PUSHPULL)),
            (DebugLine::Swdo, PinChange::OSpeed(OSPEED_VERYHIGH)),
            (DebugLine::Swdo, PinChange::Mode(MODE_ALTERNATE)),
            (DebugLine::Swdi, PinChange::Af(0)),
            (DebugLine::Swdi, PinChange::OType(OTYPE_PUSHPULL)),
            (DebugLine::Swdi, PinChange::OSpeed(OSPEED_VERYHIGH)),
            (DebugLine::Swdi, PinChange::Mode(MODE_INPUT)),
            (DebugLine::Swdi, PinChange::Mode(MODE_ALTERNATE)),
        ]);
    }

    /// Releases the data out line, so that the target drives the bus.
    pub fn swd_rx(&mut self)
        requires
            old(self).wf(),
        ensures
            final(self).swdo.mode() == MODE_INPUT,
            final(self).swdo.n == old(self).swdo.n,
            final(self).swdo.port == old(self).swdo.port.with_moder(final(self).swdo.port.moder),
            updated2(final(self).swdo.port.moder, old(self).swdo.port.moder, old(self).swdo.n as u32, MODE_INPUT),
            final(self).led == old(self).led,
            final(self).swdi == old(self).swdi,
            final(self).swclk == old(self).swclk,
            final(self).rst == old(self).rst,
            final(self).ops@ == old(self).ops@.push((DebugLine::Swdo, PinChange::Mode(MODE_INPUT))),
    {
        self.swdo.set_mode_input();
        self.ops.push((DebugLine::Swdo, PinChange::Mode(MODE_INPUT)));
    }

    /// Connects the data out line to the peripheral, so that the probe
    /// drives the bus.
    pub fn swd_tx(&mut self)
        requires
            old(self).wf(),
        ensures
            final(self).swdo.mode() == MODE_ALTERNATE,
            final(self).swdo.n == old(self).swdo.n,
            final(self).swdo.port == old(self).swdo.port.with_moder(final(self).swdo.port.moder),
            updated2(final(self).swdo.port.moder, old(self).swdo.port.moder, old(self).swdo.n as u32, MODE_ALTERNATE),
            final(self).led == old(self).led,
            final(self).swdi == old(self).swdi,
            final(self).swclk == old(self).swclk,
            final(self).rst == old(self).rst,
            final(self).ops@ == old(self).ops@.push((DebugLine::Swdo, PinChange::Mode(MODE_ALTERNATE))),
    {
        self.swdo.set_mode_alternate();
        self.ops.push((DebugLine::Swdo, PinChange::Mode(MODE_ALTERNATE)));
    }

    /// Hands the clock line to direct output, for driving it by hand.
    pub fn swd_clk_direct(&mut self)
        requires
            old(self).wf(),
        ensures
            final(self).swclk.mode() == MODE_OUTPUT,
            final(self).swclk.n == old(self).swclk.n,
            final(self).swclk.port == old(self).swclk.port.with_moder(final(self).swclk.port.moder),
            updated2(final(self).swclk.port.moder, old(self).swclk.port.moder, old(self).swclk.n as u32, MODE_OUTPUT),
            final(self).led == old(self).led,
            final(self).swdi == old(self).swdi,
            final(self).swdo == old(self).swdo,
            final(self).rst == old(self).rst,
            final(self).ops@ == old(self).ops@.push((DebugLine::Swclk, PinChange::Mode(MODE_OUTPUT))),
    {
        self.swclk.set_mode_output();
        self.ops.push((DebugLine::Swclk, PinChange::Mode(MODE_OUTPUT)));
    }

    /// Hands the clock line back to the serial peripheral.
    pub fn swd_clk_spi(&mut self)
        requires
            old(self).wf(),
        ensures
            final(self).swclk.mode() == MODE_ALTERNATE,
            final(self).swclk.n == old(self).swclk.n,
            final(self).swclk.port == old(self).swclk.port.with_moder(final(self).swclk.port.moder),
            updated2(final(self).swclk.port.moder, old(self).swclk.port.moder, old(self).swclk.n as u32, MODE_ALTERNATE),
            final(self).led == old(self).led,
            final(self).swdi == old(self).swdi,
            final(self).swdo == old(self).swdo,
            final(self).rst == old(self).rst,
            final(self).ops@ == old(self).ops@.push((DebugLine::Swclk, PinChange::Mode(MODE_ALTERNATE))),
    {
        self.swclk.set_mode_alternate();
        self.ops.push((DebugLine::Swclk, PinChange::Mode(MODE_ALTERNATE)));
    }
}

} // verus!
