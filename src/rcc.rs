//! Clock tree: the PLL and bus prescaler settings for each supported core
//! frequency, and the bus frequencies that follow from the prescalers.

use vstd::prelude::*;

verus! {

/// The core frequencies that the clock tree can be set up for.
#[derive(PartialEq, Eq, Structural, Clone, Copy, Debug)]
pub enum CoreFrequency {
    F48MHz,
    F72MHz,
    F216MHz,
}

/// Register settings for one core frequency, from a 25 MHz bypassed
/// oscillator through the main PLL.
#[derive(PartialEq, Eq, Structural, Clone, Copy, Debug)]
pub struct ClockConfig {
    /// APB1 prescaler field while the PLL starts.
    pub ppre1: u32,
    /// APB2 prescaler field while the PLL starts.
    pub ppre2: u32,
    pub pllm: u32,
    pub plln: u32,
    /// PLLP field: 0 divides by 2, 1 by 4.
    pub pllp: u32,
    pub pllq: u32,
    /// Flash wait states.
    pub flash_latency: u32,
    /// The resulting system clock in Hz.
    pub sysclk: u32,
}

/// The PLL output `25 MHz / pllm * plln / p`, where `p` is what the PLLP
/// field selects.
pub open spec fn pll_output(c: ClockConfig) -> int {
    25_000_000int / (c.pllm as int) * (c.plln as int) / (2 * (c.pllp as int) + 2)
}

/// The register settings for each core frequency.
pub open spec fn clock_config(f: CoreFrequency) -> ClockConfig {
    match f {
        CoreFrequency::F48MHz => ClockConfig {
            ppre1: 0,
            ppre2: 0,
            pllm: 25,
            plln: 192,
            pllp: 1,
            pllq: 4,
            flash_latency: 1,
            sysclk: 48_000_000,
        },
        CoreFrequency::F72MHz => ClockConfig {
            ppre1: 4,
            ppre2: 0,
            pllm: 25,
            plln: 288,
            pllp: 1,
            pllq: 6,
            flash_latency: 2,
            sysclk: 72_000_000,
        },
        CoreFrequency::F216MHz => ClockConfig {
            ppre1: 5,
            ppre2: 4,
            pllm: 25,
            plln: 432,
            pllp: 0,
            pllq: 9,
            flash_latency: 7,
            sysclk: 216_000_000,
        },
    }
}

impl CoreFrequency {
    /// The register settings that give this core frequency; the PLL then
    /// runs at exactly the recorded system clock.
    pub fn config(&self) -> (c: ClockConfig)
        ensures
            c == clock_config(*self),
            c.sysclk == pll_output(c),
    {
        proof {
            assert(25_000_000int / 25 * 192 / 4 == 48_000_000) by (nonlinear_arith);
            assert(25_000_000int / 25 * 288 / 4 == 72_000_000) by (nonlinear_arith);
            assert(25_000_000int / 25 * 432 / 2 == 216_000_000) by (nonlinear_arith);
        }
        match self {
            CoreFrequency::F48MHz => ClockConfig {
                ppre1: 0b000,
                ppre2: 0b000,
                pllm: 25,
                plln: 192,
                pllp: 0b01,
                pllq: 4,
                flash_latency: 0b0001,
                sysclk: 48_000_000,
            },
            CoreFrequency::F72MHz => ClockConfig {
                ppre1: 0b100,
                ppre2: 0b000,
                pllm: 25,
                plln: 288,
                pllp: 0b01,
                pllq: 6,
                flash_latency: 0b0010,
                sysclk: 72_000_000,
            },
            CoreFrequency::F216MHz => ClockConfig {
                ppre1: 0b101,
                ppre2: 0b100,
                pllm: 25,
                plln: 432,
                pllp: 0b00,
                pllq: 9,
                flash_latency: 0b0111,
                sysclk: 216_000_000,
            },
        }
    }
}

/// The divisor that the AHB prescaler field `hpre` selects.
pub open spec fn ahb_divisor(hpre: u32) -> u32 {
    if hpre == 8 {
        2
    } else if hpre == 9 {
        4
    } else if hpre == 10 {
        8
    } else if hpre == 11 {
        16
    } else if hpre == 12 {
        64
    } else if hpre == 13 {
        128
    } else if hpre == 14 {
        256
    } else if hpre == 15 {
        512
    } else {
        1
    }
}

/// The divisor that an APB prescaler field `ppre` selects.
pub open spec fn apb_divisor(ppre: u32) -> u32 {
    if ppre == 4 {
        2
    } else if ppre == 5 {
        4
    } else if ppre == 6 {
        8
    } else if ppre == 7 {
        16
    } else {
        1
    }
}

/// The system clock and the bus prescaler fields that were in force when it
/// was taken.
#[derive(Clone, Copy, Debug)]
pub struct Clocks {
    sysclk: u32,
    hpre: u32,
    ppre1: u32,
    ppre2: u32,
}

impl Clocks {
    pub closed spec fn sysclk_spec(&self) -> u32 {
        self.sysclk
    }

    pub closed spec fn hpre_spec(&self) -> u32 {
        self.hpre
    }

    pub closed spec fn ppre1_spec(&self) -> u32 {
        self.ppre1
    }

    pub closed spec fn ppre2_spec(&self) -> u32 {
        self.ppre2
    }

    /// Records a system clock in Hz and the AHB, APB1 and APB2 prescaler
    /// fields read from the clock configuration register.
    pub fn new(sysclk: u32, hpre: u32, ppre1: u32, ppre2: u32) -> (c: Clocks)
        ensures
            c.sysclk_spec() == sysclk,
            c.hpre_spec() == hpre,
            c.ppre1_spec() == ppre1,
            c.ppre2_spec() == ppre2,
    {
        Clocks { sysclk, hpre, ppre1, ppre2 }
    }

    /// The clocks right after setup for `frequency`, which leaves every bus
    /// prescaler at divide-by-one.
    pub fn after_setup(frequency: CoreFrequency) -> (c: Clocks)
        ensures
            c.sysclk_spec() == clock_config(frequency).sysclk,
            c.hpre_spec() == 0,
            c.ppre1_spec() == 0,
            c.ppre2_spec() == 0,
    {
        let cfg = frequency.config();
        Clocks { sysclk: cfg.sysclk, hpre: 0, ppre1: 0, ppre2: 0 }
    }

    pub open spec fn hclk_spec(&self) -> u32 {
        self.sysclk_spec() / ahb_divisor(self.hpre_spec())
    }

    /// The AHB clock in Hz.
    pub fn hclk(&self) -> (f: u32)
        ensures
            f == self.hclk_spec(),
    {
        match self.hpre {
            0b1000 => self.sysclk / 2,
            0b1001 => self.sysclk / 4,
            0b1010 => self.sysclk / 8,
            0b1011 => self.sysclk / 16,
            0b1100 => self.sysclk / 64,
            0b1101 => self.sysclk / 128,
            0b1110 => self.sysclk / 256,
            0b1111 => self.sysclk / 512,
            _ => self.sysclk,
        }
    }

    /// The APB1 clock in Hz.
    pub fn pclk1(&self) -> (f: u32)
        ensures
            f == self.hclk_spec() / apb_divisor(self.ppre1_spec()),
    {
        let hclk = self.hclk();
        match self.ppre1 {
            0b100 => hclk / 2,
            0b101 => hclk / 4,
            0b110 => hclk / 8,
            0b111 => hclk / 16,
            _ => hclk,
        }
    }

    /// The APB2 clock in Hz.
    pub fn pclk2(&self) -> (f: u32)
        ensures
            f == self.hclk_spec() / apb_divisor(self.ppre2_spec()),
    {
        let hclk = self.hclk();
        match self.ppre2 {
            0b100 => hclk / 2,
            0b101 => hclk / 4,
            0b110 => hclk / 8,
            0b111 => hclk / 16,
            _ => hclk,
        }
    }
}

} // verus!
