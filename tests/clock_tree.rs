use hs_probe::rcc::{Clocks, CoreFrequency};

#[test]
fn pll_settings_for_each_frequency() {
    let c = CoreFrequency::F48MHz.config();
    assert_eq!((c.pllm, c.plln, c.pllp, c.pllq, c.flash_latency), (25, 192, 1, 4, 1));
    assert_eq!((c.ppre1, c.ppre2, c.sysclk), (0, 0, 48_000_000));
    let c = CoreFrequency::F72MHz.config();
    assert_eq!((c.plln, c.pllp, c.pllq, c.flash_latency), (288, 1, 6, 2));
    assert_eq!((c.ppre1, c.ppre2, c.sysclk), (4, 0, 72_000_000));
    let c = CoreFrequency::F216MHz.config();
    assert_eq!((c.plln, c.pllp, c.pllq, c.flash_latency), (432, 0, 9, 7));
    assert_eq!((c.ppre1, c.ppre2, c.sysclk), (5, 4, 216_000_000));
}

#[test]
fn bus_clocks_follow_the_prescalers() {
    let c = Clocks::after_setup(CoreFrequency::F216MHz);
    assert_eq!((c.hclk(), c.pclk1(), c.pclk2()), (216_000_000, 216_000_000, 216_000_000));
    let c = Clocks::new(216_000_000, 0, 5, 4);
    assert_eq!((c.hclk(), c.pclk1(), c.pclk2()), (216_000_000, 54_000_000, 108_000_000));
    let c = Clocks::new(216_000_000, 0b1111, 0b111, 0b011);
    assert_eq!(c.hclk(), 421_875);
    assert_eq!(c.pclk1(), 26_367);
    assert_eq!(c.pclk2(), 421_875);
    let c = Clocks::new(48_000_000, 0b1100, 0, 0);
    assert_eq!(c.hclk(), 750_000);
}
