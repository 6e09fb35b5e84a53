//! Transport layer of a USB debug probe: SWD bit encoding on a dual-lane
//! DDR serial peripheral, register models of the peripherals it drives, and
//! the mode and request dispatcher.

pub mod app;
pub mod dma;
pub mod gpio;
pub mod qspi;
pub mod rcc;
pub mod swd;
