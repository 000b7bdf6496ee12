//! Interfaces to the peripherals and the drivers built on them.

pub mod gpio;
pub mod max6675;
pub mod spi;
