//! Drivers and typed quantities for polling a thermocouple converter over a
//! serial bus.

pub mod decimal;
pub mod drivers;
pub mod error;
pub mod io;
pub mod units;
