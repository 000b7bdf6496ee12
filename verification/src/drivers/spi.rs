//! The serial peripheral interface as the drivers see it.

use crate::error::Error;
use crate::error::ErrorKind;
use vstd::prelude::*;

verus! {

/// Clock polarity and phase of the bus.
#[derive(Clone, Copy, Debug, PartialEq, Eq, Structural)]
pub enum Mode {
    Mode0,
    Mode1,
    Mode2,
    Mode3,
}

/// The buses of the board.
#[derive(Clone, Copy, Debug, PartialEq, Eq, Structural)]
pub enum Bus {
    Spi0,
    Spi1,
    Spi2,
    Spi3,
    Spi4,
    Spi5,
    Spi6,
}

/// The chip select lines of a bus.
#[derive(Clone, Copy, Debug, PartialEq, Eq, Structural)]
pub enum Ce {
    Ce0,
    Ce1,
    Ce2,
}

/// A bus that can be read from.
///
/// Nothing is assumed of what an implementation hands back: a driver checks
/// the length of what it was given before it looks at it.
pub trait Spi {
    /// Reads `n` bytes from the bus. A read that cannot deliver `n` bytes
    /// fails.
    fn read(&mut self, n: usize) -> Result<Vec<u8>, Error>;
}

/// The message of the error for a bus that cannot be had.
pub open spec fn unavailable_text() -> Seq<char> {
    "Failed to acquire rppal SPI instance."@
}

/// Returns the error that reports that the bus cannot be had, caused by
/// `cause`.
pub fn unavailable(cause: Error) -> (e: Error)
    ensures
        e.kind_of() == ErrorKind::TransportFailure,
        e.text() == unavailable_text(),
        e.cause() == Some(cause),
{
    Error::new_with_source(
        ErrorKind::TransportFailure,
        "Failed to acquire rppal SPI instance.",
        cause,
    )
}

} // verus!
