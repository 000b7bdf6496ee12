//! General purpose input and output as the drivers see it.

use crate::decimal::append_decimal;
use crate::decimal::decimal;
use crate::error::Error;
use crate::error::ErrorKind;
use vstd::prelude::*;
use vstd::string::StringExecFns;

verus! {

/// The level of a pin.
#[derive(Clone, Copy, Debug, PartialEq, Eq, Structural)]
pub enum State {
    Low,
    High,
}

/// A pin that can be driven.
pub trait OutputPin {
    /// Drives the pin to `state`.
    fn set(&mut self, state: State);
}

/// The message of the error for a controller that cannot be had.
pub open spec fn unavailable_text() -> Seq<char> {
    "Failed to acquire rppal Gpio instance."@
}

/// The message of the error for a pin that cannot be had.
pub open spec fn pin_unavailable_text(pin: u8) -> Seq<char> {
    "Failed to acquire pin "@ + decimal(pin as nat)
}

/// Returns the error that reports that the controller cannot be had, caused
/// by `cause`.
pub fn unavailable(cause: Error) -> (e: Error)
    ensures
        e.kind_of() == ErrorKind::TransportFailure,
        e.text() == unavailable_text(),
        e.cause() == Some(cause),
{
    Error::new_with_source(
        ErrorKind::TransportFailure,
        "Failed to acquire rppal Gpio instance.",
        cause,
    )
}

/// Returns the error that reports that the pin with the number `pin` cannot
/// be had, caused by `cause`.
pub fn pin_unavailable(pin: u8, cause: Error) -> (e: Error)
    ensures
        e.kind_of() == ErrorKind::TransportFailure,
        e.text() == pin_unavailable_text(pin),
        e.cause() == Some(cause),
{
    let mut msg = String::from_str("Failed to acquire pin ");
    append_decimal(&mut msg, pin as u32);
    Error::new_with_source(ErrorKind::TransportFailure, msg.as_str(), cause)
}

} // verus!
