//! Inputs that can be polled.

use crate::error::Error;
use crate::units::quarters_text;
use crate::units::TemperatureCelcius;
use vstd::prelude::*;
use vstd::string::StringExecFns;

verus! {

/// A source of values of type `T`.
pub trait Input<T> {
    /// Takes the current value of the input.
    fn get(&mut self) -> Result<T, Error>;
}

/// The milliseconds between two polls of an input.
pub const POLL_INTERVAL_MS: u64 = 1000;

/// The line that reports the outcome of one poll: the degrees of a reading,
/// or the message of an error.
pub open spec fn report_text(outcome: Result<TemperatureCelcius, Error>) -> Seq<char> {
    match outcome {
        Ok(temp) => quarters_text(temp.payload().steps as nat),
        Err(err) => err.text(),
    }
}

/// Returns the line that reports the outcome of one poll.
pub fn report(outcome: &Result<TemperatureCelcius, Error>) -> (line: String)
    ensures
        line@ == report_text(*outcome),
{
    match outcome {
        Ok(temp) => temp.raw().to_text(),
        Err(err) => String::from_str(err.message()),
    }
}

} // verus!
