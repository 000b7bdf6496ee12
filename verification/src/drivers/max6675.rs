//! Driver for the MAX6675 thermocouple converter.
//!
//! The device answers a read with a frame of two bytes, the more significant
//! one first. Taken as one 16-bit number the frame holds:
//!
//! | mask     | content                                              |
//! |----------|------------------------------------------------------|
//! | `0x8000` | dummy bit, always clear                              |
//! | `0x7ff8` | the temperature, in quarters of a degree Celsius     |
//! | `0x0004` | set while no thermocouple is attached                |
//! | `0x0002` | device identification, always clear                  |
//! | `0x0001` | not driven                                           |

use super::spi::Spi;
use crate::decimal::append_decimal;
use crate::decimal::decimal;
use crate::error::Error;
use crate::error::ErrorKind;
use crate::io::Input;
use crate::units::Quarters;
use crate::units::TemperatureCelcius;
use vstd::prelude::*;
use vstd::string::StringExecFns;

verus! {

/// The number of bytes in a frame.
pub const FRAME_LEN: usize = 2;

/// The bits of a frame that the device never sets.
pub const RESERVED_MASK: u16 = 0x8002;

/// The bit of a frame that is set while no thermocouple is attached.
pub const FAULT_MASK: u16 = 0x0004;

/// The largest temperature field that a frame can hold.
pub const MAX_MAGNITUDE: u16 = 4095;

/// The frame made of the bytes `high` and `low`, as one number.
pub open spec fn frame_value(high: u8, low: u8) -> u16 {
    ((high as u16) << 8) | (low as u16)
}

/// Whether a frame keeps the bits clear that the device never sets.
pub open spec fn is_well_formed(value: u16) -> bool {
    value & RESERVED_MASK == 0
}

/// Whether a frame says that no thermocouple is attached.
pub open spec fn reports_fault(value: u16) -> bool {
    value & FAULT_MASK != 0
}

/// The temperature field of a frame: a count of quarter degrees.
pub open spec fn magnitude(value: u16) -> u16 {
    value >> 3
}

/// The two bytes, more significant first, of the frame that holds the
/// temperature field `magnitude` and nothing else.
pub open spec fn frame_of(magnitude: u16) -> (u8, u8) {
    (((magnitude << 3) >> 8) as u8, ((magnitude << 3) & 0xff) as u8)
}

/// The message of the error for a frame that is not well formed.
pub open spec fn validation_text(value: u16) -> Seq<char> {
    "MAX6675 input read from SPI failed validation. "@ + decimal(value as nat)
}

/// The message of the error for a frame that reports the fault.
pub open spec fn fault_text() -> Seq<char> {
    "MAX6675 thermocouple not attached"@
}

/// The message of the error for a read that failed.
pub open spec fn read_failed_text() -> Seq<char> {
    "Failed to read from SPI."@
}

/// The message of the error for a read that came back with less than a
/// frame.
pub open spec fn short_read_text() -> Seq<char> {
    "Incomplete frame read from SPI."@
}

/// Whether `outcome` is what the frame `value` decodes to.
///
/// A frame that is not well formed is a validation failure that carries the
/// frame, whatever its fault bit says. A well-formed frame with the fault bit
/// set is a sensor fault. Any other frame is the temperature in its
/// temperature field.
pub open spec fn decodes_to(value: u16, outcome: Result<TemperatureCelcius, Error>) -> bool {
    if !is_well_formed(value) {
        &&& outcome matches Err(e)
        &&& e.kind_of() == (ErrorKind::ValidationFailure { value })
        &&& e.text() == validation_text(value)
        &&& e.cause() is None
    } else if reports_fault(value) {
        &&& outcome matches Err(e)
        &&& e.kind_of() == ErrorKind::SensorFault
        &&& e.text() == fault_text()
        &&& e.cause() is None
    } else {
        &&& outcome matches Ok(t)
        &&& t.payload() == (Quarters { steps: magnitude(value) as u32 })
    }
}

/// Whether `outcome` is what a driver makes of `read`, the answer of the bus
/// to a request for one frame.
///
/// A failed read is a transport failure caused by the failure of the bus. An
/// answer shorter than a frame is a transport failure as well. Any other
/// answer is decoded from its first two bytes.
pub open spec fn interprets(
    read: Result<Vec<u8>, Error>,
    outcome: Result<TemperatureCelcius, Error>,
) -> bool {
    match read {
        Err(cause) => {
            &&& outcome matches Err(e)
            &&& e.kind_of() == ErrorKind::TransportFailure
            &&& e.text() == read_failed_text()
            &&& e.cause() == Some(cause)
        },
        Ok(buf) => if buf@.len() < FRAME_LEN {
            &&& outcome matches Err(e)
            &&& e.kind_of() == ErrorKind::TransportFailure
            &&& e.text() == short_read_text()
            &&& e.cause() is None
        } else {
            decodes_to(frame_value(buf@[0], buf@[1]), outcome)
        },
    }
}

/// Decodes one frame.
pub fn decode(frame: [u8; 2]) -> (outcome: Result<TemperatureCelcius, Error>)
    ensures
        decodes_to(frame_value(frame[0], frame[1]), outcome),
{
    let val: u16 = ((frame[0] as u16) << 8) | (frame[1] as u16);
    if val & RESERVED_MASK != 0 {
        let mut msg = String::from_str("MAX6675 input read from SPI failed validation. ");
        append_decimal(&mut msg, val as u32);
        Err(Error::new(ErrorKind::ValidationFailure { value: val }, msg.as_str()))
    } else if val & FAULT_MASK != 0 {
        Err(Error::new(ErrorKind::SensorFault, "MAX6675 thermocouple not attached"))
    } else {
        Ok(TemperatureCelcius::from(Quarters { steps: (val >> 3) as u32 }))
    }
}

/// Returns the frame that holds the temperature field `magnitude` and nothing
/// else.
pub fn encode(magnitude: u16) -> (frame: [u8; 2])
    requires
        magnitude <= MAX_MAGNITUDE,
    ensures
        frame[0] == frame_of(magnitude).0,
        frame[1] == frame_of(magnitude).1,
{
    assert(magnitude <= 4095 ==> (magnitude << 3) >> 8 <= 0xff) by (bit_vector);
    assert((magnitude << 3) & 0xff <= 0xff) by (bit_vector);
    let val: u16 = magnitude << 3;
    [(val >> 8) as u8, (val & 0xff) as u8]
}

/// Makes a reading of what the bus answered to a request for one frame.
pub fn interpret(read: Result<Vec<u8>, Error>) -> (outcome: Result<TemperatureCelcius, Error>)
    ensures
        interprets(read, outcome),
{
    match read {
        Ok(buf) => {
            if buf.len() < FRAME_LEN {
                Err(Error::new(ErrorKind::TransportFailure, "Incomplete frame read from SPI."))
            } else {
                decode([buf[0], buf[1]])
            }
        },
        Err(err) => Err(
            Error::new_with_source(ErrorKind::TransportFailure, "Failed to read from SPI.", err),
        ),
    }
}

/// The bus `spi` as the driver holds it.
pub open spec fn boxed<S: Spi + 'static>(spi: S) -> Box<dyn Spi> {
    let held: Box<dyn Spi> = Box::new(spi);
    held
}

/// A MAX6675 behind a bus.
pub struct Max6675 {
    spi: Box<dyn Spi>,
}

impl Max6675 {
    /// The bus that the driver reads from.
    pub closed spec fn bus(&self) -> Box<dyn Spi> {
        self.spi
    }

    /// Returns a driver for the device that `spi` reads from.
    pub fn new(spi: impl Spi + 'static) -> (driver: Self)
        ensures
            driver.bus() == boxed(spi),
    {
        Self { spi: Box::new(spi) }
    }
}

impl Input<TemperatureCelcius> for Max6675 {
    /// Asks the bus for one frame and makes a reading of the answer. The bus
    /// is asked once, whatever it answers.
    fn get(&mut self) -> (outcome: Result<TemperatureCelcius, Error>)
        ensures
            exists|read: Result<Vec<u8>, Error>| #[trigger] interprets(read, outcome),
    {
        let read = self.spi.read(FRAME_LEN);
        interpret(read)
    }
}

/// The frame of a temperature field is well formed, reports no fault and
/// holds that field.
pub proof fn lemma_frame_of(m: u16)
    requires
        m <= MAX_MAGNITUDE,
    ensures
        is_well_formed(frame_value(frame_of(m).0, frame_of(m).1)),
        !reports_fault(frame_value(frame_of(m).0, frame_of(m).1)),
        magnitude(frame_value(frame_of(m).0, frame_of(m).1)) == m,
{
    assert(m <= 4095 ==> (((((m << 3) >> 8) as u8) as u16) << 8) | ((((m << 3) & 0xff) as u8) as u16)
        == m << 3) by (bit_vector);
    assert(m <= 4095 ==> (m << 3) & 0x8002 == 0) by (bit_vector);
    assert(m <= 4095 ==> (m << 3) & 0x0004 == 0) by (bit_vector);
    assert(m <= 4095 ==> (m << 3) >> 3 == m) by (bit_vector);
}

/// Decoding the frame of a temperature field `m` succeeds and yields `m`
/// quarters of a degree, that is `m * 0.25` degrees.
pub proof fn lemma_decode_frame_of(m: u16, outcome: Result<TemperatureCelcius, Error>)
    requires
        m <= MAX_MAGNITUDE,
        decodes_to(frame_value(frame_of(m).0, frame_of(m).1), outcome),
    ensures
        outcome matches Ok(t) && t.payload().steps == m,
{
    lemma_frame_of(m);
}

/// The temperature field of a well-formed frame can be put into a frame of
/// its own and decoded from it again.
pub proof fn lemma_round_trip(value: u16, outcome: Result<TemperatureCelcius, Error>)
    requires
        is_well_formed(value),
        decodes_to(
            frame_value(frame_of(magnitude(value)).0, frame_of(magnitude(value)).1),
            outcome,
        ),
    ensures
        magnitude(value) <= MAX_MAGNITUDE,
        outcome matches Ok(t) && t.payload().steps == magnitude(value),
{
    assert(value & 0x8002 == 0 ==> value >> 3 <= 4095) by (bit_vector);
    lemma_decode_frame_of(magnitude(value), outcome);
}

/// Whether the bus failed or answered with less than a frame.
pub open spec fn is_failed_read(read: Result<Vec<u8>, Error>) -> bool {
    match read {
        Err(_) => true,
        Ok(buf) => buf@.len() < FRAME_LEN,
    }
}

/// Whether `outcome` is a transport failure.
pub open spec fn is_transport_failure(outcome: Result<TemperatureCelcius, Error>) -> bool {
    match outcome {
        Err(e) => e.kind_of() == ErrorKind::TransportFailure,
        Ok(_) => false,
    }
}

/// A reading fails as a transport failure exactly when the read failed or
/// came back with less than a frame.
pub proof fn lemma_transport_failure(
    read: Result<Vec<u8>, Error>,
    outcome: Result<TemperatureCelcius, Error>,
)
    requires
        interprets(read, outcome),
    ensures
        is_transport_failure(outcome) <==> is_failed_read(read),
{
}

} // verus!
