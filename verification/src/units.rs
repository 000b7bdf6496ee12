//! Values tagged with the physical quantity they measure and the unit they are
//! expressed in.
//!
//! The tags are types without state. Two values can be added only if both
//! tags agree; anything else does not type-check.

use std::marker::PhantomData;
use crate::decimal::append_decimal;
use crate::decimal::decimal;
use std::ops::Add;
use vstd::prelude::*;
use vstd::std_specs::ops::AddSpec;
use vstd::string::StringExecFns;

verus! {

/// Marks a type as the tag of a unit of measurement.
pub trait Unit {

}

/// Marks a type as the tag of a physical quantity.
pub trait Quantity {

}

/// A payload of type `T` that measures the quantity `Q` in the unit `U`.
pub struct Scalar<T, Q: Quantity, U: Unit> {
    value: T,
    q: PhantomData<Q>,
    u: PhantomData<U>,
}

impl<T, Q: Quantity, U: Unit> Scalar<T, Q, U> {
    /// The payload that the value carries.
    pub closed spec fn payload(&self) -> T {
        self.value
    }

    /// The value that carries `value` under the tags `Q` and `U`.
    pub closed spec fn from_raw(value: T) -> Self {
        Self { value, q: PhantomData, u: PhantomData }
    }

    /// The payload of `from_raw(value)` is `value`: tagging stores the payload
    /// as it is.
    pub proof fn lemma_from_raw_payload(value: T)
        ensures
            Self::from_raw(value).payload() == value,
    {
    }
}

impl<T: Add<Output = T>, Q: Quantity, U: Unit> vstd::std_specs::ops::AddSpecImpl for Scalar<T, Q, U> {
    open spec fn obeys_add_spec() -> bool {
        T::obeys_add_spec()
    }

    open spec fn add_req(self, rhs: Self) -> bool {
        self.payload().add_req(rhs.payload())
    }

    open spec fn add_spec(self, rhs: Self) -> Self {
        Self::from_raw(self.payload().add_spec(rhs.payload()))
    }
}

impl<T: Add<Output = T>, Q: Quantity, U: Unit> Add for Scalar<T, Q, U> {
    type Output = Self;

    /// Adds the payloads and keeps the tags.
    fn add(self, rhs: Self) -> (sum: Self)
        ensures
            T::obeys_add_spec() ==> sum.payload() == self.payload().add_spec(rhs.payload()),
    {
        Self { value: self.value + rhs.value, q: PhantomData, u: PhantomData }
    }
}

impl<T, Q: Quantity, U: Unit> vstd::std_specs::convert::FromSpecImpl<T> for Scalar<T, Q, U> {
    open spec fn obeys_from_spec() -> bool {
        true
    }

    open spec fn from_spec(value: T) -> Self {
        Self::from_raw(value)
    }
}

impl<T, Q: Quantity, U: Unit> From<T> for Scalar<T, Q, U> {
    /// Tags `value`. Every payload is accepted.
    fn from(value: T) -> (tagged: Self)
        ensures
            tagged.payload() == value,
    {
        Self { value, q: PhantomData, u: PhantomData }
    }
}

impl<T: Copy, Q: Quantity, U: Unit> Scalar<T, Q, U> {
    /// Returns the payload.
    pub fn raw(&self) -> (value: T)
        ensures
            value == self.payload(),
    {
        self.value
    }
}

/// The sum of two values with the same tags carries the sum of their
/// payloads.
pub proof fn lemma_add_adds_payloads<T: Add<Output = T>, Q: Quantity, U: Unit>(
    a: Scalar<T, Q, U>,
    b: Scalar<T, Q, U>,
)
    ensures
        a.add_spec(b).payload() == a.payload().add_spec(b.payload()),
{
}

/// An exact, non-negative number held as a count of quarters: the number is
/// `steps / 4`.
#[derive(Clone, Copy, Debug, PartialEq, Eq, Structural)]
pub struct Quarters {
    pub steps: u32,
}

/// The notation of the quarters left over beyond the whole units: nothing for
/// none, else a point and the decimal places.
pub open spec fn fraction_text(quarters: nat) -> Seq<char> {
    if quarters == 0 {
        Seq::empty()
    } else if quarters == 1 {
        ".25"@
    } else if quarters == 2 {
        ".5"@
    } else {
        ".75"@
    }
}

/// The decimal notation of `steps` quarters: the whole units, then the
/// fraction where there is one.
pub open spec fn quarters_text(steps: nat) -> Seq<char> {
    decimal(steps / 4) + fraction_text(steps % 4)
}

impl Quarters {
    /// Returns the number in decimal notation.
    pub fn to_text(&self) -> (text: String)
        ensures
            text@ == quarters_text(self.steps as nat),
    {
        let mut text = String::new();
        append_decimal(&mut text, self.steps / 4);
        let rest: u32 = self.steps % 4;
        if rest == 1 {
            text.append(".25");
        } else if rest == 2 {
            text.append(".5");
        } else if rest == 3 {
            text.append(".75");
        }
        assert(text@ =~= quarters_text(self.steps as nat));
        text
    }
}

impl vstd::std_specs::ops::AddSpecImpl for Quarters {
    open spec fn obeys_add_spec() -> bool {
        true
    }

    open spec fn add_req(self, rhs: Self) -> bool {
        self.steps + rhs.steps <= u32::MAX
    }

    open spec fn add_spec(self, rhs: Self) -> Self {
        Quarters { steps: (self.steps + rhs.steps) as u32 }
    }
}

impl Add for Quarters {
    type Output = Self;

    /// Adds the two counts.
    fn add(self, rhs: Self) -> (sum: Self) {
        Quarters { steps: self.steps + rhs.steps }
    }
}

/// Degrees Celsius.
pub struct Celcius;

/// Kelvin.
pub struct Kelvin;

/// Thermodynamic temperature.
pub struct Temperature;

impl Unit for Celcius {

}

impl Unit for Kelvin {

}

impl Quantity for Temperature {

}

/// A temperature in Kelvin, in quarters of a Kelvin.
pub type TemperatureKelvin = Scalar<Quarters, Temperature, Kelvin>;

/// A temperature in degrees Celsius, in quarters of a degree.
pub type TemperatureCelcius = Scalar<Quarters, Temperature, Celcius>;

/// Adding two Celsius temperatures adds their counts of quarter degrees,
/// whenever the sum of the counts fits the counter.
pub proof fn lemma_add_temperatures(a: TemperatureCelcius, b: TemperatureCelcius)
    requires
        a.payload().steps + b.payload().steps <= u32::MAX,
    ensures
        a.add_req(b),
        a.add_spec(b).payload().steps == a.payload().steps + b.payload().steps,
{
}

} // verus!
