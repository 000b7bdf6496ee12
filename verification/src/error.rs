//! The error type shared by the drivers.

use vstd::prelude::*;

verus! {

/// What went wrong while a reading was taken.
#[derive(Clone, Copy, Debug, PartialEq, Eq, Structural)]
pub enum ErrorKind {
    /// The bus could not deliver a complete frame.
    TransportFailure,
    /// The frame breaks the fixed bit pattern of the device; `value` is the
    /// frame as a 16-bit number.
    ValidationFailure { value: u16 },
    /// The frame is well formed and reports that no thermocouple is attached.
    SensorFault,
}

/// An error with a kind, a message and, optionally, the error that caused it.
#[derive(Debug)]
pub struct Error {
    kind: ErrorKind,
    msg: String,
    src: Option<Box<Error>>,
}

impl Error {
    /// The kind of the error.
    pub closed spec fn kind_of(&self) -> ErrorKind {
        self.kind
    }

    /// The message of the error, as a sequence of characters.
    pub closed spec fn text(&self) -> Seq<char> {
        self.msg@
    }

    /// The error that caused this one, if one was recorded.
    pub closed spec fn cause(&self) -> Option<Error> {
        match self.src {
            Some(b) => Some(*b),
            None => None,
        }
    }

    /// Returns an error of the given kind with the given message and no cause.
    pub fn new(kind: ErrorKind, msg: &str) -> (e: Self)
        ensures
            e.kind_of() == kind,
            e.text() == msg@,
            e.cause().is_none(),
    {
        Self { kind, msg: msg.to_owned(), src: None }
    }

    /// Returns an error of the given kind with the given message, caused by
    /// `src`.
    pub fn new_with_source(kind: ErrorKind, msg: &str, src: Error) -> (e: Self)
        ensures
            e.kind_of() == kind,
            e.text() == msg@,
            e.cause() == Some(src),
    {
        Self { kind, msg: msg.to_owned(), src: Some(Box::new(src)) }
    }

    /// Returns the kind of the error.
    pub fn kind(&self) -> (kind: ErrorKind)
        ensures
            kind == self.kind_of(),
    {
        self.kind
    }

    /// Returns the message of the error.
    pub fn message(&self) -> (msg: &str)
        ensures
            msg@ == self.text(),
    {
        self.msg.as_str()
    }

    /// Returns the error that caused this one, if one was recorded.
    pub fn source(&self) -> (src: Option<&Error>)
        ensures
            match src {
                Some(cause) => self.cause() == Some(*cause),
                None => self.cause().is_none(),
            },
    {
        match &self.src {
            None => None,
            Some(src) => Some(&**src),
        }
    }
}

} // verus!
