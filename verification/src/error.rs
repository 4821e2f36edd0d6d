//! The errors of the invocation layer.

use vstd::prelude::*;

verus! {

/// What an automation object reported about an exception it raised during
/// an invocation.
#[derive(Clone, Copy, Debug, PartialEq, Eq, Structural)]
pub struct ExceptionInfo {
    /// The object's own error code (`wCode`).
    pub code: u16,
    /// The status the object asks to be returned (`scode`).
    pub scode: i32,
}

/// The ways an operation of this crate can fail.
#[derive(Clone, Copy, Debug, PartialEq, Eq, Structural)]
pub enum ErrorKind {
    /// The automation subsystem could not be initialised on this thread.
    SubsystemInitFailed,
    /// No class identifier is registered for the program identifier.
    ClassResolutionFailed,
    /// The automation server could not be activated.
    ObjectCreationFailed,
    /// The object has no member of the requested name.
    NameNotFound,
    /// The generic invocation primitive reported a failure.
    InvocationFailed { status: i32, exception_info: Option<ExceptionInfo> },
    /// A wire value carried a type tag that this crate does not decode.
    UnsupportedType(u16),
    /// A dynamic value that does not hold an object reference was asked
    /// for one.
    NotAnObjectReference,
    /// A typed accessor was called on a value of another type.
    TypeMismatch { expected: u16, actual: u16 },
    /// An error that carries nothing but its message.
    Other,
}

impl ErrorKind {
    /// The message that an error of this kind carries unless it was given
    /// one of its own.
    pub open spec fn text(self) -> Seq<char> {
        match self {
            ErrorKind::SubsystemInitFailed => "automation subsystem could not be initialized"@,
            ErrorKind::ClassResolutionFailed => "program identifier is not registered"@,
            ErrorKind::ObjectCreationFailed => "automation object could not be created"@,
            ErrorKind::NameNotFound => "member name not found"@,
            ErrorKind::InvocationFailed { .. } => "invocation failed"@,
            ErrorKind::UnsupportedType(_) => "unsupported variant type"@,
            ErrorKind::NotAnObjectReference => "variant is not a dispatch"@,
            ErrorKind::TypeMismatch { .. } => "variant does not hold the requested type"@,
            ErrorKind::Other => Seq::<char>::empty(),
        }
    }
}

/// An error of the invocation layer: its kind and a message for people.
#[derive(Debug, PartialEq, Eq)]
pub struct Error {
    pub kind: ErrorKind,
    pub message: String,
}

impl Error {
    /// An error that carries only `message`.
    pub fn result(message: &str) -> (e: Error)
        ensures
            e.kind == ErrorKind::Other,
            e.message@ == message@,
    {
        Error { kind: ErrorKind::Other, message: message.to_owned() }
    }

    /// An error of the given kind with that kind's standard message.
    pub fn new(kind: ErrorKind) -> (e: Error)
        ensures
            e.kind == kind,
            e.message@ == kind.text(),
    {
        let message = match kind {
            ErrorKind::SubsystemInitFailed => "automation subsystem could not be initialized".to_owned(),
            ErrorKind::ClassResolutionFailed => "program identifier is not registered".to_owned(),
            ErrorKind::ObjectCreationFailed => "automation object could not be created".to_owned(),
            ErrorKind::NameNotFound => "member name not found".to_owned(),
            ErrorKind::InvocationFailed { .. } => "invocation failed".to_owned(),
            ErrorKind::UnsupportedType(_) => "unsupported variant type".to_owned(),
            ErrorKind::NotAnObjectReference => "variant is not a dispatch".to_owned(),
            ErrorKind::TypeMismatch { .. } => "variant does not hold the requested type".to_owned(),
            ErrorKind::Other => String::new(),
        };
        Error { kind, message }
    }

    /// The kind of this error.
    pub fn kind(&self) -> (k: ErrorKind)
        ensures
            k == self.kind,
    {
        self.kind
    }

    /// The message of this error.
    pub fn message(&self) -> (m: &str)
        ensures
            m@ == self.message@,
    {
        self.message.as_str()
    }
}

} // verus!
