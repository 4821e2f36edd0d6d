//! Session bootstrap: what becomes of the answers of the automation
//! subsystem when it is initialised, asked for a class and asked for an
//! object.
//!
//! The calls themselves are the driver's. It hands in what each call
//! returned, a value or a failure status, and gets back this crate's
//! result: the value, or the error that names the step that failed.

use vstd::prelude::*;
use crate::dispatch::{Dispatch, Handle};
use crate::error::{Error, ErrorKind};
use crate::wire::ObjectRef;

verus! {

/// The result of initialising the automation subsystem on this thread:
/// success, or `SubsystemInitFailed` where the subsystem reported a failure
/// status.
pub fn co_initialize(outcome: Result<(), i32>) -> (r: Result<(), Error>)
    ensures
        r is Ok <==> outcome is Ok,
        r matches Err(e) ==> e.kind == ErrorKind::SubsystemInitFailed && e.message@
            == e.kind.text(),
{
    match outcome {
        Ok(()) => Ok(()),
        Err(_) => Err(Error::new(ErrorKind::SubsystemInitFailed)),
    }
}

/// The result of resolving a program identifier: the class identifier that
/// the subsystem found, or `ClassResolutionFailed` where it reported a
/// failure status.
pub fn clsid_from_prog_id(outcome: Result<u128, i32>) -> (r: Result<u128, Error>)
    ensures
        r is Ok <==> outcome is Ok,
        r matches Ok(clsid) ==> outcome == Ok::<u128, i32>(clsid),
        r matches Err(e) ==> e.kind == ErrorKind::ClassResolutionFailed && e.message@
            == e.kind.text(),
{
    match outcome {
        Ok(clsid) => Ok(clsid),
        Err(_) => Err(Error::new(ErrorKind::ClassResolutionFailed)),
    }
}

/// The result of creating an object: a handle that owns the reference that
/// the subsystem returned, or `ObjectCreationFailed` where it reported a
/// failure status.
pub fn co_create_dispatch(outcome: Result<ObjectRef, i32>) -> (r: Result<Dispatch, Error>)
    ensures
        r is Ok <==> outcome is Ok,
        r matches Ok(handle) ==> outcome matches Ok(object) && handle@ == Handle::Owned(object),
        r matches Err(e) ==> e.kind == ErrorKind::ObjectCreationFailed && e.message@
            == e.kind.text(),
{
    match outcome {
        Ok(object) => Ok(Dispatch::new_with_dispatch(object)),
        Err(_) => Err(Error::new(ErrorKind::ObjectCreationFailed)),
    }
}

} // verus!
