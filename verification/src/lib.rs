//! Late-bound invocation of automation objects, without the I/O.
//!
//! The crate holds the marshaling rules and the invocation protocol of an
//! `IDispatch` client as plain data and pure functions: dynamic values and
//! their wire form, object handles and who releases what, and a step
//! function that tells a driver which foreign call to make next. The driver
//! owns every foreign pointer; this crate never touches one.

pub mod dispatch;
pub mod error;
pub mod invoke;
pub mod session;
pub mod trace;
pub mod variant;
pub mod wire;

pub use dispatch::Dispatch;
pub use error::{Error, ErrorKind, ExceptionInfo};
pub use invoke::{
    call_method, get_ids_of_names, get_property, put_property, Action, DispParams, Event, Failure,
    Invocation, InvokeRequest, NameLookup, Temporary,
};
pub use session::{clsid_from_prog_id, co_create_dispatch, co_initialize};
pub use variant::{UnionedValue, Variant};
pub use wire::{ObjectRef, WireValue};
