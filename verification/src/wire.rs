//! The wire value: one automation value as it is exchanged with a foreign
//! object, described by its type tag and its payload.
//!
//! A value of [`WireValue`] is a description. The tagged union that it
//! describes, with its text buffer or interface pointer, is made and
//! destroyed by the driver that talks to the foreign object.

use vstd::prelude::*;
use windows::Win32::Foundation::VARIANT_BOOL;

verus! {

/// Type tag of a value that was never set.
pub const VT_EMPTY: u16 = 0;

/// Type tag of the null value.
pub const VT_NULL: u16 = 1;

/// Type tag of a 16-bit signed integer.
pub const VT_I2: u16 = 2;

/// Type tag of a 32-bit signed integer.
pub const VT_I4: u16 = 3;

/// Type tag of a 32-bit float.
pub const VT_R4: u16 = 4;

/// Type tag of a 64-bit float.
pub const VT_R8: u16 = 5;

/// Type tag of a date, a 64-bit float counting days.
pub const VT_DATE: u16 = 7;

/// Type tag of a text.
pub const VT_BSTR: u16 = 8;

/// Type tag of an object reference.
pub const VT_DISPATCH: u16 = 9;

/// Type tag of a boolean.
pub const VT_BOOL: u16 = 11;

/// Type tag of an 8-bit signed integer.
pub const VT_I1: u16 = 16;

/// Type tag of a 64-bit signed integer.
pub const VT_I8: u16 = 20;

/// Whether `tag` is one of the type tags that this crate decodes.
pub open spec fn is_supported_tag(tag: u16) -> bool {
    tag == VT_EMPTY || tag == VT_NULL || tag == VT_I2 || tag == VT_I4 || tag == VT_R4 || tag
        == VT_R8 || tag == VT_DATE || tag == VT_BSTR || tag == VT_DISPATCH || tag == VT_BOOL || tag
        == VT_I1 || tag == VT_I8
}

/// Names a foreign object reference that the driver holds. The number
/// means nothing to this crate: it is handed back to the driver unchanged.
#[derive(Clone, Copy, Debug, PartialEq, Eq, Structural)]
pub struct ObjectRef {
    pub id: u64,
}

/// One automation value in wire form. Each variant stands for a type tag
/// together with the member of the union that the tag selects, so tag and
/// payload cannot disagree.
///
/// Floats are carried as their IEEE-754 bit patterns.
#[derive(Debug, PartialEq, Eq)]
pub enum WireValue {
    Empty,
    Null,
    I2(i16),
    I4(i32),
    R4(u32),
    R8(u64),
    Date(u64),
    Bstr(String),
    Dispatch(ObjectRef),
    /// A boolean as the wire carries it: zero is false, anything else true.
    Bool(i16),
    I1(i8),
    I8(i64),
    /// A value whose payload this crate does not read; only its tag is kept.
    Other(u16),
}

/// The mathematical value of a [`WireValue`].
pub ghost enum WireData {
    Empty,
    Null,
    I2(i16),
    I4(i32),
    R4(u32),
    R8(u64),
    Date(u64),
    Bstr(Seq<char>),
    Dispatch(ObjectRef),
    Bool(i16),
    I1(i8),
    I8(i64),
    Other(u16),
}

impl WireData {
    /// The type tag that the value carries on the wire.
    pub open spec fn tag(self) -> u16 {
        match self {
            WireData::Empty => VT_EMPTY,
            WireData::Null => VT_NULL,
            WireData::I2(_) => VT_I2,
            WireData::I4(_) => VT_I4,
            WireData::R4(_) => VT_R4,
            WireData::R8(_) => VT_R8,
            WireData::Date(_) => VT_DATE,
            WireData::Bstr(_) => VT_BSTR,
            WireData::Dispatch(_) => VT_DISPATCH,
            WireData::Bool(_) => VT_BOOL,
            WireData::I1(_) => VT_I1,
            WireData::I8(_) => VT_I8,
            WireData::Other(tag) => tag,
        }
    }
}

impl View for WireValue {
    type V = WireData;

    open spec fn view(&self) -> WireData {
        match *self {
            WireValue::Empty => WireData::Empty,
            WireValue::Null => WireData::Null,
            WireValue::I2(v) => WireData::I2(v),
            WireValue::I4(v) => WireData::I4(v),
            WireValue::R4(v) => WireData::R4(v),
            WireValue::R8(v) => WireData::R8(v),
            WireValue::Date(v) => WireData::Date(v),
            WireValue::Bstr(s) => WireData::Bstr(s@),
            WireValue::Dispatch(r) => WireData::Dispatch(r),
            WireValue::Bool(v) => WireData::Bool(v),
            WireValue::I1(v) => WireData::I1(v),
            WireValue::I8(v) => WireData::I8(v),
            WireValue::Other(tag) => WireData::Other(tag),
        }
    }
}

impl WireValue {
    /// The type tag of the value.
    pub fn vt(&self) -> (tag: u16)
        ensures
            tag == self@.tag(),
    {
        match self {
            WireValue::Empty => VT_EMPTY,
            WireValue::Null => VT_NULL,
            WireValue::I2(_) => VT_I2,
            WireValue::I4(_) => VT_I4,
            WireValue::R4(_) => VT_R4,
            WireValue::R8(_) => VT_R8,
            WireValue::Date(_) => VT_DATE,
            WireValue::Bstr(_) => VT_BSTR,
            WireValue::Dispatch(_) => VT_DISPATCH,
            WireValue::Bool(_) => VT_BOOL,
            WireValue::I1(_) => VT_I1,
            WireValue::I8(_) => VT_I8,
            WireValue::Other(tag) => *tag,
        }
    }

    /// Whether the value is an object reference.
    pub fn is_dispatch(&self) -> (b: bool)
        ensures
            b == (self@ is Dispatch),
    {
        match self {
            WireValue::Dispatch(_) => true,
            _ => false,
        }
    }

    /// A second description of the same value. Nothing foreign is copied:
    /// whoever turns the copy into a tagged union allocates for it anew.
    pub fn duplicate(&self) -> (copy: WireValue)
        ensures
            copy@ == self@,
    {
        match self {
            WireValue::Empty => WireValue::Empty,
            WireValue::Null => WireValue::Null,
            WireValue::I2(v) => WireValue::I2(*v),
            WireValue::I4(v) => WireValue::I4(*v),
            WireValue::R4(v) => WireValue::R4(*v),
            WireValue::R8(v) => WireValue::R8(*v),
            WireValue::Date(v) => WireValue::Date(*v),
            WireValue::Bstr(s) => WireValue::Bstr(s.clone()),
            WireValue::Dispatch(r) => WireValue::Dispatch(*r),
            WireValue::Bool(v) => WireValue::Bool(*v),
            WireValue::I1(v) => WireValue::I1(*v),
            WireValue::I8(v) => WireValue::I8(*v),
            WireValue::Other(tag) => WireValue::Other(*tag),
        }
    }
}

/// The boolean that a raw wire boolean stands for.
pub open spec fn bool_of_raw(raw: i16) -> bool {
    raw != 0
}

/// The raw wire boolean that stands for a boolean: all bits set for true.
pub open spec fn raw_of_bool(value: bool) -> i16 {
    if value {
        -1i16
    } else {
        0i16
    }
}

/// Calls `VARIANT_BOOL::from(bool)` of the `windows` crate and hands out
/// the number inside the result. Trusted: the crate returns its constant
/// `VARIANT_TRUE`, which is -1, for `true` and `VARIANT_FALSE`, which is 0,
/// for `false`.
#[verifier::external_body]
pub(crate) fn variant_bool_from(value: bool) -> (raw: i16)
    ensures
        raw == raw_of_bool(value),
{
    VARIANT_BOOL::from(value).0
}

/// Calls `VARIANT_BOOL::as_bool` of the `windows` crate on the given raw
/// number. Trusted: the crate answers whether the number differs from zero.
#[verifier::external_body]
pub(crate) fn variant_bool_as_bool(raw: i16) -> (value: bool)
    ensures
        value == bool_of_raw(raw),
{
    VARIANT_BOOL(raw).as_bool()
}

} // verus!
