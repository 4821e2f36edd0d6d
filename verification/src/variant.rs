//! The dynamic value: an owned, type-tagged value and its conversion to and
//! from wire form.

use vstd::prelude::*;
use crate::dispatch::{Dispatch, Handle};
use crate::error::{Error, ErrorKind};
use crate::wire::{
    ObjectRef, WireData, WireValue, VT_BOOL, VT_BSTR, VT_DATE, VT_DISPATCH, VT_EMPTY, VT_I1, VT_I2,
    VT_I4, VT_I8, VT_NULL, VT_R4, VT_R8, bool_of_raw, is_supported_tag, raw_of_bool,
    variant_bool_as_bool, variant_bool_from,
};

verus! {

/// The scalar payload of a dynamic value.
#[derive(Clone, Copy, Debug, PartialEq, Eq, Structural)]
pub enum UnionedValue {
    Bool(bool),
    I1(i8),
    I2(i16),
    I4(i32),
    I8(i64),
    R4(u32),
    R8(u64),
}

impl UnionedValue {
    /// The payload of a value that has no scalar: an 8-bit zero.
    pub fn default() -> (value: UnionedValue)
        ensures
            value == UnionedValue::I1(0),
    {
        UnionedValue::I1(0)
    }
}

/// The mathematical value of a [`Variant`].
pub ghost enum Value {
    Empty,
    Bool(bool),
    I1(i8),
    I2(i16),
    I4(i32),
    I8(i64),
    R4(u32),
    R8(u64),
    Date(u64),
    Text(Seq<char>),
    Object(ObjectRef),
}

/// An owned, type-tagged value.
///
/// Of the three payloads exactly one belongs to the tag: the text for a
/// text, the retained wire value for an object reference, the scalar for
/// everything else. The retained wire value is what keeps the foreign
/// reference of an object value alive.
#[derive(Debug, PartialEq, Eq)]
pub struct Variant {
    vt: u16,
    str: Option<String>,
    unioned: UnionedValue,
    variant: Option<WireValue>,
}

impl Variant {
    #[verifier::type_invariant]
    spec fn inv(self) -> bool {
        &&& self.str is Some <==> self.vt == VT_BSTR
        &&& self.variant is Some <==> self.vt == VT_DISPATCH
        &&& self.variant matches Some(w) ==> w is Dispatch
        &&& match self.unioned {
            UnionedValue::Bool(_) => self.vt == VT_BOOL,
            UnionedValue::I1(v) => self.vt == VT_I1 || (v == 0 && (self.vt == VT_EMPTY || self.vt
                == VT_BSTR || self.vt == VT_DISPATCH)),
            UnionedValue::I2(_) => self.vt == VT_I2,
            UnionedValue::I4(_) => self.vt == VT_I4,
            UnionedValue::I8(_) => self.vt == VT_I8,
            UnionedValue::R4(_) => self.vt == VT_R4,
            UnionedValue::R8(_) => self.vt == VT_R8 || self.vt == VT_DATE,
        }
    }
}

impl View for Variant {
    type V = Value;

    closed spec fn view(&self) -> Value {
        if self.vt == VT_BSTR {
            match self.str {
                Some(s) => Value::Text(s@),
                None => Value::Empty,
            }
        } else if self.vt == VT_DISPATCH {
            match self.variant {
                Some(WireValue::Dispatch(r)) => Value::Object(r),
                _ => Value::Empty,
            }
        } else {
            match self.unioned {
                UnionedValue::Bool(v) => Value::Bool(v),
                UnionedValue::I1(v) => if self.vt == VT_I1 {
                    Value::I1(v)
                } else {
                    Value::Empty
                },
                UnionedValue::I2(v) => Value::I2(v),
                UnionedValue::I4(v) => Value::I4(v),
                UnionedValue::I8(v) => Value::I8(v),
                UnionedValue::R4(v) => Value::R4(v),
                UnionedValue::R8(v) => if self.vt == VT_DATE {
                    Value::Date(v)
                } else {
                    Value::R8(v)
                },
            }
        }
    }
}

impl Value {
    /// The type tag: the discriminant of the value.
    pub open spec fn tag(self) -> u16 {
        match self {
            Value::Empty => VT_EMPTY,
            Value::Bool(_) => VT_BOOL,
            Value::I1(_) => VT_I1,
            Value::I2(_) => VT_I2,
            Value::I4(_) => VT_I4,
            Value::I8(_) => VT_I8,
            Value::R4(_) => VT_R4,
            Value::R8(_) => VT_R8,
            Value::Date(_) => VT_DATE,
            Value::Text(_) => VT_BSTR,
            Value::Object(_) => VT_DISPATCH,
        }
    }

    /// The wire form of the value: the same tag, and the payload that the
    /// tag selects.
    pub open spec fn to_wire(self) -> WireData {
        match self {
            Value::Empty => WireData::Empty,
            Value::Bool(v) => WireData::Bool(raw_of_bool(v)),
            Value::I1(v) => WireData::I1(v),
            Value::I2(v) => WireData::I2(v),
            Value::I4(v) => WireData::I4(v),
            Value::I8(v) => WireData::I8(v),
            Value::R4(v) => WireData::R4(v),
            Value::R8(v) => WireData::R8(v),
            Value::Date(v) => WireData::Date(v),
            Value::Text(s) => WireData::Bstr(s),
            Value::Object(r) => WireData::Dispatch(r),
        }
    }

    /// The wire value that a dynamic value of this value keeps alive, and
    /// that has to be released when the dynamic value is given up.
    pub open spec fn retained(self) -> Option<WireData> {
        match self {
            Value::Object(r) => Some(WireData::Dispatch(r)),
            _ => None,
        }
    }

    /// The value as a 32-bit integer: the integers of 8, 16 and 32 bits
    /// widened, one of 64 bits where it fits.
    pub open spec fn as_i32(self) -> Result<i32, ErrorKind> {
        match self {
            Value::I1(v) => Ok(v as i32),
            Value::I2(v) => Ok(v as i32),
            Value::I4(v) => Ok(v),
            Value::I8(v) if i32::MIN <= v <= i32::MAX => Ok(v as i32),
            _ => Err(ErrorKind::TypeMismatch { expected: VT_I4, actual: self.tag() }),
        }
    }

    /// The value as a 64-bit integer: any of the integers, widened.
    pub open spec fn as_i64(self) -> Result<i64, ErrorKind> {
        match self {
            Value::I1(v) => Ok(v as i64),
            Value::I2(v) => Ok(v as i64),
            Value::I4(v) => Ok(v as i64),
            Value::I8(v) => Ok(v),
            _ => Err(ErrorKind::TypeMismatch { expected: VT_I8, actual: self.tag() }),
        }
    }

    /// The value as a boolean.
    pub open spec fn as_bool(self) -> Result<bool, ErrorKind> {
        match self {
            Value::Bool(v) => Ok(v),
            _ => Err(ErrorKind::TypeMismatch { expected: VT_BOOL, actual: self.tag() }),
        }
    }

    /// The value as a text.
    pub open spec fn as_text(self) -> Result<Seq<char>, ErrorKind> {
        match self {
            Value::Text(s) => Ok(s),
            _ => Err(ErrorKind::TypeMismatch { expected: VT_BSTR, actual: self.tag() }),
        }
    }

    /// The bit pattern of the value as a 32-bit float.
    pub open spec fn as_r4_bits(self) -> Result<u32, ErrorKind> {
        match self {
            Value::R4(v) => Ok(v),
            _ => Err(ErrorKind::TypeMismatch { expected: VT_R4, actual: self.tag() }),
        }
    }

    /// The bit pattern of the value as a 64-bit float: of a float, or of a
    /// date's count of days.
    pub open spec fn as_r8_bits(self) -> Result<u64, ErrorKind> {
        match self {
            Value::R8(v) => Ok(v),
            Value::Date(v) => Ok(v),
            _ => Err(ErrorKind::TypeMismatch { expected: VT_R8, actual: self.tag() }),
        }
    }
}

/// The value that a wire value decodes to. Empty and null both give the
/// empty value, a raw boolean gives its truth, and a tag outside the
/// supported ones is an error that names the tag.
pub open spec fn decode(wire: WireData) -> Result<Value, ErrorKind> {
    match wire {
        WireData::Empty => Ok(Value::Empty),
        WireData::Null => Ok(Value::Empty),
        WireData::I2(v) => Ok(Value::I2(v)),
        WireData::I4(v) => Ok(Value::I4(v)),
        WireData::R4(v) => Ok(Value::R4(v)),
        WireData::R8(v) => Ok(Value::R8(v)),
        WireData::Date(v) => Ok(Value::Date(v)),
        WireData::Bstr(s) => Ok(Value::Text(s)),
        WireData::Dispatch(r) => Ok(Value::Object(r)),
        WireData::Bool(raw) => Ok(Value::Bool(bool_of_raw(raw))),
        WireData::I1(v) => Ok(Value::I1(v)),
        WireData::I8(v) => Ok(Value::I8(v)),
        WireData::Other(tag) => Err(ErrorKind::UnsupportedType(tag)),
    }
}

/// The handle that a value unwraps to: one that borrows the reference of an
/// object value. No other value unwraps.
pub open spec fn unwrap_handle(value: Value) -> Result<Handle, ErrorKind> {
    match value {
        Value::Object(r) => Ok(Handle::Borrowed(r)),
        _ => Err(ErrorKind::NotAnObjectReference),
    }
}

/// Whether decoding keeps the wire value alive inside its result instead of
/// leaving it to be released: so it is for an object reference, and for
/// nothing else.
pub open spec fn decode_retains(wire: WireData) -> bool {
    wire is Dispatch
}

/// What a result says in terms of values: the value of a dynamic value, or
/// the kind of an error.
pub open spec fn outcome(r: Result<Variant, Error>) -> Result<Value, ErrorKind> {
    match r {
        Ok(v) => Ok(v@),
        Err(e) => Err(e.kind),
    }
}

impl Variant {
    /// The empty value.
    pub fn empty() -> (v: Variant)
        ensures
            v@ == Value::Empty,
    {
        Variant { vt: VT_EMPTY, str: None, unioned: UnionedValue::default(), variant: None }
    }

    fn new_with_string(str: String) -> (v: Variant)
        ensures
            v@ == Value::Text(str@),
    {
        Variant { vt: VT_BSTR, str: Some(str), unioned: UnionedValue::default(), variant: None }
    }

    fn new_with_variant(variant: WireValue) -> (v: Variant)
        requires
            variant is Dispatch,
        ensures
            decode(variant@) == Ok::<Value, ErrorKind>(v@),
    {
        Variant {
            vt: VT_DISPATCH,
            str: None,
            unioned: UnionedValue::default(),
            variant: Some(variant),
        }
    }

    fn new_with_unioned(vt: u16, value: UnionedValue) -> (v: Variant)
        requires
            scalar_tag_fits(vt, value),
        ensures
            v@ == scalar_value(vt, value),
    {
        Variant { vt, str: None, unioned: value, variant: None }
    }

    /// A 32-bit float, given by its bit pattern.
    pub fn from_r4_bits(bits: u32) -> (v: Variant)
        ensures
            v@ == Value::R4(bits),
    {
        Variant::new_with_unioned(VT_R4, UnionedValue::R4(bits))
    }

    /// A 64-bit float, given by its bit pattern.
    pub fn from_r8_bits(bits: u64) -> (v: Variant)
        ensures
            v@ == Value::R8(bits),
    {
        Variant::new_with_unioned(VT_R8, UnionedValue::R8(bits))
    }

    /// A date, given by the bit pattern of its count of days.
    pub fn from_date_bits(bits: u64) -> (v: Variant)
        ensures
            v@ == Value::Date(bits),
    {
        Variant::new_with_unioned(VT_DATE, UnionedValue::R8(bits))
    }

    /// The type tag of the value.
    pub fn vt(&self) -> (tag: u16)
        ensures
            tag == self@.tag(),
    {
        proof {
            use_type_invariant(self);
        }
        self.vt
    }

    /// Makes the wire value for an outgoing call. The result is new: a
    /// text is copied into it, and it shares nothing with `self`.
    pub fn to_variant(&self) -> (wire: WireValue)
        ensures
            wire@ == self@.to_wire(),
    {
        proof {
            use_type_invariant(self);
        }
        match &self.str {
            Some(s) => { return WireValue::Bstr(s.clone()); },
            None => {},
        }
        match &self.variant {
            Some(w) => { return w.duplicate(); },
            None => {},
        }
        match self.unioned {
            UnionedValue::Bool(v) => WireValue::Bool(variant_bool_from(v)),
            UnionedValue::I1(v) => if self.vt == VT_I1 {
                WireValue::I1(v)
            } else {
                WireValue::Empty
            },
            UnionedValue::I2(v) => WireValue::I2(v),
            UnionedValue::I4(v) => WireValue::I4(v),
            UnionedValue::I8(v) => WireValue::I8(v),
            UnionedValue::R4(v) => WireValue::R4(v),
            UnionedValue::R8(v) => if self.vt == VT_DATE {
                WireValue::Date(v)
            } else {
                WireValue::R8(v)
            },
        }
    }

    /// Decodes a wire value that a foreign object handed out.
    ///
    /// The tag is looked at before anything else. A scalar or a text is
    /// copied out, and `value` is then the caller's to release. An object
    /// reference is not copied: `value` itself is kept inside the result,
    /// so that the reference stays alive as long as the result does. A tag
    /// that is not supported gives `UnsupportedType`.
    pub fn from_variant(value: WireValue) -> (r: Result<Variant, Error>)
        ensures
            outcome(r) == decode(value@),
            r matches Err(e) ==> e.message@ == e.kind.text(),
    {
        match value {
            WireValue::Empty => Ok(Variant::empty()),
            WireValue::Null => Ok(Variant::empty()),
            WireValue::I2(v) => Ok(Variant::new_with_unioned(VT_I2, UnionedValue::I2(v))),
            WireValue::I4(v) => Ok(Variant::new_with_unioned(VT_I4, UnionedValue::I4(v))),
            WireValue::R4(v) => Ok(Variant::new_with_unioned(VT_R4, UnionedValue::R4(v))),
            WireValue::R8(v) => Ok(Variant::new_with_unioned(VT_R8, UnionedValue::R8(v))),
            WireValue::Date(v) => Ok(Variant::new_with_unioned(VT_DATE, UnionedValue::R8(v))),
            WireValue::Bstr(s) => Ok(Variant::new_with_string(s)),
            WireValue::Dispatch(r) => Ok(Variant::new_with_variant(WireValue::Dispatch(r))),
            WireValue::Bool(raw) => Ok(
                Variant::new_with_unioned(VT_BOOL, UnionedValue::Bool(variant_bool_as_bool(raw))),
            ),
            WireValue::I1(v) => Ok(Variant::new_with_unioned(VT_I1, UnionedValue::I1(v))),
            WireValue::I8(v) => Ok(Variant::new_with_unioned(VT_I8, UnionedValue::I8(v))),
            WireValue::Other(tag) => Err(Error::new(ErrorKind::UnsupportedType(tag))),
        }
    }

    /// Gives the value up. What comes back is the wire value that it kept
    /// alive, if it kept one: the caller has to release it.
    pub fn discard(self) -> (owed: Option<WireValue>)
        ensures
            owed is Some <==> self@.retained() is Some,
            owed matches Some(w) ==> self@.retained() == Some(w@),
    {
        proof {
            use_type_invariant(&self);
        }
        self.variant
    }

    /// Unwraps an object value into a handle. The wire value that `self`
    /// kept alive moves into the handle, and `self` is gone: from here on
    /// the handle alone leads to the reference, and the handle alone owes
    /// its release.
    pub fn to_dispatch(self) -> (r: Result<Dispatch, Error>)
        ensures
            r is Ok <==> unwrap_handle(self@) is Ok,
            r matches Ok(handle) ==> unwrap_handle(self@) == Ok::<Handle, ErrorKind>(handle@),
            r matches Err(e) ==> e.kind == ErrorKind::NotAnObjectReference && e.message@
                == e.kind.text(),
    {
        proof {
            use_type_invariant(&self);
        }
        match self.variant {
            Some(variant) => Ok(Dispatch::new_with_variant(variant)),
            None => Err(Error::new(ErrorKind::NotAnObjectReference)),
        }
    }

    /// The object reference that the value holds.
    pub fn get_raw_idispatch(&self) -> (object: ObjectRef)
        requires
            self@ is Object,
        ensures
            self@ == Value::Object(object),
    {
        proof {
            use_type_invariant(self);
        }
        match &self.variant {
            Some(WireValue::Dispatch(r)) => *r,
            _ => ObjectRef { id: 0 },
        }
    }

    /// The value as a 32-bit integer. The integers of 8, 16 and 32 bits are
    /// widened; one of 64 bits is taken where it fits and refused where it
    /// does not. Nothing is ever truncated.
    pub fn to_i32(&self) -> (r: Result<i32, Error>)
        ensures
            r is Ok <==> self@.as_i32() is Ok,
            r matches Ok(v) ==> self@.as_i32() == Ok::<i32, ErrorKind>(v),
            r matches Err(e) ==> self@.as_i32() == Err::<i32, ErrorKind>(e.kind) && e.message@
                == e.kind.text(),
    {
        proof {
            use_type_invariant(self);
        }
        match self.unioned {
            UnionedValue::I1(v) if self.vt == VT_I1 => Ok(v as i32),
            UnionedValue::I2(v) => Ok(v as i32),
            UnionedValue::I4(v) => Ok(v),
            UnionedValue::I8(v) if -0x8000_0000 <= v && v <= 0x7fff_ffff => Ok(v as i32),
            _ => Err(Error::new(ErrorKind::TypeMismatch { expected: VT_I4, actual: self.vt })),
        }
    }

    /// The value as a 64-bit integer: any of the integers, widened.
    pub fn to_i64(&self) -> (r: Result<i64, Error>)
        ensures
            r is Ok <==> self@.as_i64() is Ok,
            r matches Ok(v) ==> self@.as_i64() == Ok::<i64, ErrorKind>(v),
            r matches Err(e) ==> self@.as_i64() == Err::<i64, ErrorKind>(e.kind) && e.message@
                == e.kind.text(),
    {
        proof {
            use_type_invariant(self);
        }
        match self.unioned {
            UnionedValue::I1(v) if self.vt == VT_I1 => Ok(v as i64),
            UnionedValue::I2(v) => Ok(v as i64),
            UnionedValue::I4(v) => Ok(v as i64),
            UnionedValue::I8(v) => Ok(v),
            _ => Err(Error::new(ErrorKind::TypeMismatch { expected: VT_I8, actual: self.vt })),
        }
    }

    /// The value as a boolean.
    pub fn to_bool(&self) -> (r: Result<bool, Error>)
        ensures
            r is Ok <==> self@.as_bool() is Ok,
            r matches Ok(v) ==> self@.as_bool() == Ok::<bool, ErrorKind>(v),
            r matches Err(e) ==> self@.as_bool() == Err::<bool, ErrorKind>(e.kind) && e.message@
                == e.kind.text(),
    {
        proof {
            use_type_invariant(self);
        }
        match self.unioned {
            UnionedValue::Bool(v) => Ok(v),
            _ => Err(Error::new(ErrorKind::TypeMismatch { expected: VT_BOOL, actual: self.vt })),
        }
    }

    /// A copy of the text that the value holds.
    pub fn to_text(&self) -> (r: Result<String, Error>)
        ensures
            r is Ok <==> self@.as_text() is Ok,
            r matches Ok(s) ==> self@.as_text() == Ok::<Seq<char>, ErrorKind>(s@),
            r matches Err(e) ==> self@.as_text() == Err::<Seq<char>, ErrorKind>(e.kind)
                && e.message@ == e.kind.text(),
    {
        proof {
            use_type_invariant(self);
        }
        match &self.str {
            Some(s) => Ok(s.clone()),
            None => Err(Error::new(ErrorKind::TypeMismatch { expected: VT_BSTR, actual: self.vt })),
        }
    }

    /// The bit pattern of the 32-bit float that the value holds.
    pub fn to_r4_bits(&self) -> (r: Result<u32, Error>)
        ensures
            r is Ok <==> self@.as_r4_bits() is Ok,
            r matches Ok(v) ==> self@.as_r4_bits() == Ok::<u32, ErrorKind>(v),
            r matches Err(e) ==> self@.as_r4_bits() == Err::<u32, ErrorKind>(e.kind) && e.message@
                == e.kind.text(),
    {
        proof {
            use_type_invariant(self);
        }
        match self.unioned {
            UnionedValue::R4(v) => Ok(v),
            _ => Err(Error::new(ErrorKind::TypeMismatch { expected: VT_R4, actual: self.vt })),
        }
    }

    /// The bit pattern of the 64-bit float that the value holds, be it a
    /// plain float or a date.
    pub fn to_r8_bits(&self) -> (r: Result<u64, Error>)
        ensures
            r is Ok <==> self@.as_r8_bits() is Ok,
            r matches Ok(v) ==> self@.as_r8_bits() == Ok::<u64, ErrorKind>(v),
            r matches Err(e) ==> self@.as_r8_bits() == Err::<u64, ErrorKind>(e.kind) && e.message@
                == e.kind.text(),
    {
        proof {
            use_type_invariant(self);
        }
        match self.unioned {
            UnionedValue::R8(v) => Ok(v),
            _ => Err(Error::new(ErrorKind::TypeMismatch { expected: VT_R8, actual: self.vt })),
        }
    }
}

/// Whether a scalar payload is the one that the tag selects.
pub open spec fn scalar_tag_fits(vt: u16, value: UnionedValue) -> bool {
    match value {
        UnionedValue::Bool(_) => vt == VT_BOOL,
        UnionedValue::I1(_) => vt == VT_I1,
        UnionedValue::I2(_) => vt == VT_I2,
        UnionedValue::I4(_) => vt == VT_I4,
        UnionedValue::I8(_) => vt == VT_I8,
        UnionedValue::R4(_) => vt == VT_R4,
        UnionedValue::R8(_) => vt == VT_R8 || vt == VT_DATE,
    }
}

/// The value that a tag and the scalar payload it selects stand for.
pub open spec fn scalar_value(vt: u16, value: UnionedValue) -> Value {
    match value {
        UnionedValue::Bool(v) => Value::Bool(v),
        UnionedValue::I1(v) => Value::I1(v),
        UnionedValue::I2(v) => Value::I2(v),
        UnionedValue::I4(v) => Value::I4(v),
        UnionedValue::I8(v) => Value::I8(v),
        UnionedValue::R4(v) => Value::R4(v),
        UnionedValue::R8(v) => if vt == VT_DATE {
            Value::Date(v)
        } else {
            Value::R8(v)
        },
    }
}

/// Decoding the wire form of any value gives that value back: the tag and
/// the payload both survive the round trip. This holds of every scalar, and
/// of the empty value, a text and an object reference as well.
pub proof fn lemma_round_trip(value: Value)
    ensures
        decode(value.to_wire()) == Ok::<Value, ErrorKind>(value),
        value.to_wire().tag() == value.tag(),
{
}

/// Unwrapping an object value neither duplicates nor drops the release that
/// it owes. The value owes exactly one, that of the wire value it keeps
/// alive; the handle it unwraps to owes exactly that one and owns no
/// reference besides. Unwrapping consumes the value, so the release is owed
/// once, by the value or by the handle, never by both.
pub proof fn lemma_unwrap_moves_release(value: Value)
    requires
        value is Object,
    ensures
        value.retained() is Some,
        unwrap_handle(value) matches Ok(handle) && handle.retained() == value.retained()
            && handle.owned() is None,
{
}

/// A value that holds no object owes no release, and does not unwrap.
pub proof fn lemma_plain_value_owes_nothing(value: Value)
    requires
        !(value is Object),
    ensures
        value.retained() is None,
        unwrap_handle(value) == Err::<Handle, ErrorKind>(ErrorKind::NotAnObjectReference),
{
}

/// A wire value with a tag outside the supported ones never decodes: the
/// result is `UnsupportedType` with that tag.
pub proof fn lemma_unsupported_tag(wire: WireData)
    requires
        !is_supported_tag(wire.tag()),
    ensures
        decode(wire) == Err::<Value, ErrorKind>(ErrorKind::UnsupportedType(wire.tag())),
{
}

/// A boolean becomes a value tagged as boolean.
impl From<bool> for Variant {
    fn from(value: bool) -> (v: Variant)
        ensures
            v@ == Value::Bool(value),
    {
        Variant { vt: VT_BOOL, str: None, unioned: UnionedValue::Bool(value), variant: None }
    }
}

impl vstd::std_specs::convert::FromSpecImpl<bool> for Variant {
    open spec fn obeys_from_spec() -> bool {
        true
    }

    closed spec fn from_spec(value: bool) -> Variant {
        Variant { vt: VT_BOOL, str: None, unioned: UnionedValue::Bool(value), variant: None }
    }
}

/// An 8-bit integer becomes a value tagged as such.
impl From<i8> for Variant {
    fn from(value: i8) -> (v: Variant)
        ensures
            v@ == Value::I1(value),
    {
        Variant { vt: VT_I1, str: None, unioned: UnionedValue::I1(value), variant: None }
    }
}

impl vstd::std_specs::convert::FromSpecImpl<i8> for Variant {
    open spec fn obeys_from_spec() -> bool {
        true
    }

    closed spec fn from_spec(value: i8) -> Variant {
        Variant { vt: VT_I1, str: None, unioned: UnionedValue::I1(value), variant: None }
    }
}

/// A 16-bit integer becomes a value tagged as such.
impl From<i16> for Variant {
    fn from(value: i16) -> (v: Variant)
        ensures
            v@ == Value::I2(value),
    {
        Variant { vt: VT_I2, str: None, unioned: UnionedValue::I2(value), variant: None }
    }
}

impl vstd::std_specs::convert::FromSpecImpl<i16> for Variant {
    open spec fn obeys_from_spec() -> bool {
        true
    }

    closed spec fn from_spec(value: i16) -> Variant {
        Variant { vt: VT_I2, str: None, unioned: UnionedValue::I2(value), variant: None }
    }
}

/// A 32-bit integer becomes a value tagged as such.
impl From<i32> for Variant {
    fn from(value: i32) -> (v: Variant)
        ensures
            v@ == Value::I4(value),
    {
        Variant { vt: VT_I4, str: None, unioned: UnionedValue::I4(value), variant: None }
    }
}

impl vstd::std_specs::convert::FromSpecImpl<i32> for Variant {
    open spec fn obeys_from_spec() -> bool {
        true
    }

    closed spec fn from_spec(value: i32) -> Variant {
        Variant { vt: VT_I4, str: None, unioned: UnionedValue::I4(value), variant: None }
    }
}

/// A 64-bit integer becomes a value tagged as such.
impl From<i64> for Variant {
    fn from(value: i64) -> (v: Variant)
        ensures
            v@ == Value::I8(value),
    {
        Variant { vt: VT_I8, str: None, unioned: UnionedValue::I8(value), variant: None }
    }
}

impl vstd::std_specs::convert::FromSpecImpl<i64> for Variant {
    open spec fn obeys_from_spec() -> bool {
        true
    }

    closed spec fn from_spec(value: i64) -> Variant {
        Variant { vt: VT_I8, str: None, unioned: UnionedValue::I8(value), variant: None }
    }
}

/// A text becomes a value tagged as text, which owns it.
impl From<String> for Variant {
    fn from(value: String) -> (v: Variant)
        ensures
            v@ == Value::Text(value@),
    {
        Variant { vt: VT_BSTR, str: Some(value), unioned: UnionedValue::I1(0), variant: None }
    }
}

impl vstd::std_specs::convert::FromSpecImpl<String> for Variant {
    open spec fn obeys_from_spec() -> bool {
        true
    }

    closed spec fn from_spec(value: String) -> Variant {
        Variant { vt: VT_BSTR, str: Some(value), unioned: UnionedValue::I1(0), variant: None }
    }
}

/// A borrowed text is copied into a value tagged as text.
impl<'a> From<&'a str> for Variant {
    fn from(value: &'a str) -> (v: Variant)
        ensures
            v@ == Value::Text(value@),
    {
        Variant::new_with_string(value.to_owned())
    }
}

/// The copy that `from` makes of a borrowed text is equal to it in content
/// only, so no function of the text gives the result itself: what `from`
/// returns is stated in its own `ensures`.
impl<'a> vstd::std_specs::convert::FromSpecImpl<&'a str> for Variant {
    open spec fn obeys_from_spec() -> bool {
        false
    }

    closed spec fn from_spec(value: &'a str) -> Variant {
        Variant { vt: VT_BSTR, str: None, unioned: UnionedValue::I1(0), variant: None }
    }
}

} // verus!
