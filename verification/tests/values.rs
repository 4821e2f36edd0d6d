use com_dispatch::wire::{
    VT_BOOL, VT_BSTR, VT_DATE, VT_DISPATCH, VT_EMPTY, VT_I1, VT_I2, VT_I4, VT_I8, VT_NULL, VT_R4,
    VT_R8,
};
use com_dispatch::{Error, ErrorKind, ObjectRef, UnionedValue, Variant, WireValue};

fn round_trip(value: &Variant) -> Variant {
    Variant::from_variant(value.to_variant()).unwrap()
}

#[test]
fn empty_value_has_the_empty_tag() {
    let v = Variant::empty();
    assert_eq!(v.vt(), VT_EMPTY);
    assert_eq!(v.to_variant(), WireValue::Empty);
}

#[test]
fn unioned_default_is_an_eight_bit_zero() {
    assert_eq!(UnionedValue::default(), UnionedValue::I1(0));
}

#[test]
fn native_values_carry_their_tags() {
    assert_eq!(Variant::from(true).vt(), VT_BOOL);
    assert_eq!(Variant::from(5i8).vt(), VT_I1);
    assert_eq!(Variant::from(5i16).vt(), VT_I2);
    assert_eq!(Variant::from(5i32).vt(), VT_I4);
    assert_eq!(Variant::from(5i64).vt(), VT_I8);
    assert_eq!(Variant::from("text").vt(), VT_BSTR);
    assert_eq!(Variant::from(String::from("text")).vt(), VT_BSTR);
    assert_eq!(Variant::from_r4_bits(1.5f32.to_bits()).vt(), VT_R4);
    assert_eq!(Variant::from_r8_bits(1.5f64.to_bits()).vt(), VT_R8);
    assert_eq!(Variant::from_date_bits(45000.25f64.to_bits()).vt(), VT_DATE);
}

#[test]
fn true_goes_on_the_wire_as_all_bits_set() {
    assert_eq!(Variant::from(true).to_variant(), WireValue::Bool(-1));
    assert_eq!(Variant::from(false).to_variant(), WireValue::Bool(0));
}

#[test]
fn any_nonzero_wire_boolean_is_true() {
    assert_eq!(Variant::from_variant(WireValue::Bool(-1)).unwrap().to_bool(), Ok(true));
    assert_eq!(Variant::from_variant(WireValue::Bool(1)).unwrap().to_bool(), Ok(true));
    assert_eq!(Variant::from_variant(WireValue::Bool(5)).unwrap().to_bool(), Ok(true));
    assert_eq!(Variant::from_variant(WireValue::Bool(0)).unwrap().to_bool(), Ok(false));
}

#[test]
fn scalars_go_on_the_wire_unchanged() {
    assert_eq!(Variant::from(-7i8).to_variant(), WireValue::I1(-7));
    assert_eq!(Variant::from(-300i16).to_variant(), WireValue::I2(-300));
    assert_eq!(Variant::from(900i32).to_variant(), WireValue::I4(900));
    assert_eq!(Variant::from(1i64 << 40).to_variant(), WireValue::I8(1 << 40));
    assert_eq!(Variant::from_r4_bits(0x3fc0_0000).to_variant(), WireValue::R4(0x3fc0_0000));
    assert_eq!(
        Variant::from_r8_bits(0x3ff8_0000_0000_0000).to_variant(),
        WireValue::R8(0x3ff8_0000_0000_0000)
    );
    assert_eq!(
        Variant::from_date_bits(0x40e5_f900_0000_0000).to_variant(),
        WireValue::Date(0x40e5_f900_0000_0000)
    );
}

#[test]
fn text_is_copied_into_the_wire_value() {
    let v = Variant::from("My Test Sheet!");
    let first = v.to_variant();
    let second = v.to_variant();
    assert_eq!(first, WireValue::Bstr(String::from("My Test Sheet!")));
    assert_eq!(first, second);
    assert_eq!(v.to_text(), Ok(String::from("My Test Sheet!")));
}

#[test]
fn round_trip_keeps_every_scalar() {
    assert_eq!(round_trip(&Variant::from(true)), Variant::from(true));
    assert_eq!(round_trip(&Variant::from(false)), Variant::from(false));
    assert_eq!(round_trip(&Variant::from(i8::MIN)), Variant::from(i8::MIN));
    assert_eq!(round_trip(&Variant::from(i8::MAX)), Variant::from(i8::MAX));
    assert_eq!(round_trip(&Variant::from(i16::MIN)), Variant::from(i16::MIN));
    assert_eq!(round_trip(&Variant::from(i16::MAX)), Variant::from(i16::MAX));
    assert_eq!(round_trip(&Variant::from(i32::MIN)), Variant::from(i32::MIN));
    assert_eq!(round_trip(&Variant::from(i32::MAX)), Variant::from(i32::MAX));
    assert_eq!(round_trip(&Variant::from(i64::MIN)), Variant::from(i64::MIN));
    assert_eq!(round_trip(&Variant::from(i64::MAX)), Variant::from(i64::MAX));
    assert_eq!(round_trip(&Variant::from(0i32)), Variant::from(0i32));
}

#[test]
fn round_trip_keeps_floats_and_dates_bit_for_bit() {
    let single = Variant::from_r4_bits((-2.75f32).to_bits());
    let double = Variant::from_r8_bits(6.02e23f64.to_bits());
    let nan = Variant::from_r8_bits(f64::NAN.to_bits());
    let date = Variant::from_date_bits(45000.5f64.to_bits());
    assert_eq!(round_trip(&single).to_r4_bits(), Ok((-2.75f32).to_bits()));
    assert_eq!(round_trip(&double).to_r8_bits(), Ok(6.02e23f64.to_bits()));
    assert_eq!(round_trip(&nan).to_r8_bits(), Ok(f64::NAN.to_bits()));
    assert_eq!(round_trip(&date).to_r8_bits(), Ok(45000.5f64.to_bits()));
    assert_eq!(round_trip(&single).vt(), VT_R4);
    assert_eq!(round_trip(&double).vt(), VT_R8);
    assert_eq!(round_trip(&date).vt(), VT_DATE);
}

#[test]
fn round_trip_keeps_text_and_the_empty_value() {
    assert_eq!(round_trip(&Variant::from("héllo, wörld")), Variant::from("héllo, wörld"));
    assert_eq!(round_trip(&Variant::from("")), Variant::from(""));
    assert_eq!(round_trip(&Variant::empty()), Variant::empty());
}

#[test]
fn empty_and_null_both_decode_to_the_empty_value() {
    assert_eq!(Variant::from_variant(WireValue::Empty), Ok(Variant::empty()));
    assert_eq!(Variant::from_variant(WireValue::Null), Ok(Variant::empty()));
    assert_eq!(WireValue::Null.vt(), VT_NULL);
    assert_eq!(Variant::from_variant(WireValue::Null).unwrap().vt(), VT_EMPTY);
}

#[test]
fn a_date_decodes_as_a_date() {
    let v = Variant::from_variant(WireValue::Date(0x40e5_f900_0000_0000)).unwrap();
    assert_eq!(v.vt(), VT_DATE);
    assert_eq!(v.to_r8_bits(), Ok(0x40e5_f900_0000_0000));
}

#[test]
fn unsupported_tag_is_an_error_not_a_crash() {
    let tags: [u16; 6] = [6, 10, 12, 13, 17, 8192 + 3];
    for tag in tags {
        let err = Variant::from_variant(WireValue::Other(tag)).unwrap_err();
        assert_eq!(err.kind, ErrorKind::UnsupportedType(tag));
        assert_eq!(err.message, "unsupported variant type");
    }
}

#[test]
fn wire_values_report_their_tags() {
    assert_eq!(WireValue::Empty.vt(), 0);
    assert_eq!(WireValue::Null.vt(), 1);
    assert_eq!(WireValue::I2(0).vt(), 2);
    assert_eq!(WireValue::I4(0).vt(), 3);
    assert_eq!(WireValue::R4(0).vt(), 4);
    assert_eq!(WireValue::R8(0).vt(), 5);
    assert_eq!(WireValue::Date(0).vt(), 7);
    assert_eq!(WireValue::Bstr(String::new()).vt(), 8);
    assert_eq!(WireValue::Dispatch(ObjectRef { id: 1 }).vt(), 9);
    assert_eq!(WireValue::Bool(0).vt(), 11);
    assert_eq!(WireValue::I1(0).vt(), 16);
    assert_eq!(WireValue::I8(0).vt(), 20);
    assert_eq!(WireValue::Other(13).vt(), 13);
}

#[test]
fn duplicate_describes_the_same_value() {
    let text = WireValue::Bstr(String::from("abc"));
    assert_eq!(text.duplicate(), text);
    let object = WireValue::Dispatch(ObjectRef { id: 42 });
    assert_eq!(object.duplicate(), object);
    assert!(object.is_dispatch());
    assert!(!text.is_dispatch());
    assert!(!WireValue::Other(9).is_dispatch());
}

#[test]
fn to_i32_widens_the_small_integers() {
    assert_eq!(Variant::from(-1i8).to_i32(), Ok(-1));
    assert_eq!(Variant::from(i8::MIN).to_i32(), Ok(-128));
    assert_eq!(Variant::from(-300i16).to_i32(), Ok(-300));
    assert_eq!(Variant::from(123456i32).to_i32(), Ok(123456));
}

#[test]
fn to_i32_takes_a_wide_integer_only_where_it_fits() {
    assert_eq!(Variant::from(70000i64).to_i32(), Ok(70000));
    assert_eq!(Variant::from(i32::MAX as i64).to_i32(), Ok(i32::MAX));
    assert_eq!(Variant::from(i32::MIN as i64).to_i32(), Ok(i32::MIN));
    let over = Variant::from(i32::MAX as i64 + 1).to_i32().unwrap_err();
    assert_eq!(over.kind, ErrorKind::TypeMismatch { expected: VT_I4, actual: VT_I8 });
    let under = Variant::from(i32::MIN as i64 - 1).to_i32().unwrap_err();
    assert_eq!(under.kind, ErrorKind::TypeMismatch { expected: VT_I4, actual: VT_I8 });
}

#[test]
fn to_i32_refuses_what_is_no_integer() {
    let err = Variant::from(true).to_i32().unwrap_err();
    assert_eq!(err.kind, ErrorKind::TypeMismatch { expected: VT_I4, actual: VT_BOOL });
    assert_eq!(err.message, "variant does not hold the requested type");
    let err = Variant::from("12").to_i32().unwrap_err();
    assert_eq!(err.kind, ErrorKind::TypeMismatch { expected: VT_I4, actual: VT_BSTR });
    let err = Variant::empty().to_i32().unwrap_err();
    assert_eq!(err.kind, ErrorKind::TypeMismatch { expected: VT_I4, actual: VT_EMPTY });
    let err = Variant::from_r8_bits(0).to_i32().unwrap_err();
    assert_eq!(err.kind, ErrorKind::TypeMismatch { expected: VT_I4, actual: VT_R8 });
}

#[test]
fn typed_accessors_fail_on_another_type() {
    assert_eq!(
        Variant::from(1i32).to_bool().unwrap_err().kind,
        ErrorKind::TypeMismatch { expected: VT_BOOL, actual: VT_I4 }
    );
    assert_eq!(
        Variant::from(true).to_i64().unwrap_err().kind,
        ErrorKind::TypeMismatch { expected: VT_I8, actual: VT_BOOL }
    );
    assert_eq!(
        Variant::from(1i32).to_text().unwrap_err().kind,
        ErrorKind::TypeMismatch { expected: VT_BSTR, actual: VT_I4 }
    );
    assert_eq!(
        Variant::from(1i32).to_r4_bits().unwrap_err().kind,
        ErrorKind::TypeMismatch { expected: VT_R4, actual: VT_I4 }
    );
    assert_eq!(
        Variant::from_r4_bits(0).to_r8_bits().unwrap_err().kind,
        ErrorKind::TypeMismatch { expected: VT_R8, actual: VT_R4 }
    );
}

#[test]
fn to_i64_widens_every_integer() {
    assert_eq!(Variant::from(-1i8).to_i64(), Ok(-1));
    assert_eq!(Variant::from(-2i16).to_i64(), Ok(-2));
    assert_eq!(Variant::from(-3i32).to_i64(), Ok(-3));
    assert_eq!(Variant::from(i64::MIN).to_i64(), Ok(i64::MIN));
}

#[test]
fn object_value_keeps_its_wire_value() {
    let wire = WireValue::Dispatch(ObjectRef { id: 7 });
    let v = Variant::from_variant(wire).unwrap();
    assert_eq!(v.vt(), VT_DISPATCH);
    assert_eq!(v.get_raw_idispatch(), ObjectRef { id: 7 });
    assert_eq!(v.to_variant(), WireValue::Dispatch(ObjectRef { id: 7 }));
    assert_eq!(v.discard(), Some(WireValue::Dispatch(ObjectRef { id: 7 })));
}

#[test]
fn plain_values_keep_no_wire_value() {
    assert_eq!(Variant::from(true).discard(), None);
    assert_eq!(Variant::from("text").discard(), None);
    assert_eq!(Variant::empty().discard(), None);
    assert_eq!(Variant::from_variant(WireValue::I4(3)).unwrap().discard(), None);
}

#[test]
fn unwrapping_moves_the_wire_value_into_the_handle() {
    let v = Variant::from_variant(WireValue::Dispatch(ObjectRef { id: 9 })).unwrap();
    let handle = v.to_dispatch().unwrap();
    assert_eq!(handle.get_dispatch(), ObjectRef { id: 9 });
    let (owned, retained) = handle.discard();
    assert_eq!(owned, None);
    assert_eq!(retained, Some(WireValue::Dispatch(ObjectRef { id: 9 })));
}

#[test]
fn only_an_object_value_unwraps() {
    let err = Variant::from(true).to_dispatch().unwrap_err();
    assert_eq!(err.kind, ErrorKind::NotAnObjectReference);
    assert_eq!(err.message, "variant is not a dispatch");
    assert_eq!(
        Variant::from("x").to_dispatch().unwrap_err().kind,
        ErrorKind::NotAnObjectReference
    );
    assert_eq!(Variant::empty().to_dispatch().unwrap_err().kind, ErrorKind::NotAnObjectReference);
    assert_eq!(Variant::from(3i32).to_dispatch().unwrap_err().kind, ErrorKind::NotAnObjectReference);
}

#[test]
fn error_result_carries_the_message() {
    let e = Error::result("variant is not a dispatch");
    assert_eq!(e.kind(), ErrorKind::Other);
    assert_eq!(e.message(), "variant is not a dispatch");
    assert_eq!(Error::result("").message(), "");
}

#[test]
fn errors_of_a_kind_carry_its_message() {
    assert_eq!(Error::new(ErrorKind::NameNotFound).message(), "member name not found");
    assert_eq!(Error::new(ErrorKind::NameNotFound).kind(), ErrorKind::NameNotFound);
    let failed = ErrorKind::InvocationFailed { status: -2147352567, exception_info: None };
    assert_eq!(Error::new(failed).message(), "invocation failed");
    assert_eq!(Error::new(ErrorKind::Other).message(), "");
}
