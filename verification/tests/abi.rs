use com_dispatch::invoke::{
    DEFAULT_LOCALE_ID, DISPATCH_METHOD, DISPATCH_PROPERTYGET, DISPATCH_PROPERTYPUT,
    DISPID_PROPERTYPUT, IID_NULL,
};
use com_dispatch::wire::{
    VT_BOOL, VT_BSTR, VT_DATE, VT_DISPATCH, VT_EMPTY, VT_I1, VT_I2, VT_I4, VT_I8, VT_NULL, VT_R4,
    VT_R8,
};
use com_dispatch::{Variant, WireValue};
use windows::Win32::Foundation::{VARIANT_BOOL, VARIANT_FALSE, VARIANT_TRUE};
use windows::Win32::System::Com;
use windows::Win32::System::Ole;
use windows::Win32::System::Variant as abi;

#[test]
fn type_tags_are_those_of_the_automation_abi() {
    assert_eq!(VT_EMPTY, abi::VT_EMPTY.0);
    assert_eq!(VT_NULL, abi::VT_NULL.0);
    assert_eq!(VT_I2, abi::VT_I2.0);
    assert_eq!(VT_I4, abi::VT_I4.0);
    assert_eq!(VT_R4, abi::VT_R4.0);
    assert_eq!(VT_R8, abi::VT_R8.0);
    assert_eq!(VT_DATE, abi::VT_DATE.0);
    assert_eq!(VT_BSTR, abi::VT_BSTR.0);
    assert_eq!(VT_DISPATCH, abi::VT_DISPATCH.0);
    assert_eq!(VT_BOOL, abi::VT_BOOL.0);
    assert_eq!(VT_I1, abi::VT_I1.0);
    assert_eq!(VT_I8, abi::VT_I8.0);
}

#[test]
fn invocation_constants_are_those_of_the_automation_abi() {
    assert_eq!(DISPATCH_METHOD, Com::DISPATCH_METHOD.0);
    assert_eq!(DISPATCH_PROPERTYGET, Com::DISPATCH_PROPERTYGET.0);
    assert_eq!(DISPATCH_PROPERTYPUT, Com::DISPATCH_PROPERTYPUT.0);
    assert_eq!(
        DISPATCH_METHOD | DISPATCH_PROPERTYGET,
        (Com::DISPATCH_METHOD | Com::DISPATCH_PROPERTYGET).0
    );
    assert_eq!(DISPID_PROPERTYPUT, Ole::DISPID_PROPERTYPUT);
    assert_eq!(IID_NULL, windows::core::GUID::zeroed().to_u128());
    assert_eq!(DEFAULT_LOCALE_ID, 0x0400);
}

#[test]
fn wire_booleans_are_those_of_the_automation_abi() {
    assert_eq!(Variant::from(true).to_variant(), WireValue::Bool(VARIANT_TRUE.0));
    assert_eq!(Variant::from(false).to_variant(), WireValue::Bool(VARIANT_FALSE.0));
    let raws: [i16; 5] = [i16::MIN, -1, 0, 1, i16::MAX];
    for raw in raws {
        let decoded = Variant::from_variant(WireValue::Bool(raw)).unwrap();
        assert_eq!(decoded.to_bool(), Ok(VARIANT_BOOL(raw).as_bool()));
    }
}
