use com_dispatch::{
    clsid_from_prog_id, co_create_dispatch, co_initialize, ErrorKind, ObjectRef,
};

const CO_E_NOTINITIALIZED: i32 = -2147221008;
const CO_E_CLASSSTRING: i32 = -2147221005;
const REGDB_E_CLASSNOTREG: i32 = -2147221164;

#[test]
fn initialisation_succeeds_or_names_its_failure() {
    assert_eq!(co_initialize(Ok(())), Ok(()));
    let err = co_initialize(Err(CO_E_NOTINITIALIZED)).unwrap_err();
    assert_eq!(err.kind, ErrorKind::SubsystemInitFailed);
    assert_eq!(err.message, "automation subsystem could not be initialized");
}

#[test]
fn class_resolution_succeeds_or_names_its_failure() {
    let clsid: u128 = 0x0002_4500_0000_0000_c000_0000_0000_0046;
    assert_eq!(clsid_from_prog_id(Ok(clsid)), Ok(clsid));
    let err = clsid_from_prog_id(Err(CO_E_CLASSSTRING)).unwrap_err();
    assert_eq!(err.kind, ErrorKind::ClassResolutionFailed);
    assert_eq!(err.message, "program identifier is not registered");
}

#[test]
fn object_creation_succeeds_or_names_its_failure() {
    let handle = co_create_dispatch(Ok(ObjectRef { id: 11 })).unwrap();
    assert_eq!(handle.get_dispatch(), ObjectRef { id: 11 });
    let err = co_create_dispatch(Err(REGDB_E_CLASSNOTREG)).unwrap_err();
    assert_eq!(err.kind, ErrorKind::ObjectCreationFailed);
    assert_eq!(err.message, "automation object could not be created");
}
