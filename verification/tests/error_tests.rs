use dx12_hal::error::{
    DeviceError, HResult, HResultError, E_INVALIDARG, E_NOTIMPL, E_OUTOFMEMORY, E_UNEXPECTED,
};

#[test]
fn status_constants_have_their_documented_bits() {
    assert_eq!(E_UNEXPECTED as u32, 0x8000_FFFF);
    assert_eq!(E_NOTIMPL as u32, 0x8000_4001);
    assert_eq!(E_OUTOFMEMORY as u32, 0x8007_000E);
    assert_eq!(E_INVALIDARG as u32, 0x8007_0057);
}

#[test]
fn non_negative_codes_are_success() {
    assert_eq!(0i32.into_result(), Ok(()));
    assert_eq!(1i32.into_result(), Ok(()));
    assert_eq!(i32::MAX.into_result(), Ok(()));
}

#[test]
fn named_failures_are_classified() {
    assert_eq!(E_UNEXPECTED.into_result(), Err(HResultError::Unexpected));
    assert_eq!(E_NOTIMPL.into_result(), Err(HResultError::NotImplemented));
    assert_eq!(E_OUTOFMEMORY.into_result(), Err(HResultError::OutOfMemory));
    assert_eq!(E_INVALIDARG.into_result(), Err(HResultError::InvalidArgument));
}

#[test]
fn other_failures_keep_their_code() {
    assert_eq!((-1i32).into_result(), Err(HResultError::Code(0xFFFF_FFFF)));
    assert_eq!(i32::MIN.into_result(), Err(HResultError::Code(0x8000_0000)));
    // E_FAIL
    assert_eq!((0x8000_4005u32 as i32).into_result(), Err(HResultError::Code(0x8000_4005)));
}

#[test]
fn descriptions_of_named_failures() {
    assert_eq!(HResultError::Unexpected.description(), "unexpected");
    assert_eq!(HResultError::NotImplemented.description(), "not implemented");
    assert_eq!(HResultError::OutOfMemory.description(), "out of memory");
    assert_eq!(HResultError::InvalidArgument.description(), "invalid argument");
}

#[test]
fn description_of_a_code_is_upper_case_hex() {
    assert_eq!(HResultError::Code(0xFFFF_FFFF).description(), "0xFFFFFFFF");
    assert_eq!(HResultError::Code(0x8000_4005).description(), "0x80004005");
    assert_eq!(HResultError::Code(0x887A_0005).description(), "0x887A0005");
    assert_eq!(HResultError::Code(0).description(), "0x0");
    assert_eq!(HResultError::Code(0xABC).description(), "0xABC");
    assert_eq!(HResultError::Code(16).description(), "0x10");
}

#[test]
fn description_matches_std_formatting() {
    for code in [1u32, 9, 10, 15, 255, 256, 0x1234_5678, 0x9ABC_DEF0, u32::MAX] {
        assert_eq!(HResultError::Code(code).description(), format!("0x{:X}", code));
    }
}

#[test]
fn device_result_tells_memory_from_loss() {
    assert_eq!(0i32.into_device_result("create"), Ok(()));
    assert_eq!(E_OUTOFMEMORY.into_device_result("create"), Err(DeviceError::OutOfMemory));
    assert_eq!(E_INVALIDARG.into_device_result("create"), Err(DeviceError::Lost));
    assert_eq!(E_UNEXPECTED.into_device_result("create"), Err(DeviceError::Lost));
    assert_eq!((-5i32).into_device_result("create"), Err(DeviceError::Lost));
}

#[test]
fn a_pair_hands_its_value_on() {
    assert_eq!((7u8, 0i32).into_result(), Ok(7u8));
    assert_eq!((7u8, E_NOTIMPL).into_result(), Err(HResultError::NotImplemented));
    assert_eq!(("heap", 3i32).into_device_result("create heap"), Ok("heap"));
    assert_eq!(
        ("heap", E_OUTOFMEMORY).into_device_result("create heap"),
        Err(DeviceError::OutOfMemory)
    );
    assert_eq!(("heap", -9i32).into_device_result("create heap"), Err(DeviceError::Lost));
}
