use font::status::{
    check_error, str_from_i8, Completion, GlError, Target, WinError, WinResult, S_FALSE, S_OK,
};

#[test]
fn hresult_successes() {
    assert_eq!(S_OK.check(), Ok(Completion::Success));
    assert_eq!(S_FALSE.check(), Ok(Completion::NonStandard));
    assert_eq!(
        Completion::NonStandard.message(),
        "Successful but nonstandard completion (the precise meaning depends on context)."
    );
}

#[test]
fn hresult_errors_keep_bit_pattern() {
    let e = (0x887A0001u32 as i32).check().unwrap_err();
    assert_eq!(e, WinError { code: 0x887A0001 });
    assert_eq!(
        e.description(),
        Some("DXGI_ERROR_INVALID_CALL - The method call is invalid. For example, a method's parameter may not be a valid pointer.")
    );
    assert_eq!(2i32.check(), Err(WinError { code: 2 }));
    assert_eq!(WinError { code: 2 }.description(), None);
}

#[test]
fn hresult_first_listed_description_wins() {
    let e = WinError { code: 0x80070057 };
    assert_eq!(
        e.description(),
        Some("E_INVALIDARG - An invalid parameter was passed to the returning function.")
    );
    assert_eq!(
        WinError { code: 0x887A0005 }.description(),
        Some("DXGI_ERROR_DEVICE_REMOVED - The video card has been physically removed from the system, or a driver upgrade for the video card has occurred. The application should destroy and recreate the device.")
    );
}

#[test]
fn gl_error_codes() {
    assert_eq!(check_error(0), Ok(()));
    assert_eq!(check_error(0x0500), Err(GlError::InvalidEnum));
    assert_eq!(check_error(0x0501), Err(GlError::InvalidValue));
    assert_eq!(check_error(0x0502), Err(GlError::InvalidOperation));
    assert_eq!(check_error(0x0503), Err(GlError::StackOverflow));
    assert_eq!(check_error(0x0504), Err(GlError::StackUnderflow));
    assert_eq!(check_error(0x0505), Err(GlError::OutOfMemory));
    assert_eq!(check_error(0x0506), Err(GlError::InvalidFramebufferOperation));
    assert_eq!(check_error(7), Err(GlError::Unknown { code: 7 }));
    assert_eq!(GlError::OutOfMemory.name(), "OUT_OF_MEMORY");
    assert_eq!(GlError::InvalidFramebufferOperation.name(), "INVALID_FRAMEBUFFER_OPERATION");
}

#[test]
fn shader_profiles() {
    assert_eq!(Target::Vertex.profile(), "vs_5_0");
    assert_eq!(Target::Pixel.profile(), "ps_5_0");
    assert_eq!(Target::Fragment.profile(), "ps_5_0");
    assert_eq!(Target::Compute.profile(), "cs_5_0");
    assert_eq!(Target::Domain.profile(), "ds_5_0");
    assert_eq!(Target::Geometry.profile(), "gs_5_0");
    assert_eq!(Target::Hull.profile(), "hs_5_0");
}

#[test]
fn c_strings_stop_at_first_nul() {
    let name: Vec<i8> = b"GeForce\0junk\0".iter().map(|b| *b as i8).collect();
    assert_eq!(str_from_i8(&name), Some("GeForce".to_string()));
    assert_eq!(str_from_i8(&[0, 65, 0]), Some(String::new()));
    let accented: Vec<i8> = "caf\u{e9}\0".bytes().map(|b| b as i8).collect();
    assert_eq!(str_from_i8(&accented), Some("caf\u{e9}".to_string()));
    assert_eq!(str_from_i8(&[-1, 65, 0]), None);
}
