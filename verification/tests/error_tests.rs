use patina_performance::error::{EfiError, Error};

#[test]
fn test_out_of_resources_display() {
    let error = Error::OutOfResources;
    let display = error.to_string();
    assert_eq!(display, "FBPT buffer full, can't add more performance records.");
}

#[test]
fn test_buffer_too_small_display() {
    let error = Error::BufferTooSmall;
    let display = error.to_string();
    assert_eq!(display, "Buffer to small to allocate FBPT table");
}

#[test]
fn test_efi_error_display() {
    let error = Error::Efi(EfiError::InvalidParameter);
    let display = error.to_string();
    assert!(display.contains("InvalidParameter"));
}

#[test]
fn test_serialization_display() {
    let error = Error::Serialization;
    let display = error.to_string();
    assert_eq!(display, "Failed to serialize performance data");
}

#[test]
fn test_record_too_large_display() {
    let error = Error::RecordTooLarge { size: 512 };
    let display = error.to_string();
    assert_eq!(display, "Performance record size 512 exceeds u8::MAX");
}

#[test]
fn test_debug_assert_display() {
    let error = Error::DebugAssert { msg: "test assertion", file: "test.rs", line: 42 };
    let display = error.to_string();
    assert_eq!(display, "Assertion at test.rs:42: test assertion");
}

#[test]
fn test_from_efi_error() {
    let efi_error = EfiError::OutOfResources;
    let error: Error = efi_error.into();
    match error {
        Error::Efi(EfiError::OutOfResources) => {}
        _ => panic!("Expected Error::Efi(OutOfResources)"),
    }
}

#[test]
fn test_debug_formatting() {
    let error = Error::OutOfResources;
    let debug = format!("{:?}", error);
    assert!(debug.contains("OutOfResources"));
}

#[test]
fn test_record_too_large_debug() {
    let error = Error::RecordTooLarge { size: 300 };
    let debug = format!("{:?}", error);
    assert!(debug.contains("RecordTooLarge"));
    assert!(debug.contains("300"));
}

#[test]
fn test_debug_assert_error_fields() {
    let error = Error::DebugAssert { msg: "bounds check", file: "module.rs", line: 123 };
    match error {
        Error::DebugAssert { msg, file, line } => {
            assert_eq!(msg, "bounds check");
            assert_eq!(file, "module.rs");
            assert_eq!(line, 123);
        }
        _ => panic!("Expected DebugAssert variant"),
    }
}

#[test]
fn test_efi_error_display_is_the_name_of_the_variant() {
    assert_eq!(Error::Efi(EfiError::InvalidParameter).to_string(), "InvalidParameter");
    assert_eq!(Error::Efi(EfiError::HttpError).to_string(), "HttpError");
    assert_eq!(Error::Efi(EfiError::LoadError).to_string(), "LoadError");
}

#[test]
fn test_efi_error_names_match_debug() {
    let all = [
        EfiError::LoadError,
        EfiError::InvalidParameter,
        EfiError::Unsupported,
        EfiError::BadBufferSize,
        EfiError::BufferTooSmall,
        EfiError::NotReady,
        EfiError::DeviceError,
        EfiError::WriteProtected,
        EfiError::OutOfResources,
        EfiError::VolumeCorrupted,
        EfiError::VolumeFull,
        EfiError::NoMedia,
        EfiError::MediaChanged,
        EfiError::NotFound,
        EfiError::AccessDenied,
        EfiError::NoResponse,
        EfiError::NoMapping,
        EfiError::Timeout,
        EfiError::NotStarted,
        EfiError::AlreadyStarted,
        EfiError::Aborted,
        EfiError::IcmpError,
        EfiError::TftpError,
        EfiError::ProtocolError,
        EfiError::IncompatibleVersion,
        EfiError::SecurityViolation,
        EfiError::CrcError,
        EfiError::EndOfMedia,
        EfiError::EndOfFile,
        EfiError::InvalidLanguage,
        EfiError::CompromisedData,
        EfiError::IpAddressConflict,
        EfiError::HttpError,
    ];
    for error in all {
        assert_eq!(error.as_str(), format!("{:?}", error));
    }
}

#[test]
fn test_efi_error_codes() {
    assert_eq!(EfiError::LoadError.code(), 1);
    assert_eq!(EfiError::InvalidParameter.code(), 2);
    assert_eq!(EfiError::OutOfResources.code(), 9);
    assert_eq!(EfiError::Aborted.code(), 21);
    assert_eq!(EfiError::EndOfMedia.code(), 28);
    assert_eq!(EfiError::EndOfFile.code(), 31);
    assert_eq!(EfiError::HttpError.code(), 35);
}

#[test]
fn test_decimal_in_messages() {
    assert_eq!(Error::RecordTooLarge { size: 0 }.to_string(), "Performance record size 0 exceeds u8::MAX");
    assert_eq!(Error::RecordTooLarge { size: 9 }.to_string(), "Performance record size 9 exceeds u8::MAX");
    assert_eq!(Error::RecordTooLarge { size: 10 }.to_string(), "Performance record size 10 exceeds u8::MAX");
    assert_eq!(
        Error::RecordTooLarge { size: 1234567890 }.to_string(),
        "Performance record size 1234567890 exceeds u8::MAX"
    );
    assert_eq!(
        Error::RecordTooLarge { size: usize::MAX }.to_string(),
        format!("Performance record size {} exceeds u8::MAX", usize::MAX)
    );
    assert_eq!(
        Error::DebugAssert { msg: "m", file: "f", line: u32::MAX }.to_string(),
        "Assertion at f:4294967295: m"
    );
}
