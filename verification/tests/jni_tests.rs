use terminal_core::jni_safe::{from_jboolean, handle_to_ptr, ptr_to_handle, release_target, to_jboolean, JniErrorCode};

#[test]
fn test_error_codes() {
    assert_eq!(i32::from(JniErrorCode::Success), 0);
    assert_eq!(i32::from(JniErrorCode::NullPointer), -1);
    assert_eq!(i32::from(JniErrorCode::InvalidHandle), -2);
    assert_eq!(i32::from(JniErrorCode::JavaException), -3);
    assert_eq!(i32::from(JniErrorCode::InvalidUtf8), -4);
    assert_eq!(i32::from(JniErrorCode::InvalidArgument), -5);
    assert_eq!(i32::from(JniErrorCode::OutOfMemory), -6);
    assert_eq!(i32::from(JniErrorCode::PtyError), -7);
    assert_eq!(i32::from(JniErrorCode::VfsError), -8);
    assert_eq!(i32::from(JniErrorCode::IoError), -9);
    assert_eq!(i32::from(JniErrorCode::Unknown), -99);
}

#[test]
fn test_error_code_names() {
    assert_eq!(JniErrorCode::PtyError.name(), "PtyError");
    assert_eq!(JniErrorCode::Unknown.code(), -99);
}

#[test]
fn test_handle_roundtrip() {
    let addr: u64 = 0x7f00_1000;
    let handle = ptr_to_handle(addr);
    assert!(handle != 0);
    assert_eq!(handle_to_ptr::<i32>(handle), Ok(addr));
}

#[test]
fn test_null_handle() {
    let result = handle_to_ptr::<i32>(0);
    assert_eq!(result, Err(JniErrorCode::InvalidHandle));
}

#[test]
fn test_misaligned_handle_is_invalid() {
    assert_eq!(handle_to_ptr::<u64>(0x1001), Err(JniErrorCode::InvalidHandle));
    assert_eq!(handle_to_ptr::<u8>(0x1001), Ok(0x1001));
}

#[test]
fn test_jboolean_conversion() {
    assert_eq!(to_jboolean(true), 1);
    assert_eq!(to_jboolean(false), 0);
    assert!(from_jboolean(1));
    assert!(from_jboolean(255));
    assert!(!from_jboolean(0));
}

#[test]
fn test_handle_drop_null_is_noop() {
    assert!(release_target::<i32>(0).is_ok());
    assert_eq!(release_target::<i32>(0), Ok(None));
    assert_eq!(release_target::<u32>(0x2000), Ok(Some(0x2000)));
    assert_eq!(release_target::<u32>(0x2002), Err(JniErrorCode::InvalidHandle));
}
