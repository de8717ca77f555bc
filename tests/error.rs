use wasapi_stream::error::{
    hresult_error, stream_error_from_hresult, wait_failed_error, StreamError,
    AUDCLNT_E_DEVICE_INVALIDATED,
};

#[test]
fn success_codes_are_ok() {
    assert!(stream_error_from_hresult(0).is_ok());
    assert!(stream_error_from_hresult(1).is_ok());
    assert!(stream_error_from_hresult(143196161).is_ok());
}

#[test]
fn invalidated_device_is_not_available() {
    assert!(matches!(
        stream_error_from_hresult(AUDCLNT_E_DEVICE_INVALIDATED),
        Err(StreamError::DeviceNotAvailable)
    ));
    assert_eq!(AUDCLNT_E_DEVICE_INVALIDATED as u32, 0x8889_0004);
}

#[test]
fn other_failures_are_backend_specific() {
    assert!(matches!(
        stream_error_from_hresult(-2147467259),
        Err(StreamError::BackendSpecific { .. })
    ));
    assert!(matches!(hresult_error(-1), StreamError::BackendSpecific { .. }));
}

#[test]
fn backend_description_is_not_empty() {
    match hresult_error(-2147024809) {
        StreamError::BackendSpecific { err } => assert!(!err.description.is_empty()),
        _ => panic!("expected a backend error"),
    }
}

#[test]
fn wait_failure_description_carries_the_code() {
    match wait_failed_error(0) {
        StreamError::BackendSpecific { err } => {
            assert_eq!(err.description, "`WaitForMultipleObjectsEx failed: 0")
        }
        _ => panic!("expected a backend error"),
    }
    match wait_failed_error(4294967295) {
        StreamError::BackendSpecific { err } => {
            assert_eq!(err.description, "`WaitForMultipleObjectsEx failed: 4294967295")
        }
        _ => panic!("expected a backend error"),
    }
}
