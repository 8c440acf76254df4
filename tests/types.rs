use dart_quic_ffi::error::QuicError;
use dart_quic_ffi::types::QuicResult;

#[test]
fn result_codes() {
    assert_eq!(QuicResult::from_i32(0), QuicResult::Success);
    assert_eq!(QuicResult::from_i32(102), QuicResult::ConnectionLost);
    assert_eq!(QuicResult::from_i32(206), QuicResult::NoMoreData);
    assert_eq!(QuicResult::from_i32(404), QuicResult::FormatError);
    assert_eq!(QuicResult::from_i32(999), QuicResult::UnknownError);
    assert_eq!(QuicResult::DatagramTooLarge.code(), 301);
    assert!(QuicResult::Success.is_success());
    assert!(QuicResult::HandshakeFailed.is_connection_error());
    assert!(!QuicResult::StreamReset.is_connection_error());
    assert!(QuicResult::StreamReset.is_stream_error());
    assert!(!QuicResult::Timeout.is_stream_error());
    assert_eq!(QuicResult::default(), QuicResult::Success);
}

#[test]
fn errors() {
    let e = QuicError::from_code(QuicResult::StreamClosed);
    assert_eq!(e.code(), QuicResult::StreamClosed);
    assert_eq!(e.code_value(), 201);
    assert_eq!(e.message(), None);
    assert!(!e.is_success());
    let u = QuicError::unknown("socket vanished".to_string());
    assert_eq!(u.code(), QuicResult::UnknownError);
    assert_eq!(u.message(), Some("socket vanished"));
    assert!(QuicError::from_code(QuicResult::Success).is_success());
}
