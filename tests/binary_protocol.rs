use dart_quic_ffi::binary_protocol::{
    DataPayload, DataType, MessageHeader, MessageSerializer, TaskEventMessage, TaskStatus,
    PROTOCOL_MAGIC, PROTOCOL_VERSION,
};

#[test]
fn test_message_sizes() {
    println!("MessageHeader size: {}", std::mem::size_of::<MessageHeader>());
    println!("DataPayload size: {}", std::mem::size_of::<DataPayload>());
    println!("TaskEventMessage size: {}", std::mem::size_of::<TaskEventMessage>());

    assert!(std::mem::align_of::<TaskEventMessage>() <= 8);
}

#[test]
fn test_message_creation() {
    let msg = TaskEventMessage::bool_data(123, true);
    assert!(msg.is_valid());
    assert_eq!(msg.header.task_id, 123);
    assert_eq!(msg.header.status, TaskStatus::SuccessWithData);
    assert_eq!(msg.header.data_type, DataType::Bool);
    assert!(msg.is_success());
    assert_eq!(msg.payload.bool_val(), Some(true));
}

#[test]
fn test_serialization() {
    let msg = TaskEventMessage::u64_data(456, 0xDEADBEEF12345678);
    let serialized = MessageSerializer::serialize(&msg);

    assert_eq!(serialized.len(), msg.total_size());
    assert_eq!(serialized.len(), 32);

    let deserialized = MessageSerializer::deserialize(&serialized).unwrap();
    assert!(deserialized.is_valid());
    assert_eq!(deserialized.header.task_id, 456);
    assert_eq!(deserialized.header.data_type, DataType::U64);
    assert_eq!(deserialized.payload.u64_val(), Some(0xDEADBEEF12345678));
}

#[test]
fn test_string_data() {
    let test_text = "Hello, Dart FFI Protocol!";
    let text_ptr: usize = 0x7f00_1000;
    let msg = TaskEventMessage::string_data(789, TaskStatus::SuccessWithData, text_ptr, test_text.len());

    assert!(msg.is_valid());
    assert_eq!(msg.header.task_id, 789);
    assert_eq!(msg.header.status, TaskStatus::SuccessWithData);
    assert_eq!(msg.header.data_type, DataType::String);
    assert!(msg.is_success());

    let text = msg.payload.string().unwrap();
    assert_eq!(text.len, test_text.len());
    assert_eq!(text.ptr, text_ptr);
}

#[test]
fn test_error_message_convenience() {
    let error_msg = "Something went wrong";
    let msg = TaskEventMessage::error_message(999, TaskStatus::UnknownError, 0x2000, error_msg.len());

    assert!(msg.is_valid());
    assert!(msg.is_error());
    assert_eq!(msg.header.task_id, 999);
    assert_eq!(msg.header.status, TaskStatus::UnknownError);
    assert_eq!(msg.header.data_type, DataType::String);
}

#[test]
fn test_zero_copy_design() {
    let test_data = vec![1u8, 2, 3, 4, 5];
    let data_ptr: usize = 0x5000;
    let data_len = test_data.len();

    let msg = TaskEventMessage::bytes_data(123, data_ptr, data_len);

    let serialized = MessageSerializer::serialize(&msg);
    assert_eq!(serialized.len(), 32);

    let bytes = msg.payload.bytes().unwrap();
    assert_eq!(bytes.ptr, data_ptr);
    assert_eq!(bytes.len, data_len);
    match MessageSerializer::get_data_pointer(&msg) {
        Some((ptr, len)) => {
            assert_eq!(ptr, data_ptr);
            assert_eq!(len, test_data.len());
        }
        None => panic!("Should be able to get data pointer"),
    }

    let test_string = "Zero copy string test";
    let string_msg = TaskEventMessage::string_data(456, TaskStatus::SuccessWithData, 0x6000, test_string.len());
    let string_serialized = MessageSerializer::serialize(&string_msg);

    assert_eq!(string_serialized.len(), 32);

    match MessageSerializer::get_data_pointer(&string_msg) {
        Some((ptr, len)) => {
            assert_eq!(ptr, 0x6000);
            assert_eq!(len, test_string.len());
        }
        None => panic!("Should be able to get string pointer"),
    }
}

fn round_trip(msg: TaskEventMessage) {
    let bytes = MessageSerializer::serialize(&msg);
    assert_eq!(bytes.len(), 32);
    assert_eq!(MessageSerializer::deserialize(&bytes), Some(msg));
}

#[test]
fn every_variant_round_trips() {
    round_trip(TaskEventMessage::no_data(1));
    round_trip(TaskEventMessage::bool_data(2, true));
    round_trip(TaskEventMessage::bool_data(3, false));
    round_trip(TaskEventMessage::u64_data(4, u64::MAX));
    round_trip(TaskEventMessage::bytes_data(5, 0xdead_beef, 77));
    round_trip(TaskEventMessage::string_data(6, TaskStatus::CorruptedData, 0x1234, 9));
    round_trip(TaskEventMessage::error_message(u64::MAX, TaskStatus::ProtocolError, 0x10, 3));
    round_trip(TaskEventMessage::shutdown_message());
}

#[test]
fn serialized_layout_is_little_endian() {
    let msg = TaskEventMessage::u64_data(0x0102030405060708, 0x1122334455667788);
    let b = MessageSerializer::serialize(&msg);
    assert_eq!(&b[0..4], &PROTOCOL_MAGIC.to_le_bytes());
    assert_eq!(b[4], PROTOCOL_VERSION);
    assert_eq!(b[5], 2);
    assert_eq!(&b[6..8], &[0x01, 0x00]);
    assert_eq!(&b[8..16], &[8, 7, 6, 5, 4, 3, 2, 1]);
    assert_eq!(&b[16..24], &[0x88, 0x77, 0x66, 0x55, 0x44, 0x33, 0x22, 0x11]);
    assert_eq!(&b[24..32], &[0u8; 8]);
}

#[test]
fn short_or_foreign_input_is_rejected() {
    let bytes = MessageSerializer::serialize(&TaskEventMessage::no_data(7));
    assert_eq!(MessageSerializer::deserialize(&bytes[..31]), None);
    assert_eq!(MessageSerializer::deserialize(&[]), None);

    let mut wrong_magic = bytes.clone();
    wrong_magic[0] ^= 0xff;
    assert_eq!(MessageSerializer::deserialize(&wrong_magic), None);

    let mut wrong_version = bytes.clone();
    wrong_version[4] = PROTOCOL_VERSION + 1;
    assert_eq!(MessageSerializer::deserialize(&wrong_version), None);

    let mut unknown_kind = bytes.clone();
    unknown_kind[5] = 9;
    assert_eq!(MessageSerializer::deserialize(&unknown_kind), None);

    let mut longer = bytes.clone();
    longer.extend_from_slice(&[0xaa; 8]);
    assert_eq!(MessageSerializer::deserialize(&longer), Some(TaskEventMessage::no_data(7)));
}

#[test]
fn status_classes() {
    assert!(TaskEventMessage::no_data(1).is_success());
    assert!(!TaskEventMessage::no_data(1).is_error());
    let shutdown = TaskEventMessage::shutdown_message();
    assert!(!shutdown.is_success());
    assert!(!shutdown.is_error());
    assert_eq!(shutdown.header.task_id, 0);
    assert_eq!(shutdown.header.status.code(), 0x0100);
    assert_eq!(TaskStatus::from_code(0xF002), Some(TaskStatus::VersionMismatch));
    assert_eq!(TaskStatus::from_code(0x1234), None);
    assert_eq!(MessageSerializer::get_data_pointer(&TaskEventMessage::bytes_data(1, 0, 5)), None);
    assert_eq!(MessageSerializer::get_data_pointer(&TaskEventMessage::bytes_data(1, 8, 0)), None);
    assert_eq!(MessageSerializer::get_data_pointer(&TaskEventMessage::u64_data(1, 8)), None);
}
