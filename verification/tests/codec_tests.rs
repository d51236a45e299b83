use wsipc::codec::{check_reply_type, decode_header, encode, MessageType, HEADER_LEN};
use wsipc::IpcError;

#[test]
fn encode_empty_payload_is_header_only() {
    let frame = encode(MessageType::GetOutputs, &Vec::new());
    assert_eq!(frame.len(), HEADER_LEN);
    // magic marker, then zero length, then type 3, all little-endian
    assert_eq!(&frame[0..6], &[105u8, 51, 45, 105, 112, 99]);
    assert_eq!(&frame[6..10], &[0u8, 0, 0, 0]);
    assert_eq!(&frame[10..14], &[3u8, 0, 0, 0]);
}

#[test]
fn encode_lays_out_payload_after_header() {
    let payload: Vec<u8> = b"workspace 3".to_vec();
    let frame = encode(MessageType::RunCommand, &payload);
    assert_eq!(frame.len(), HEADER_LEN + payload.len());
    assert_eq!(&frame[6..10], &[11u8, 0, 0, 0]);
    assert_eq!(&frame[10..14], &[0u8, 0, 0, 0]);
    assert_eq!(&frame[14..], payload.as_slice());
}

#[test]
fn round_trip_run_command() {
    let payload: Vec<u8> = b"move container to workspace 2".to_vec();
    let frame = encode(MessageType::RunCommand, &payload);
    let (len, code) = decode_header(&frame[0..14]).unwrap();
    assert_eq!(len as usize, payload.len());
    assert_eq!(code, 0);
}

#[test]
fn round_trip_each_message_type() {
    let types = [
        (MessageType::RunCommand, 0u32),
        (MessageType::GetWorkspaces, 1),
        (MessageType::Subscribe, 2),
        (MessageType::GetOutputs, 3),
    ];
    for (t, expected) in types {
        let frame = encode(t, &Vec::new());
        let (len, code) = decode_header(&frame[0..14]).unwrap();
        assert_eq!(len, 0);
        assert_eq!(code, expected);
    }
}

#[test]
fn round_trip_largest_small_payload() {
    let payload: Vec<u8> = vec![0xABu8; 65535];
    let frame = encode(MessageType::RunCommand, &payload);
    let (len, code) = decode_header(&frame[0..14]).unwrap();
    assert_eq!(len, 65535);
    assert_eq!(code, 0);
}

#[test]
fn decode_rejects_bad_magic() {
    let mut frame = encode(MessageType::GetWorkspaces, &Vec::new());
    frame[0] = b'x';
    assert_eq!(decode_header(&frame[0..14]), Err(IpcError::ProtocolMismatch));
}

#[test]
fn decode_rejects_wrong_marker_tail() {
    let mut frame = encode(MessageType::GetWorkspaces, &Vec::new());
    frame[5] = 0;
    assert_eq!(decode_header(&frame[0..14]), Err(IpcError::ProtocolMismatch));
}

#[test]
fn reply_type_must_echo_request_type() {
    assert!(check_reply_type(MessageType::GetOutputs, 3).is_ok());
    assert_eq!(
        check_reply_type(MessageType::GetOutputs, 1),
        Err(IpcError::ProtocolMismatch)
    );
}

#[test]
fn decode_does_not_validate_message_type() {
    let mut frame = encode(MessageType::GetOutputs, &Vec::new());
    frame[10] = 0xEE;
    frame[11] = 0xFF;
    let (len, code) = decode_header(&frame[0..14]).unwrap();
    assert_eq!(len, 0);
    assert_eq!(code, 0x0000FFEE);
}
