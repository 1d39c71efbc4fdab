use libtrader::common::message::inst::{CommandInst, DataTransferInst, ServerReturnInst};
use libtrader::common::message::message::Message;
use libtrader::common::message::message_builder::message_builder;
use libtrader::common::message::message_type::MessageType;
use libtrader::common::message::payload::{append_serialized, parse_fields, serialize_fields};
use libtrader::common::message::wire::{decode, decode_prefix, encode, DecodeError, HEADER_LEN};
use libtrader::common::misc::assert_msg::assert_msg;
use libtrader::common::misc::return_flags::ReturnFlags;

fn sample() -> Message {
    Message {
        message_type: MessageType::DataTransfer,
        instruction: -7,
        argument_count: 3,
        data_message_number: 1,
        data_message_max: 2,
        data: vec![1, 2, 3, 250],
    }
}

#[test]
fn encode_lays_out_every_field_little_endian() {
    let bytes = encode(&sample());
    let mut expected: Vec<u8> = Vec::new();
    expected.extend_from_slice(&[1, 0, 0, 0]);
    expected.extend_from_slice(&[0xf9, 0xff, 0xff, 0xff, 0xff, 0xff, 0xff, 0xff]);
    expected.extend_from_slice(&[3, 0, 0, 0, 0, 0, 0, 0]);
    expected.extend_from_slice(&[1, 0, 0, 0, 0, 0, 0, 0]);
    expected.extend_from_slice(&[2, 0, 0, 0, 0, 0, 0, 0]);
    expected.extend_from_slice(&[4, 0, 0, 0, 0, 0, 0, 0]);
    expected.extend_from_slice(&[1, 2, 3, 250]);
    assert_eq!(bytes, expected);
    assert_eq!(bytes.len(), HEADER_LEN + 4);
}

#[test]
fn encode_agrees_with_bincode_on_the_same_fields() {
    let message = sample();
    let by_bincode = bincode::serialize(&(
        1u32,
        message.instruction,
        message.argument_count as u64,
        message.data_message_number as u64,
        message.data_message_max as u64,
        message.data.clone(),
    ))
    .unwrap();
    assert_eq!(encode(&message), by_bincode);
}

#[test]
fn decode_gives_back_what_encode_took() {
    let frames = vec![
        sample(),
        Message::default(),
        Message::new(MessageType::Command, i64::MAX, usize::MAX, 0, usize::MAX, vec![0; 300]),
        Message::new(MessageType::ServerReturn, i64::MIN, 0, 7, 9, Vec::new()),
    ];
    for frame in frames {
        let bytes = encode(&frame);
        assert_eq!(decode(&bytes), Ok(frame));
    }
}

#[test]
fn decode_prefix_leaves_what_follows_the_frame() {
    let first = sample();
    let second = Message::default();
    let mut bytes = encode(&first);
    let first_len = bytes.len();
    bytes.extend_from_slice(&encode(&second));
    assert_eq!(decode_prefix(&bytes), Ok((first.clone(), first_len)));
    assert_eq!(decode(&bytes), Ok(first));
    assert_eq!(decode_prefix(&bytes[first_len..]), Ok((second, HEADER_LEN)));
}

#[test]
fn decode_refuses_truncated_input() {
    let bytes = encode(&sample());
    assert_eq!(decode(&[]), Err(DecodeError::Truncated));
    assert_eq!(decode(&bytes[..HEADER_LEN - 1]), Err(DecodeError::Truncated));
    assert_eq!(decode(&bytes[..bytes.len() - 1]), Err(DecodeError::Truncated));
    assert_eq!(decode(&bytes[..HEADER_LEN]), Err(DecodeError::Truncated));
}

#[test]
fn decode_refuses_an_unknown_message_type() {
    let mut bytes = encode(&sample());
    bytes[0] = 3;
    assert_eq!(decode(&bytes), Err(DecodeError::UnknownMessageType));
    bytes[0] = 1;
    bytes[3] = 1;
    assert_eq!(decode(&bytes), Err(DecodeError::UnknownMessageType));
}

#[test]
fn message_type_tags() {
    assert_eq!(MessageType::Command.tag(), 0);
    assert_eq!(MessageType::DataTransfer.tag(), 1);
    assert_eq!(MessageType::ServerReturn.tag(), 2);
    assert_eq!(MessageType::from_tag(0), Some(MessageType::Command));
    assert_eq!(MessageType::from_tag(1), Some(MessageType::DataTransfer));
    assert_eq!(MessageType::from_tag(2), Some(MessageType::ServerReturn));
    assert_eq!(MessageType::from_tag(3), None);
    assert_eq!(MessageType::default(), MessageType::Command);
}

#[test]
fn instruction_codes_are_distinct() {
    let codes = vec![
        ServerReturnInst::Rejected.code(),
        ServerReturnInst::Accepted.code(),
        CommandInst::Register.code(),
        CommandInst::GenHashSalt.code(),
        DataTransferInst::HashSalt.code(),
        DataTransferInst::GetUserTransactionHist.code(),
    ];
    assert_eq!(codes, vec![0, 1, 2, 3, 4, 5]);
}

#[test]
fn message_builder_serializes_each_field_in_order() {
    let fields = vec![vec![0xaa, 0xbb], Vec::new(), vec![7]];
    let message = message_builder(MessageType::Command, 2, 3, 0, 0, &fields).unwrap();
    assert_eq!(message.message_type, MessageType::Command);
    assert_eq!(message.instruction, 2);
    assert_eq!(message.argument_count, 3);
    assert_eq!(message.data_message_number, 0);
    assert_eq!(message.data_message_max, 0);
    assert_eq!(
        message.data,
        vec![
            2, 0, 0, 0, 0, 0, 0, 0, 0xaa, 0xbb, 0, 0, 0, 0, 0, 0, 0, 0, 1, 0, 0, 0, 0, 0, 0, 0, 7
        ]
    );
}

#[test]
fn message_builder_of_no_field_has_no_payload() {
    let message = message_builder(MessageType::ServerReturn, 1, 0, 0, 0, &Vec::new()).unwrap();
    assert_eq!(message, Message::new(MessageType::ServerReturn, 1, 0, 0, 0, Vec::new()));
}

#[test]
fn serialized_field_is_not_the_field_itself() {
    let field = vec![9u8, 8, 7];
    let data = serialize_fields(&vec![field.clone()]).unwrap();
    assert_ne!(data, field);
    assert_eq!(data, vec![3, 0, 0, 0, 0, 0, 0, 0, 9, 8, 7]);
}

#[test]
fn append_serialized_reports_a_field_that_did_not_serialize() {
    let mut data = vec![1u8, 2];
    let failed = Err(Box::new(bincode::ErrorKind::SizeLimit));
    assert_eq!(append_serialized(&mut data, failed), Err(ReturnFlags::CommonMessageBuildFailed));
    assert_eq!(data, vec![1, 2]);
    assert_eq!(append_serialized(&mut data, Ok(vec![3, 4])), Ok(()));
    assert_eq!(data, vec![1, 2, 3, 4]);
}

#[test]
fn parse_fields_gives_back_the_fields() {
    let fields = vec![vec![1u8; 64], vec![2u8; 32], Vec::new(), b"alice".to_vec()];
    let data = serialize_fields(&fields).unwrap();
    assert_eq!(parse_fields(&data, 4), Some(fields));
}

#[test]
fn parse_fields_wants_exactly_the_fields_asked_for() {
    let fields = vec![vec![1u8, 2], vec![3u8]];
    let data = serialize_fields(&fields).unwrap();
    assert_eq!(parse_fields(&data, 1), None);
    assert_eq!(parse_fields(&data, 3), None);
    assert_eq!(parse_fields(&data[..data.len() - 1], 2), None);
    assert_eq!(parse_fields(&data[..9], 1), None);
    assert_eq!(parse_fields(&[], 0), Some(Vec::new()));
    assert_eq!(parse_fields(&[0], 0), None);
    assert_eq!(parse_fields(&[0xff; 8], 1), None);
}

#[test]
fn register_frame_round_trip() {
    let fields = vec![
        vec![1u8; 64],
        vec![2u8; 32],
        vec![3u8; 64],
        vec![4u8; 32],
        b"alice".to_vec(),
        Vec::new(),
    ];
    let frame =
        message_builder(MessageType::Command, CommandInst::Register.code(), 6, 0, 0, &fields)
            .unwrap();
    let decoded = decode(&encode(&frame)).unwrap();
    assert_eq!(decoded.argument_count, 6);
    let decoded_fields = parse_fields(&decoded.data, decoded.argument_count).unwrap();
    assert_eq!(decoded_fields[4], b"alice".to_vec());
    assert_eq!(decoded, frame);
}

#[test]
fn assert_msg_accepts_a_frame_that_matches_everywhere() {
    let m = sample();
    assert!(assert_msg(&m, MessageType::DataTransfer, true, -7, true, 3, true, 1, true, 4));
    assert!(assert_msg(&m, MessageType::DataTransfer, false, 0, false, 0, false, 0, false, 0));
}

#[test]
fn assert_msg_refuses_any_single_mismatch() {
    let m = sample();
    assert!(!assert_msg(&m, MessageType::Command, true, -7, true, 3, true, 1, true, 4));
    assert!(!assert_msg(&m, MessageType::ServerReturn, false, 0, false, 0, false, 0, false, 0));
    assert!(!assert_msg(&m, MessageType::DataTransfer, true, 7, true, 3, true, 1, true, 4));
    assert!(!assert_msg(&m, MessageType::DataTransfer, true, -7, true, 2, true, 1, true, 4));
    assert!(!assert_msg(&m, MessageType::DataTransfer, true, -7, true, 3, true, 0, true, 4));
    assert!(!assert_msg(&m, MessageType::DataTransfer, true, -7, true, 3, true, 1, true, 5));
}

#[test]
fn assert_msg_passes_over_what_is_not_checked() {
    let m = sample();
    assert!(assert_msg(&m, MessageType::DataTransfer, false, 7, true, 3, true, 1, true, 4));
    assert!(assert_msg(&m, MessageType::DataTransfer, true, -7, false, 2, true, 1, true, 4));
    assert!(assert_msg(&m, MessageType::DataTransfer, true, -7, true, 3, false, 0, true, 4));
    assert!(assert_msg(&m, MessageType::DataTransfer, true, -7, true, 3, true, 1, false, 5));
}

#[test]
fn payload_length_of_a_salt_is_checked() {
    let salt = Message::new(MessageType::DataTransfer, 4, 1, 0, 0, vec![5u8; 32]);
    assert!(assert_msg(&salt, MessageType::DataTransfer, false, 0, false, 0, false, 0, true, 32));
    let short = Message::new(MessageType::DataTransfer, 4, 1, 0, 0, vec![5u8; 16]);
    assert!(!assert_msg(&short, MessageType::DataTransfer, false, 0, false, 0, false, 0, true, 32));
}

#[test]
fn return_flags_have_their_names() {
    assert_eq!(ReturnFlags::ServerAccUserExists.name(), "SERVER_ACC_USER_EXISTS");
    assert_eq!(ReturnFlags::ServerDbWriteFailed.name(), "SERVER_DB_WRITE_FAILED");
    assert_eq!(
        ReturnFlags::ServerDbCreatePositionFailed.name(),
        "SERVER_DB_CREATE_POSITION_FAILED"
    );
    assert_eq!(
        ReturnFlags::ClientAccRetrieveSaltsFailed.name(),
        "ACC_CREATE_RETRIEVE_SALTS_FAILED"
    );
    assert_eq!(ReturnFlags::ClientAccServerRejected.name(), "ACC_CREATE_FAILED_SERVER_REJECTED");
}
