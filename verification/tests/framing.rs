use wasm_leds::bytes::{copy_range, u32_from_le};
use wasm_leds::command::{parse_command, Command, ProtocolError};
use wasm_leds::frame::{
    decode_frame, payload_length, split_payload, CommandFrame, FrameError, HEADER_LEN,
};
use wasm_leds::led::Color;

fn framed(payload: &[u8]) -> Vec<u8> {
    let mut bytes = (payload.len() as u32).to_le_bytes().to_vec();
    bytes.extend_from_slice(payload);
    bytes
}

#[test]
fn little_endian_number_is_read_low_byte_first() {
    assert_eq!(u32_from_le(0x78, 0x56, 0x34, 0x12), 0x1234_5678);
    assert_eq!(u32_from_le(0, 0, 0, 0), 0);
    assert_eq!(u32_from_le(255, 255, 255, 255), u32::MAX);
    assert_eq!(u32_from_le(0, 1, 0, 0), 256);
}

#[test]
fn copy_range_copies_the_half_open_range() {
    let src = [1u8, 2, 3, 4, 5];
    assert_eq!(copy_range(&src, 1, 4), vec![2, 3, 4]);
    assert_eq!(copy_range(&src, 2, 2), Vec::<u8>::new());
    assert_eq!(copy_range(&src, 0, 5), src.to_vec());
}

#[test]
fn frame_round_trip_keeps_opcode_and_body() {
    let payloads: [&[u8]; 4] = [&[2], &[0, 10, 20, 30], &[3, 1, 2, 3, 4, 5, 6, 7], &[255, 0]];
    for payload in payloads {
        let bytes = framed(payload);
        let (frame, used) = decode_frame(&bytes).unwrap();
        assert_eq!(frame.opcode, payload[0]);
        assert_eq!(frame.payload, payload[1..].to_vec());
        assert_eq!(used, HEADER_LEN + payload.len());
    }
}

#[test]
fn frame_round_trip_of_a_long_payload() {
    let payload: Vec<u8> = (0..70_000u32).map(|i| (i % 251) as u8).collect();
    let bytes = framed(&payload);
    let (frame, used) = decode_frame(&bytes).unwrap();
    assert_eq!(frame.opcode, payload[0]);
    assert_eq!(frame.payload, payload[1..].to_vec());
    assert_eq!(used, 70_004);
}

#[test]
fn decode_frame_leaves_what_follows_the_frame() {
    let mut bytes = framed(&[1, 7, 8]);
    bytes.extend_from_slice(&[9, 9, 9]);
    let (frame, used) = decode_frame(&bytes).unwrap();
    assert_eq!(frame, CommandFrame { opcode: 1, payload: vec![7, 8] });
    assert_eq!(used, 7);
}

#[test]
fn decode_frame_rejects_an_empty_payload() {
    assert_eq!(decode_frame(&[0, 0, 0, 0]), Err(FrameError::EmptyPayload));
    assert_eq!(decode_frame(&[0, 0, 0, 0, 1, 2]), Err(FrameError::EmptyPayload));
}

#[test]
fn decode_frame_rejects_a_short_header() {
    assert_eq!(decode_frame(&[]), Err(FrameError::Truncated));
    assert_eq!(decode_frame(&[1, 0, 0]), Err(FrameError::Truncated));
}

#[test]
fn decode_frame_rejects_a_short_payload() {
    assert_eq!(decode_frame(&[2, 0, 0, 0, 1]), Err(FrameError::Truncated));
    assert_eq!(decode_frame(&[1, 0, 0, 0]), Err(FrameError::Truncated));
    assert_eq!(decode_frame(&[255, 255, 255, 255, 1, 2, 3]), Err(FrameError::Truncated));
}

#[test]
fn payload_length_reads_the_prefix() {
    assert_eq!(payload_length(&[4, 0, 0, 0]), Ok(4));
    assert_eq!(payload_length(&[0, 40, 0, 0]), Ok(10_240));
    assert_eq!(payload_length(&[1, 0, 0, 0, 99]), Ok(1));
    assert_eq!(payload_length(&[0, 0, 0, 0]), Err(FrameError::EmptyPayload));
    assert_eq!(payload_length(&[1, 0]), Err(FrameError::Truncated));
}

#[test]
fn split_payload_takes_the_first_byte_as_opcode() {
    assert_eq!(split_payload(&[3, 4, 5]), Ok(CommandFrame { opcode: 3, payload: vec![4, 5] }));
    assert_eq!(split_payload(&[2]), Ok(CommandFrame { opcode: 2, payload: vec![] }));
    assert_eq!(split_payload(&[]), Err(FrameError::EmptyPayload));
}

#[test]
fn parse_command_reads_each_opcode() {
    let frame = |opcode: u8, payload: &[u8]| CommandFrame { opcode, payload: payload.to_vec() };
    assert_eq!(
        parse_command(frame(0, &[10, 20, 30])),
        Ok(Command::SetSolidColor(Color { red: 10, green: 20, blue: 30 }))
    );
    assert_eq!(parse_command(frame(1, &[0, 97, 115, 109])), Ok(Command::LoadProgram(vec![0, 97, 115, 109])));
    assert_eq!(parse_command(frame(1, &[])), Ok(Command::LoadProgram(vec![])));
    assert_eq!(parse_command(frame(2, &[])), Ok(Command::Stop));
    assert_eq!(parse_command(frame(2, &[1, 2])), Ok(Command::Stop));
    assert_eq!(parse_command(frame(3, &[5, 6])), Ok(Command::FeedInput(vec![5, 6])));
    assert_eq!(parse_command(frame(3, &[])), Ok(Command::FeedInput(vec![])));
}

#[test]
fn parse_command_rejects_an_unknown_opcode() {
    let frame = CommandFrame { opcode: 4, payload: vec![1] };
    assert_eq!(parse_command(frame), Err(ProtocolError::UnknownOpcode(4)));
    let frame = CommandFrame { opcode: 255, payload: vec![] };
    assert_eq!(parse_command(frame), Err(ProtocolError::UnknownOpcode(255)));
}

#[test]
fn parse_command_rejects_a_colour_of_the_wrong_length() {
    for body in [vec![], vec![1, 2], vec![1, 2, 3, 4]] {
        let frame = CommandFrame { opcode: 0, payload: body };
        assert_eq!(parse_command(frame), Err(ProtocolError::MalformedBody(0)));
    }
}
