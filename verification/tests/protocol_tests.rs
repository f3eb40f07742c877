use m100::device::{HfssStatus, M100Error, MemoryBank};
use m100::protocol::{
    decode_frame, get_version, idle, make_frame, query, read_data, response_payload_len,
    set_hfss_status, write_data, write_epc, Command,
};

const PW: [u8; 8] = [0x30; 8];

#[test]
fn query_frame_matches_documented_example() {
    let frame = query().unwrap();
    assert_eq!(
        frame,
        vec![0xBB, 0x00, 0x22, 0x00, 0x02, 0x00, 0x00, 0x24, 0x7E]
    );
}

#[test]
fn get_version_frame_layout() {
    let frame = get_version().unwrap();
    assert_eq!(frame, vec![0xBB, 0x00, 0x03, 0x00, 0x01, 0x00, 0x04, 0x7E]);
}

#[test]
fn idle_frame_layout() {
    let frame = idle().unwrap();
    assert_eq!(
        frame,
        vec![0xBB, 0x00, 0x04, 0x00, 0x03, 0x00, 0x01, 0x00, 0x08, 0x7E]
    );
}

#[test]
fn set_hfss_frames() {
    let auto = set_hfss_status(HfssStatus::Auto).unwrap();
    assert_eq!(auto, vec![0xBB, 0x00, 0xAD, 0x00, 0x01, 0xFF, 0xAD, 0x7E]);
    let stop = set_hfss_status(HfssStatus::Stop).unwrap();
    assert_eq!(stop, vec![0xBB, 0x00, 0xAD, 0x00, 0x01, 0x00, 0xAE, 0x7E]);
}

#[test]
fn read_data_frame_layout() {
    let frame = read_data(&PW, MemoryBank::User, 0x0000, 512).unwrap();
    let mut expected = vec![0xBB, 0x00, 0x39, 0x00, 0x0D];
    expected.extend_from_slice(&PW);
    expected.extend_from_slice(&[0x03, 0x00, 0x00, 0x02, 0x00, 0xCB, 0x7E]);
    assert_eq!(frame, expected);
}

#[test]
fn write_data_frame_layout() {
    let frame = write_data(&PW, MemoryBank::User, 0x0001, &[0xDE, 0xAD]).unwrap();
    let mut expected = vec![0xBB, 0x00, 0x49, 0x00, 0x0F];
    expected.extend_from_slice(&PW);
    expected.extend_from_slice(&[0x03, 0x00, 0x01, 0x00, 0x02, 0xDE, 0xAD, 0x69, 0x7E]);
    assert_eq!(frame, expected);
}

#[test]
fn write_epc_frame_carries_pc_word() {
    let frame = write_epc(&PW, &[0xDE, 0xAD, 0xBE, 0xEF]).unwrap();
    let mut expected = vec![0xBB, 0x00, 0x49, 0x00, 0x13];
    expected.extend_from_slice(&PW);
    // bank byte, the two fixed bytes, the data length, then the PC word
    // (4 << 10) & 0xF800 == 0x1000, then the data
    expected.extend_from_slice(&[
        0x01, 0x00, 0x01, 0x00, 0x04, 0x10, 0x00, 0xDE, 0xAD, 0xBE, 0xEF, 0x2A, 0x7E,
    ]);
    assert_eq!(frame, expected);
}

#[test]
fn encoding_twice_is_byte_identical() {
    let a = make_frame(Command::Query, &[0x12, 0x34, 0x56]).unwrap();
    let b = make_frame(Command::Query, &[0x12, 0x34, 0x56]).unwrap();
    assert_eq!(a, b);
}

#[test]
fn changing_one_payload_byte_changes_the_checksum() {
    let a = make_frame(Command::WriteData, &[0x10, 0x20, 0x30]).unwrap();
    let b = make_frame(Command::WriteData, &[0x10, 0x21, 0x30]).unwrap();
    // same length, so the checksum sits at the same index
    let ck = a.len() - 2;
    assert_ne!(a[ck], b[ck]);
}

#[test]
fn make_frame_rejects_oversized_payload() {
    let too_long = vec![0u8; 0x10000];
    assert_eq!(
        make_frame(Command::WriteData, &too_long),
        Err(M100Error::PayloadTooLong)
    );
}

#[test]
fn decode_returns_payload_of_encoded_frame() {
    let payload = [0x01, 0x02, 0x03, 0xFF, 0x00];
    let frame = make_frame(Command::ReadData, &payload).unwrap();
    let decoded = decode_frame(&frame).unwrap();
    assert_eq!(decoded, payload.to_vec());
}

#[test]
fn decode_rejects_corrupt_tail() {
    let mut frame = make_frame(Command::Query, &[0x00, 0x00]).unwrap();
    let last = frame.len() - 1;
    frame[last] = 0x7D;
    assert_eq!(decode_frame(&frame), Err(M100Error::InvalidTail(0x7D)));
}

#[test]
fn decode_rejects_every_non_terminator_tail_byte() {
    let clean = make_frame(Command::Query, &[0x00, 0x00]).unwrap();
    let last = clean.len() - 1;
    for b in 0..=0xFFu8 {
        let mut frame = clean.clone();
        frame[last] = b;
        let r = decode_frame(&frame);
        if b == 0x7E {
            assert_eq!(r, Ok(vec![0x00, 0x00]));
        } else {
            assert_eq!(r, Err(M100Error::InvalidTail(b)));
        }
    }
}

#[test]
fn decode_rejects_short_frame() {
    assert_eq!(
        decode_frame(&[0xBB, 0x00, 0x22, 0x00, 0x00, 0x22]),
        Err(M100Error::MalformedFrame)
    );
}

#[test]
fn decode_rejects_length_field_mismatch() {
    // the length field says 2 payload bytes, but 3 are present
    let frame = [0xBB, 0x00, 0x22, 0x00, 0x02, 0xAA, 0xBB, 0xCC, 0x24, 0x7E];
    assert_eq!(decode_frame(&frame), Err(M100Error::MalformedFrame));
}

#[test]
fn decode_does_not_check_the_checksum() {
    // decoding gates on the terminator alone; a wrong checksum byte passes
    let frame = [0xBB, 0x00, 0x22, 0x00, 0x02, 0xAA, 0xBB, 0x00, 0x7E];
    assert_eq!(decode_frame(&frame), Ok(vec![0xAA, 0xBB]));
}

#[test]
fn decode_accepts_empty_payload() {
    let frame = make_frame(Command::GetVersion, &[]).unwrap();
    assert_eq!(decode_frame(&frame), Ok(vec![]));
}

#[test]
fn response_payload_len_reads_big_endian_field() {
    assert_eq!(response_payload_len(&[0xBB, 0x00, 0x22, 0x01, 0x10]), 0x0110);
    assert_eq!(response_payload_len(&[0xBB, 0x00, 0x22, 0x00, 0x00]), 0);
}

#[test]
fn command_codes_match_the_wire_protocol() {
    assert_eq!(Command::GetVersion.code(), 0x03);
    assert_eq!(Command::Idle.code(), 0x04);
    assert_eq!(Command::Query.code(), 0x22);
    assert_eq!(Command::ReadData.code(), 0x39);
    assert_eq!(Command::SetHfss.code(), 0xAD);
    assert_eq!(Command::WriteData.code(), 0x49);
}
