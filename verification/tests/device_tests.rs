use m100::device::{
    check_read_response, check_write_response, default_password, parse_tag_info, read_all_plan,
    read_data_request, write_data_frame, write_verified, HfssStatus, M100Error, MemoryBank,
    ReadPlan,
};
#[test]
fn default_password_is_eight_ascii_zeroes() {
    assert_eq!(default_password(), [0x30; 8]);
}

#[test]
fn bank_codes_match_the_wire_protocol() {
    assert_eq!(MemoryBank::Reserved.code(), 0x00);
    assert_eq!(MemoryBank::Epc.code(), 0x01);
    assert_eq!(MemoryBank::Tid.code(), 0x02);
    assert_eq!(MemoryBank::User.code(), 0x03);
}

#[test]
fn hfss_codes_match_the_wire_protocol() {
    assert_eq!(HfssStatus::Auto.code(), 0xFF);
    assert_eq!(HfssStatus::Stop.code(), 0x00);
}

#[test]
fn read_request_rejects_zero_length() {
    let pw = default_password();
    assert_eq!(
        read_data_request(&pw, MemoryBank::User, 0, 0),
        Err(M100Error::InvalidDataLength(0))
    );
}

#[test]
fn read_request_rejects_odd_length() {
    let pw = default_password();
    assert_eq!(
        read_data_request(&pw, MemoryBank::User, 0, 3),
        Err(M100Error::InvalidDataLength(3))
    );
    assert_eq!(
        read_data_request(&pw, MemoryBank::Tid, 4, 65535),
        Err(M100Error::InvalidDataLength(65535))
    );
}

#[test]
fn read_request_accepts_positive_even_length() {
    let pw = default_password();
    let frame = read_data_request(&pw, MemoryBank::Tid, 0, 32).unwrap();
    assert_eq!(frame[0], 0xBB);
    assert_eq!(frame[2], 0x39);
    // password, bank byte, big-endian address, big-endian length
    assert_eq!(&frame[5..13], &pw);
    assert_eq!(&frame[13..18], &[0x02, 0x00, 0x00, 0x00, 0x20]);
    assert_eq!(*frame.last().unwrap(), 0x7E);
}

#[test]
fn read_response_sentinels_become_typed_errors() {
    assert_eq!(check_read_response(&[0x09]), Err(M100Error::FailRead));
    assert_eq!(
        check_read_response(&[0xA3]),
        Err(M100Error::ReadMemoryOverrun)
    );
}

#[test]
fn read_response_data_passes_through() {
    assert_eq!(check_read_response(&[]), Ok(()));
    assert_eq!(check_read_response(&[0x55]), Ok(()));
    // a sentinel byte at the head of a longer payload is data, not an error
    assert_eq!(check_read_response(&[0x09, 0x00]), Ok(()));
    assert_eq!(check_read_response(&[0xA3, 0xA3]), Ok(()));
}

#[test]
fn write_response_sentinels_become_typed_errors() {
    assert_eq!(check_write_response(&[0xB0]), Err(M100Error::WriteError));
    assert_eq!(check_write_response(&[0x10]), Err(M100Error::WriteFail));
}

#[test]
fn write_response_anything_else_is_success() {
    assert_eq!(check_write_response(&[]), Ok(()));
    assert_eq!(check_write_response(&[0x00]), Ok(()));
    assert_eq!(check_write_response(&[0xB0, 0x10]), Ok(()));
}

#[test]
fn no_tag_when_response_is_at_most_one_byte() {
    assert!(parse_tag_info(&[]).is_none());
    assert!(parse_tag_info(&[0x00]).is_none());
}

#[test]
fn tag_info_strips_header_and_crc_and_hex_encodes() {
    // rssi, 2 more header bytes, 4 EPC bytes, 2 CRC bytes
    let res = [0x5A, 0x34, 0x00, 0xDE, 0xAD, 0xBE, 0xEF, 0x11, 0x22];
    let tag = parse_tag_info(&res).unwrap();
    assert_eq!(tag.rssi, 0x5A);
    assert_eq!(tag.epc, "DEADBEEF");
}

#[test]
fn tag_info_epc_hex_is_uppercase_with_leading_zeroes() {
    let res = [0xC8, 0x00, 0x00, 0x0A, 0xB0, 0x01, 0xFF, 0xFF];
    let tag = parse_tag_info(&res).unwrap();
    assert_eq!(tag.rssi, 0xC8);
    assert_eq!(tag.epc, "0AB001");
}

#[test]
fn reserved_bank_is_not_bulk_readable() {
    assert_eq!(
        read_all_plan(MemoryBank::Reserved),
        Err(M100Error::ReservedBankRead)
    );
}

#[test]
fn bank_read_plans_match_the_bank_layouts() {
    assert_eq!(
        read_all_plan(MemoryBank::Epc),
        Ok(ReadPlan::Chunked {
            start_address: 12,
            chunk_size: 2
        })
    );
    assert_eq!(
        read_all_plan(MemoryBank::Tid),
        Ok(ReadPlan::Single {
            address: 0,
            length: 32
        })
    );
    assert_eq!(
        read_all_plan(MemoryBank::User),
        Ok(ReadPlan::Chunked {
            start_address: 0,
            chunk_size: 512
        })
    );
}

#[test]
fn epc_writes_take_the_epc_path() {
    let pw = default_password();
    let via_dispatch = write_data_frame(&pw, MemoryBank::Epc, 0, &[0xAB, 0xCD]).unwrap();
    let direct = m100::protocol::write_epc(&pw, &[0xAB, 0xCD]).unwrap();
    assert_eq!(via_dispatch, direct);
}

#[test]
fn other_writes_take_the_plain_path() {
    let pw = default_password();
    let via_dispatch = write_data_frame(&pw, MemoryBank::User, 7, &[0xAB, 0xCD]).unwrap();
    let direct = m100::protocol::write_data(&pw, MemoryBank::User, 7, &[0xAB, 0xCD]).unwrap();
    assert_eq!(via_dispatch, direct);
}

#[test]
fn matching_readback_verifies_the_write() {
    assert!(write_verified(
        &[0xDE, 0xAD, 0xBE, 0xEF],
        &[0xDE, 0xAD, 0xBE, 0xEF]
    ));
    assert!(write_verified(&[], &[]));
}

#[test]
fn differing_readback_fails_verification() {
    assert!(!write_verified(
        &[0xDE, 0xAD, 0xBE, 0xEF],
        &[0xDE, 0xAD, 0xBE, 0xEE]
    ));
    assert!(!write_verified(&[0xDE, 0xAD], &[0xDE, 0xAD, 0x00]));
}

// A bank of bytes standing in for the tag during a write round trip: it
// accepts a write frame, stores the data carried in it, and answers reads
// from what it stored.
fn simulated_user_bank_write(frame: &[u8], bank: &mut Vec<u8>) -> Vec<u8> {
    // password(8) | bank(1) | address(2) | length(2) | data
    let payload = decode_frame_payload(frame);
    let address = u16::from_be_bytes([payload[9], payload[10]]) as usize;
    let length = u16::from_be_bytes([payload[11], payload[12]]) as usize;
    let data = &payload[13..13 + length];
    if bank.len() < address + length {
        bank.resize(address + length, 0);
    }
    bank[address..address + length].copy_from_slice(data);
    vec![0x00]
}

fn decode_frame_payload(frame: &[u8]) -> Vec<u8> {
    let length = u16::from_be_bytes([frame[3], frame[4]]) as usize;
    frame[5..5 + length].to_vec()
}

#[test]
fn write_then_verify_round_trip_on_user_bank() {
    let pw = default_password();
    let mut bank: Vec<u8> = Vec::new();

    let frame = write_data_frame(&pw, MemoryBank::User, 0, &[0xDE, 0xAD, 0xBE, 0xEF]).unwrap();
    let response = simulated_user_bank_write(&frame, &mut bank);
    assert_eq!(check_write_response(&response), Ok(()));

    // reading the same range back yields the written bytes and verifies
    let readback = &bank[0..4];
    assert_eq!(readback, &[0xDE, 0xAD, 0xBE, 0xEF]);
    assert!(write_verified(&[0xDE, 0xAD, 0xBE, 0xEF], readback));

    // a transport that answers the verify read with different bytes must
    // make the write report a verification failure
    let corrupted = [0xDE, 0xAD, 0xBE, 0x00];
    assert!(!write_verified(&[0xDE, 0xAD, 0xBE, 0xEF], &corrupted));
}
