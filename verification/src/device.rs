//! Types and per-call logic of the reader module: memory banks, the
//! continuous-inventory toggle, tag query results, typed errors, response
//! interpretation and the read plans for each bank.

use vstd::prelude::*;
use vstd::slice::slice_subrange;

use crate::protocol;
use crate::protocol::{frame_spec, read_data_payload_spec};

verus! {

/// The memory banks of an EPC Gen2 tag.
#[derive(Debug, Clone, Copy, PartialEq, Eq, Structural)]
pub enum MemoryBank {
    Reserved,
    Epc,
    Tid,
    User,
}

impl MemoryBank {
    /// The byte that stands for this bank in command payloads.
    pub open spec fn code_spec(self) -> u8 {
        match self {
            MemoryBank::Reserved => 0x00,
            MemoryBank::Epc => 0x01,
            MemoryBank::Tid => 0x02,
            MemoryBank::User => 0x03,
        }
    }

    /// Returns the byte that stands for this bank in command payloads.
    pub fn code(self) -> (r: u8)
        ensures
            r == self.code_spec(),
    {
        match self {
            MemoryBank::Reserved => 0x00,
            MemoryBank::Epc => 0x01,
            MemoryBank::Tid => 0x02,
            MemoryBank::User => 0x03,
        }
    }
}

/// The continuous-inventory (HFSS) mode switch.
#[derive(Debug, Clone, Copy, PartialEq, Eq, Structural)]
pub enum HfssStatus {
    Auto,
    Stop,
}

impl HfssStatus {
    /// The byte that stands for this mode in the set-HFSS payload.
    pub open spec fn code_spec(self) -> u8 {
        match self {
            HfssStatus::Auto => 0xFF,
            HfssStatus::Stop => 0x00,
        }
    }

    /// Returns the byte that stands for this mode in the set-HFSS payload.
    pub fn code(self) -> (r: u8)
        ensures
            r == self.code_spec(),
    {
        match self {
            HfssStatus::Auto => 0xFF,
            HfssStatus::Stop => 0x00,
        }
    }
}

/// Everything that can go wrong inside the protocol engine.
#[derive(Debug, Clone, Copy, PartialEq, Eq, Structural)]
pub enum M100Error {
    /// A command payload does not fit the 16-bit length field.
    PayloadTooLong,
    /// A response frame's final byte is not the `0x7E` terminator.
    InvalidTail(u8),
    /// A response frame's length does not match its length field.
    MalformedFrame,
    /// A read was asked for a length that is zero or odd.
    InvalidDataLength(u16),
    /// The Reserved bank cannot be read in bulk.
    ReservedBankRead,
    /// The module reported a failed read (code `0x09`).
    FailRead,
    /// The module reported a read past the end of the bank (code `0xA3`).
    ReadMemoryOverrun,
    /// The module reported a write error (code `0xB0`).
    WriteError,
    /// The module reported a failed write (code `0x10`).
    WriteFail,
}

/// Returns the default access password: eight `0x30` bytes (ASCII "00000000").
pub fn default_password() -> (r: [u8; 8])
    ensures
        r@.len() == 8,
        forall|i: int| 0 <= i < 8 ==> r@[i] == 0x30u8,
{
    [0x30, 0x30, 0x30, 0x30, 0x30, 0x30, 0x30, 0x30]
}

/// Result of a successful tag query: signal strength and the tag's EPC as
/// an uppercase hex string.
#[derive(Debug)]
pub struct TagInfo {
    pub epc: String,
    pub rssi: u8,
}

/// The uppercase hex digit character for a nibble value below sixteen.
pub open spec fn hex_digit(d: u8) -> char {
    if d == 0 {
        '0'
    } else if d == 1 {
        '1'
    } else if d == 2 {
        '2'
    } else if d == 3 {
        '3'
    } else if d == 4 {
        '4'
    } else if d == 5 {
        '5'
    } else if d == 6 {
        '6'
    } else if d == 7 {
        '7'
    } else if d == 8 {
        '8'
    } else if d == 9 {
        '9'
    } else if d == 10 {
        'A'
    } else if d == 11 {
        'B'
    } else if d == 12 {
        'C'
    } else if d == 13 {
        'D'
    } else if d == 14 {
        'E'
    } else {
        'F'
    }
}

/// A byte sequence as uppercase hex text: two digits per byte, most
/// significant nibble first.
pub open spec fn hex_upper_of(bytes: Seq<u8>) -> Seq<char>
    decreases bytes.len(),
{
    if bytes.len() == 0 {
        Seq::<char>::empty()
    } else {
        seq![hex_digit(bytes[0] / 16), hex_digit(bytes[0] % 16)] + hex_upper_of(
            bytes.drop_first(),
        )
    }
}

/// Relies on hex::encode_upper: each input byte becomes two uppercase hex
/// digits, most significant nibble first.
#[verifier::external_body]
fn hex_encode_upper(bytes: &[u8]) -> (r: String)
    ensures
        r@ == hex_upper_of(bytes@),
{
    hex::encode_upper(bytes)
}

/// Extracts the tag information from a query response payload. A payload of
/// at most one byte means no tag answered. Otherwise the first byte is the
/// signal strength, and the EPC is the hex rendering of the payload with its
/// three leading header bytes and two trailing CRC bytes stripped; such a
/// payload is at least five bytes long.
pub fn parse_tag_info(res: &[u8]) -> (r: Option<TagInfo>)
    requires
        res@.len() <= 1 || res@.len() >= 5,
    ensures
        res@.len() <= 1 ==> r is None,
        res@.len() > 1 ==> (r matches Some(t) && t.rssi == res@[0] && t.epc@ == hex_upper_of(
            res@.subrange(3, res@.len() - 2),
        )),
{
    if res.len() <= 1 {
        return None;
    }
    let rssi: u8 = res[0];
    let epc_bytes: &[u8] = slice_subrange(res, 3, res.len() - 2);
    let epc: String = hex_encode_upper(epc_bytes);
    Some(TagInfo { epc, rssi })
}

/// Interprets a read response payload: a single-byte payload carrying a
/// known sentinel code is a typed read failure, anything else is data.
pub fn check_read_response(res: &[u8]) -> (r: Result<(), M100Error>)
    ensures
        res@.len() == 1 && res@[0] == 0x09 ==> r == Err::<(), M100Error>(M100Error::FailRead),
        res@.len() == 1 && res@[0] == 0xA3 ==> r == Err::<(), M100Error>(
            M100Error::ReadMemoryOverrun,
        ),
        !(res@.len() == 1 && (res@[0] == 0x09 || res@[0] == 0xA3)) ==> r == Ok::<(), M100Error>(
            (),
        ),
{
    if res.len() == 1 {
        if res[0] == 0x09 {
            return Err(M100Error::FailRead);
        } else if res[0] == 0xA3 {
            return Err(M100Error::ReadMemoryOverrun);
        }
    }
    Ok(())
}

/// Interprets a write response payload: a single-byte payload carrying a
/// known sentinel code is a typed write failure, anything else is success.
pub fn check_write_response(res: &[u8]) -> (r: Result<(), M100Error>)
    ensures
        res@.len() == 1 && res@[0] == 0xB0 ==> r == Err::<(), M100Error>(M100Error::WriteError),
        res@.len() == 1 && res@[0] == 0x10 ==> r == Err::<(), M100Error>(M100Error::WriteFail),
        !(res@.len() == 1 && (res@[0] == 0xB0 || res@[0] == 0x10)) ==> r == Ok::<(), M100Error>(
            (),
        ),
{
    if res.len() == 1 {
        if res[0] == 0xB0 {
            return Err(M100Error::WriteError);
        } else if res[0] == 0x10 {
            return Err(M100Error::WriteFail);
        }
    }
    Ok(())
}

/// Builds the read-data frame after validating the requested length: a read
/// length must be a positive even number, and a request that is not is
/// rejected before any byte goes out.
pub fn read_data_request(password: &[u8], bank: MemoryBank, address: u16, data_length: u16) -> (r:
    Result<Vec<u8>, M100Error>)
    requires
        password@.len() == 8,
    ensures
        data_length == 0 || data_length % 2 != 0 ==> r == Err::<Vec<u8>, M100Error>(
            M100Error::InvalidDataLength(data_length),
        ),
        data_length != 0 && data_length % 2 == 0 ==> (r matches Ok(f) && f@ == frame_spec(
            0x39,
            read_data_payload_spec(password@, bank, address, data_length),
        )),
{
    if data_length % 2 != 0 || data_length == 0 {
        return Err(M100Error::InvalidDataLength(data_length));
    }
    protocol::read_data(password, bank, address, data_length)
}

/// Builds the frame that writes `data` to a bank at an address. A write to
/// the Epc bank goes through the EPC path, whose payload carries the
/// protocol-control word and fixes the address by the wire format; a write
/// to any other bank goes through the plain write-data path. Fails only when
/// the payload does not fit the 16-bit length field.
pub fn write_data_frame(password: &[u8], bank: MemoryBank, address: u16, data: &[u8]) -> (r:
    Result<Vec<u8>, M100Error>)
    requires
        password@.len() == 8,
    ensures
        bank == MemoryBank::Epc && data@.len() <= 0xFFF0 ==> (r matches Ok(f) && f@ == frame_spec(
            0x49,
            protocol::write_epc_payload_spec(password@, data@),
        )),
        bank == MemoryBank::Epc && data@.len() > 0xFFF0 ==> r == Err::<Vec<u8>, M100Error>(
            M100Error::PayloadTooLong,
        ),
        bank != MemoryBank::Epc && data@.len() <= 0xFFF2 ==> (r matches Ok(f) && f@ == frame_spec(
            0x49,
            protocol::write_data_payload_spec(password@, bank, address, data@),
        )),
        bank != MemoryBank::Epc && data@.len() > 0xFFF2 ==> r == Err::<Vec<u8>, M100Error>(
            M100Error::PayloadTooLong,
        ),
{
    match bank {
        MemoryBank::Epc => protocol::write_epc(password, data),
        other => protocol::write_data(password, other, address, data),
    }
}

/// How a full bank read proceeds: one read of a fixed length, or chunked
/// reads that probe until the module reports the end of the bank.
#[derive(Debug, Clone, Copy, PartialEq, Eq, Structural)]
pub enum ReadPlan {
    Single { address: u16, length: u16 },
    Chunked { start_address: u16, chunk_size: u16 },
}

/// Returns how a full read of the given bank proceeds. The Reserved bank is
/// never read in bulk. Epc is extensible and is read in 2-byte chunks from
/// address 12; User is read in 512-byte chunks from address 0. Tid is read
/// as one fixed 32-byte block at address 0 (a chunked Tid traversal from
/// address 4 also exists in the wild; this engine deliberately uses the
/// fixed-block form).
pub fn read_all_plan(bank: MemoryBank) -> (r: Result<ReadPlan, M100Error>)
    ensures
        bank == MemoryBank::Reserved ==> r == Err::<ReadPlan, M100Error>(
            M100Error::ReservedBankRead,
        ),
        bank == MemoryBank::Epc ==> r == Ok::<ReadPlan, M100Error>(
            ReadPlan::Chunked { start_address: 12, chunk_size: 2 },
        ),
        bank == MemoryBank::Tid ==> r == Ok::<ReadPlan, M100Error>(
            ReadPlan::Single { address: 0, length: 32 },
        ),
        bank == MemoryBank::User ==> r == Ok::<ReadPlan, M100Error>(
            ReadPlan::Chunked { start_address: 0, chunk_size: 512 },
        ),
{
    match bank {
        MemoryBank::Reserved => Err(M100Error::ReservedBankRead),
        MemoryBank::Epc => Ok(ReadPlan::Chunked { start_address: 12, chunk_size: 2 }),
        MemoryBank::Tid => Ok(ReadPlan::Single { address: 0, length: 32 }),
        MemoryBank::User => Ok(ReadPlan::Chunked { start_address: 0, chunk_size: 512 }),
    }
}

/// Decides whether a write is verified: the bytes read back from the bank
/// must match the bytes that were written, byte for byte.
pub fn write_verified(written: &[u8], readback: &[u8]) -> (r: bool)
    ensures
        r <==> written@ == readback@,
{
    if written.len() != readback.len() {
        return false;
    }
    let mut i: usize = 0;
    while i < written.len()
        invariant
            written@.len() == readback@.len(),
            i <= written@.len(),
            forall|j: int| 0 <= j < i ==> written@[j] == readback@[j],
        decreases written@.len() - i,
    {
        if written[i] != readback[i] {
            return false;
        }
        i += 1;
    }
    assert(written@ =~= readback@);
    true
}

} // verus!
