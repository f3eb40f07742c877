//! Wire frame codec and command payload builders.
//!
//! A frame is `[0xBB, 0x00, CMD, LEN_HI, LEN_LO, PAYLOAD..., CHECKSUM, 0x7E]`
//! where `LEN` is the big-endian 16-bit payload byte count and `CHECKSUM` is
//! the low byte of the sum of every byte from the type byte through the end
//! of the payload (the head byte is excluded).

use vstd::prelude::*;
use vstd::arithmetic::div_mod::{
    lemma_add_mod_noop, lemma_fundamental_div_mod, lemma_mod_add_multiples_vanish,
    lemma_mod_equivalence, lemma_mod_twice, lemma_small_mod,
};
use vstd::slice::{slice_subrange, slice_to_vec};

use crate::device::{HfssStatus, M100Error, MemoryBank};

verus! {

/// The command opcodes the reader module understands.
#[derive(Debug, Clone, Copy, PartialEq, Eq, Structural)]
pub enum Command {
    GetVersion,
    Idle,
    Query,
    ReadData,
    SetHfss,
    WriteData,
}

impl Command {
    /// The opcode byte that stands for this command on the wire.
    pub open spec fn code_spec(self) -> u8 {
        match self {
            Command::GetVersion => 0x03,
            Command::Idle => 0x04,
            Command::Query => 0x22,
            Command::ReadData => 0x39,
            Command::SetHfss => 0xAD,
            Command::WriteData => 0x49,
        }
    }

    /// Returns the opcode byte that stands for this command on the wire.
    pub fn code(self) -> (r: u8)
        ensures
            r == self.code_spec(),
    {
        match self {
            Command::GetVersion => 0x03,
            Command::Idle => 0x04,
            Command::Query => 0x22,
            Command::ReadData => 0x39,
            Command::SetHfss => 0xAD,
            Command::WriteData => 0x49,
        }
    }
}

/// Sum of a byte sequence, as an unbounded integer.
pub open spec fn sum_bytes(s: Seq<u8>) -> int
    decreases s.len(),
{
    if s.len() == 0 {
        0
    } else {
        sum_bytes(s.drop_last()) + s.last()
    }
}

/// The sum of any byte sequence is non-negative.
pub proof fn lemma_sum_bytes_nonneg(s: Seq<u8>)
    ensures
        sum_bytes(s) >= 0,
    decreases s.len(),
{
    if s.len() > 0 {
        lemma_sum_bytes_nonneg(s.drop_last());
    }
}

/// A 16-bit value as two big-endian bytes. Meaningful for `0 <= n <= 0xFFFF`.
pub open spec fn be16_bytes(n: int) -> Seq<u8> {
    seq![(n / 256) as u8, (n % 256) as u8]
}

/// The bytes the checksum covers: the type byte, the command byte, the two
/// big-endian length bytes and the payload.
pub open spec fn frame_body_spec(cmd: u8, payload: Seq<u8>) -> Seq<u8> {
    seq![0x00u8, cmd] + be16_bytes(payload.len() as int) + payload
}

/// The checksum byte: the low byte of the sum of the body bytes.
pub open spec fn checksum_spec(cmd: u8, payload: Seq<u8>) -> u8 {
    (sum_bytes(frame_body_spec(cmd, payload)) % 256) as u8
}

/// The full wire frame for a command byte and payload.
/// Meaningful for `payload.len() <= 0xFFFF`.
pub open spec fn frame_spec(cmd: u8, payload: Seq<u8>) -> Seq<u8> {
    seq![0xBBu8] + frame_body_spec(cmd, payload) + seq![
        checksum_spec(cmd, payload),
        0x7Eu8,
    ]
}

/// Builds the wire frame for `cmd` with the given payload: head byte, type
/// byte, command byte, big-endian payload length, payload, checksum and tail
/// byte. Fails only when the payload does not fit the 16-bit length field.
pub fn make_frame(cmd: Command, payload: &[u8]) -> (r: Result<Vec<u8>, M100Error>)
    ensures
        payload@.len() <= 0xFFFF ==> (r matches Ok(frame) && frame@ == frame_spec(
            cmd.code_spec(),
            payload@,
        )),
        payload@.len() > 0xFFFF ==> r == Err::<Vec<u8>, M100Error>(M100Error::PayloadTooLong),
{
    if payload.len() > 0xFFFF {
        return Err(M100Error::PayloadTooLong);
    }
    let n: u16 = payload.len() as u16;
    let code: u8 = cmd.code();
    let mut packet: Vec<u8> = Vec::new();
    packet.push(0xBB);
    packet.push(0x00);
    packet.push(code);
    packet.push((n / 256) as u8);
    packet.push((n % 256) as u8);
    assert(packet@ =~= seq![0xBBu8] + seq![0x00u8, code] + be16_bytes(payload@.len() as int));

    let mut i: usize = 0;
    while i < payload.len()
        invariant
            i <= payload@.len(),
            packet@ == seq![0xBBu8] + seq![0x00u8, code] + be16_bytes(payload@.len() as int)
                + payload@.take(i as int),
        decreases payload@.len() - i,
    {
        packet.push(payload[i]);
        assert(payload@.take(i + 1) =~= payload@.take(i as int).push(payload@[i as int]));
        i += 1;
    }
    assert(payload@.take(payload@.len() as int) =~= payload@);
    assert(packet@ =~= seq![0xBBu8] + frame_body_spec(code, payload@));

    let mut sum: u8 = 0;
    let mut j: usize = 1;
    while j < packet.len()
        invariant
            1 <= j <= packet@.len(),
            packet@ == seq![0xBBu8] + frame_body_spec(code, payload@),
            sum == sum_bytes(packet@.subrange(1, j as int)) % 256,
        decreases packet@.len() - j,
    {
        proof {
            let pre = packet@.subrange(1, j as int);
            let post = packet@.subrange(1, j + 1);
            assert(post.drop_last() =~= pre);
            lemma_sum_bytes_nonneg(pre);
            lemma_add_mod_noop(sum_bytes(pre), packet@[j as int] as int, 256);
            lemma_mod_twice(packet@[j as int] as int, 256);
            assert((sum + packet@[j as int]) % 256 == sum_bytes(post) % 256);
        }
        sum = (((sum as u16) + (packet[j] as u16)) % 256) as u8;
        j += 1;
    }
    proof {
        assert(packet@.subrange(1, packet@.len() as int) =~= frame_body_spec(code, payload@));
        lemma_sum_bytes_nonneg(frame_body_spec(code, payload@));
    }
    packet.push(sum);
    packet.push(0x7E);
    assert(packet@ =~= frame_spec(code, payload@));
    Ok(packet)
}

/// The value of a frame's big-endian 16-bit length field (bytes 3 and 4).
/// Meaningful for `f.len() >= 5`.
pub open spec fn frame_len_field(f: Seq<u8>) -> int {
    f[3] * 256 + f[4]
}

/// What decoding a raw response frame yields: its payload when the frame is
/// well formed and terminated by `0x7E`, a typed error otherwise. The
/// checksum is not re-verified on decode; only the terminator gates
/// acceptance.
pub open spec fn decode_spec(f: Seq<u8>) -> Result<Seq<u8>, M100Error> {
    if f.len() < 7 || f.len() != 7 + frame_len_field(f) {
        Err(M100Error::MalformedFrame)
    } else if f.last() != 0x7E {
        Err(M100Error::InvalidTail(f.last()))
    } else {
        Ok(f.subrange(5, 5 + frame_len_field(f)))
    }
}

/// Law: encoding is deterministic. Any two frames built from the same
/// command byte and payload are byte-identical, because `make_frame`
/// promises each of them equal to the one wire frame `frame_spec` assigns
/// to that pair.
pub proof fn lemma_encode_deterministic(cmd: u8, payload: Seq<u8>, f1: Seq<u8>, f2: Seq<u8>)
    requires
        f1 == frame_spec(cmd, payload),
        f2 == frame_spec(cmd, payload),
    ensures
        f1 == f2,
{
}

/// Law: decoding inverts encoding. Every frame that `make_frame` can build
/// decodes back to exactly the payload it was built from.
pub proof fn lemma_frame_round_trip(cmd: u8, payload: Seq<u8>)
    requires
        payload.len() <= 0xFFFF,
    ensures
        decode_spec(frame_spec(cmd, payload)) == Ok::<Seq<u8>, M100Error>(payload),
{
    let f = frame_spec(cmd, payload);
    let n = payload.len() as int;
    assert(f.len() == 7 + n);
    assert(f[3] == (n / 256) as u8 && f[4] == (n % 256) as u8);
    lemma_fundamental_div_mod(n, 256);
    assert(frame_len_field(f) == n);
    assert(f.last() == 0x7E);
    assert(f.subrange(5, 5 + n) =~= payload);
}

/// Law: the terminator is enforced. Corrupting the final byte of an encoded
/// frame to anything other than `0x7E` makes decoding fail with a tail
/// error; it never silently parses.
pub proof fn lemma_corrupt_tail_rejected(cmd: u8, payload: Seq<u8>, b: u8)
    requires
        payload.len() <= 0xFFFF,
        b != 0x7E,
    ensures
        decode_spec(frame_spec(cmd, payload).update(frame_spec(cmd, payload).len() - 1, b))
            == Err::<Seq<u8>, M100Error>(M100Error::InvalidTail(b)),
{
    let f = frame_spec(cmd, payload);
    let g = f.update(f.len() - 1, b);
    let n = payload.len() as int;
    assert(g.len() == 7 + n);
    assert(g[3] == (n / 256) as u8 && g[4] == (n % 256) as u8);
    lemma_fundamental_div_mod(n, 256);
    assert(frame_len_field(g) == n);
    assert(g.last() == b);
}

/// Replacing one element of a byte sequence shifts its sum by exactly the
/// difference between the new byte and the old one.
pub proof fn lemma_sum_bytes_update(s: Seq<u8>, i: int, b: u8)
    requires
        0 <= i < s.len(),
    ensures
        sum_bytes(s.update(i, b)) == sum_bytes(s) - s[i] + b,
    decreases s.len(),
{
    let t = s.update(i, b);
    if i == s.len() - 1 {
        assert(t.drop_last() =~= s.drop_last());
    } else {
        assert(t.drop_last() =~= s.drop_last().update(i, b));
        lemma_sum_bytes_update(s.drop_last(), i, b);
    }
}

/// Law: the checksum catches every single-byte payload corruption. Changing
/// exactly one payload byte always changes the checksum byte of the encoded
/// frame. (Changing two or more bytes can leave the checksum unchanged
/// whenever the byte sums collide modulo 256: the checksum is a weak check,
/// not a cryptographic one.)
pub proof fn lemma_single_byte_change_alters_checksum(cmd: u8, payload: Seq<u8>, i: int, b: u8)
    requires
        payload.len() <= 0xFFFF,
        0 <= i < payload.len(),
        b != payload[i],
    ensures
        checksum_spec(cmd, payload.update(i, b)) != checksum_spec(cmd, payload),
{
    let p2 = payload.update(i, b);
    let body1 = frame_body_spec(cmd, payload);
    let body2 = frame_body_spec(cmd, p2);
    assert(body2 =~= body1.update(4 + i, b));
    lemma_sum_bytes_update(body1, 4 + i, b);
    let s1 = sum_bytes(body1);
    let s2 = sum_bytes(body2);
    let d = b - payload[i];
    assert(s2 - s1 == d);
    assert(-256 < d < 256 && d != 0);
    lemma_mod_equivalence(s2, s1, 256);
    if d > 0 {
        lemma_small_mod(d as nat, 256);
    } else {
        lemma_mod_add_multiples_vanish(d, 256);
        lemma_small_mod((d + 256) as nat, 256);
    }
    assert(s2 % 256 != s1 % 256);
}

/// Reads the big-endian 16-bit length field out of the five header bytes of
/// a response frame, so the caller knows how many payload bytes follow.
pub fn response_payload_len(header: &[u8]) -> (r: u16)
    requires
        header@.len() >= 5,
    ensures
        r as int == header@[3] * 256 + header@[4],
{
    (header[3] as u16) * 256 + (header[4] as u16)
}

/// Decodes one raw response frame: checks that the byte count matches the
/// length field and that the final byte is the `0x7E` terminator, and
/// returns the payload bytes between the header and the trailer.
pub fn decode_frame(frame: &[u8]) -> (r: Result<Vec<u8>, M100Error>)
    ensures
        match r {
            Ok(p) => decode_spec(frame@) matches Ok(s) && p@ == s,
            Err(e) => decode_spec(frame@) == Err::<Seq<u8>, M100Error>(e),
        },
{
    if frame.len() < 7 {
        return Err(M100Error::MalformedFrame);
    }
    let n: usize = (frame[3] as usize) * 256 + (frame[4] as usize);
    if frame.len() != 7 + n {
        return Err(M100Error::MalformedFrame);
    }
    let tail: u8 = frame[frame.len() - 1];
    if tail != 0x7E {
        return Err(M100Error::InvalidTail(tail));
    }
    Ok(slice_to_vec(slice_subrange(frame, 5, 5 + n)))
}

/// Appends every byte of `src` to `dst`.
pub(crate) fn append_bytes(dst: &mut Vec<u8>, src: &[u8])
    ensures
        final(dst)@ == old(dst)@ + src@,
{
    let mut i: usize = 0;
    while i < src.len()
        invariant
            i <= src@.len(),
            dst@ == old(dst)@ + src@.take(i as int),
        decreases src@.len() - i,
    {
        dst.push(src[i]);
        assert(src@.take(i + 1) =~= src@.take(i as int).push(src@[i as int]));
        i += 1;
    }
    assert(old(dst)@ + src@.take(src@.len() as int) =~= old(dst)@ + src@);
}

/// Pushes a 16-bit value onto `dst` as two big-endian bytes.
fn append_be16(dst: &mut Vec<u8>, n: u16)
    ensures
        final(dst)@ == old(dst)@ + be16_bytes(n as int),
{
    dst.push((n / 256) as u8);
    dst.push((n % 256) as u8);
    assert(final(dst)@ =~= old(dst)@ + be16_bytes(n as int));
}

/// Builds the get-version frame: payload `[0x00]`.
pub fn get_version() -> (r: Result<Vec<u8>, M100Error>)
    ensures
        r matches Ok(f) && f@ == frame_spec(0x03, seq![0x00u8]),
{
    let mut payload: Vec<u8> = Vec::new();
    payload.push(0x00);
    assert(payload@ =~= seq![0x00u8]);
    make_frame(Command::GetVersion, payload.as_slice())
}

/// Builds the set-HFSS frame: payload is the single mode byte.
pub fn set_hfss_status(status: HfssStatus) -> (r: Result<Vec<u8>, M100Error>)
    ensures
        r matches Ok(f) && f@ == frame_spec(0xAD, seq![status.code_spec()]),
{
    let mut payload: Vec<u8> = Vec::new();
    payload.push(status.code());
    assert(payload@ =~= seq![status.code_spec()]);
    make_frame(Command::SetHfss, payload.as_slice())
}

/// Builds the query frame: payload `[0x00, 0x00]`.
pub fn query() -> (r: Result<Vec<u8>, M100Error>)
    ensures
        r matches Ok(f) && f@ == frame_spec(0x22, seq![0x00u8, 0x00u8]),
{
    let mut payload: Vec<u8> = Vec::new();
    payload.push(0x00);
    payload.push(0x00);
    assert(payload@ =~= seq![0x00u8, 0x00u8]);
    make_frame(Command::Query, payload.as_slice())
}

/// Builds the idle frame, used to leave continuous-inventory/sleep mode:
/// payload `[0x00, 0x01, 0x00]`.
pub fn idle() -> (r: Result<Vec<u8>, M100Error>)
    ensures
        r matches Ok(f) && f@ == frame_spec(0x04, seq![0x00u8, 0x01u8, 0x00u8]),
{
    let mut payload: Vec<u8> = Vec::new();
    payload.push(0x00);
    payload.push(0x01);
    payload.push(0x00);
    assert(payload@ =~= seq![0x00u8, 0x01u8, 0x00u8]);
    make_frame(Command::Idle, payload.as_slice())
}

/// The read-data payload: password, bank byte, big-endian address and
/// big-endian read length.
pub open spec fn read_data_payload_spec(
    password: Seq<u8>,
    bank: MemoryBank,
    address: u16,
    data_length: u16,
) -> Seq<u8> {
    password + seq![bank.code_spec()] + be16_bytes(address as int) + be16_bytes(
        data_length as int,
    )
}

/// Builds the read-data frame for the given bank, address and length.
pub fn read_data(password: &[u8], bank: MemoryBank, address: u16, data_length: u16) -> (r: Result<
    Vec<u8>,
    M100Error,
>)
    requires
        password@.len() == 8,
    ensures
        r matches Ok(f) && f@ == frame_spec(
            0x39,
            read_data_payload_spec(password@, bank, address, data_length),
        ),
{
    let mut payload: Vec<u8> = Vec::new();
    append_bytes(&mut payload, password);
    payload.push(bank.code());
    append_be16(&mut payload, address);
    append_be16(&mut payload, data_length);
    assert(payload@ =~= read_data_payload_spec(password@, bank, address, data_length));
    make_frame(Command::ReadData, payload.as_slice())
}

/// The write-data payload: password, bank byte, big-endian address,
/// big-endian data length, then the data itself.
pub open spec fn write_data_payload_spec(
    password: Seq<u8>,
    bank: MemoryBank,
    address: u16,
    data: Seq<u8>,
) -> Seq<u8> {
    password + seq![bank.code_spec()] + be16_bytes(address as int) + be16_bytes(
        data.len() as int,
    ) + data
}

/// Builds the write-data frame for a bank other than Epc; an EPC write goes
/// through `write_epc` instead, which adds the protocol-control word.
/// Fails only when the payload does not fit the 16-bit length field.
pub fn write_data(password: &[u8], bank: MemoryBank, address: u16, data: &[u8]) -> (r: Result<
    Vec<u8>,
    M100Error,
>)
    requires
        password@.len() == 8,
        bank != MemoryBank::Epc,
    ensures
        data@.len() <= 0xFFF2 ==> (r matches Ok(f) && f@ == frame_spec(
            0x49,
            write_data_payload_spec(password@, bank, address, data@),
        )),
        data@.len() > 0xFFF2 ==> r == Err::<Vec<u8>, M100Error>(M100Error::PayloadTooLong),
{
    if data.len() > 0xFFF2 {
        return Err(M100Error::PayloadTooLong);
    }
    let mut payload: Vec<u8> = Vec::new();
    append_bytes(&mut payload, password);
    payload.push(bank.code());
    append_be16(&mut payload, address);
    append_be16(&mut payload, data.len() as u16);
    append_bytes(&mut payload, data);
    assert(payload@ =~= write_data_payload_spec(password@, bank, address, data@));
    make_frame(Command::WriteData, payload.as_slice())
}

/// The protocol-control word that precedes an EPC on the air interface,
/// derived from the EPC byte count. A fixed wire convention of the module,
/// not interpreted further here.
pub open spec fn epc_pc_word(data_len: u16) -> u16 {
    (data_len << 10) & 0xF800
}

/// The write-EPC payload: password, the Epc bank byte, the fixed bytes
/// `0x00` and `0x01`, big-endian data length, big-endian protocol-control
/// word, then the data itself.
pub open spec fn write_epc_payload_spec(password: Seq<u8>, data: Seq<u8>) -> Seq<u8> {
    password + seq![MemoryBank::Epc.code_spec(), 0x00u8, 0x01u8] + be16_bytes(data.len() as int)
        + be16_bytes(epc_pc_word(data.len() as u16) as int) + data
}

/// Builds the frame that writes a new EPC, with the protocol-control word
/// derived from the data length. Fails only when the payload does not fit
/// the 16-bit length field.
pub fn write_epc(password: &[u8], data: &[u8]) -> (r: Result<Vec<u8>, M100Error>)
    requires
        password@.len() == 8,
    ensures
        data@.len() <= 0xFFF0 ==> (r matches Ok(f) && f@ == frame_spec(
            0x49,
            write_epc_payload_spec(password@, data@),
        )),
        data@.len() > 0xFFF0 ==> r == Err::<Vec<u8>, M100Error>(M100Error::PayloadTooLong),
{
    if data.len() > 0xFFF0 {
        return Err(M100Error::PayloadTooLong);
    }
    let mut payload: Vec<u8> = Vec::new();
    append_bytes(&mut payload, password);
    payload.push(MemoryBank::Epc.code());
    payload.push(0x00);
    payload.push(0x01);
    append_be16(&mut payload, data.len() as u16);
    let pc: u16 = ((data.len() as u16) << 10u16) & 0xF800;
    append_be16(&mut payload, pc);
    append_bytes(&mut payload, data);
    assert(payload@ =~= write_epc_payload_spec(password@, data@));
    make_frame(Command::WriteData, payload.as_slice())
}

} // verus!
