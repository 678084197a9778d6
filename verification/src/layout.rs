//! The fixed-layout transport request that carries a SCSI command
//! descriptor block (CDB) through the generic passthrough control call.
//!
//! The field order and widths mirror an externally imposed kernel ABI and
//! are a contract, not a design choice. `spec_encode_request` and
//! `spec_decode_request` pin the byte-for-byte wire image (little-endian,
//! 64-bit handles, with the two alignment gaps the ABI leaves), and
//! `lemma_request_encoding_round_trip` proves the two agree on every
//! request value.

use vstd::bytes::*;
use vstd::prelude::*;

verus! {

/// Guard tag identifying the request kind: the character code of `'S'`.
pub const INTERFACE_ID_GUARD: i32 = 83;

/// The transport accepts no CDB longer than this.
pub const MAX_CDB_LEN: u8 = 16;

/// Fixed length of the caller-allocated sense scratch buffer.
pub const SENSE_BUFFER_LEN: u8 = 32;

/// ABI direction code for a command that transfers no data.
pub const DIRECTION_NONE_CODE: i32 = -1;

/// ABI direction code for a device-to-host transfer.
pub const DIRECTION_FROM_DEVICE_CODE: i32 = -3;

/// Byte length of the encoded transport request on the 64-bit ABI.
pub const ENCODED_REQUEST_LEN: usize = 88;

/// Outcome info bitmask bit: when clear, the command succeeded.
pub const INFO_OK_MASK: u32 = 1;

/// INQUIRY operation code.
pub const INQUIRY_OPCODE: u8 = 0x12;

/// Number of response bytes requested from INQUIRY.
pub const INQUIRY_REPLY_LEN: u8 = 96;

/// Length of the six-byte INQUIRY CDB.
pub const INQUIRY_CDB_LEN: u8 = 6;

/// Default timeout for the INQUIRY control call, in milliseconds.
pub const INQUIRY_TIMEOUT_MS: u32 = 20000;

/// A failure of the command control call itself: fatal and never retried,
/// as opposed to a device-reported condition, which is diagnostic output.
#[derive(Clone, Copy, Debug, PartialEq, Eq, Structural)]
pub struct TransportError {
    /// The reported system error code.
    pub errno: i32,
}

/// Classifies the raw return of the command control call: a negative
/// return is a transport failure, carrying the system error code; any
/// other return means the transport completed and its output fields may
/// be read.
pub fn evaluate_transport_call(rc: i32, errno: i32) -> (r: Result<(), TransportError>)
    ensures
        r is Ok <==> rc >= 0,
        rc < 0 ==> r == Err::<(), TransportError>(TransportError { errno }),
{
    if rc < 0 {
        Err(TransportError { errno })
    } else {
        Ok(())
    }
}

/// Requested transfer direction for one command.
#[derive(Clone, Copy, Debug, PartialEq, Eq, Structural)]
pub enum Direction {
    /// No data phase.
    NoTransfer,
    /// The device writes into the caller's response buffer.
    DeviceToHost,
}

impl Direction {
    /// The ABI code the transport expects for this direction.
    pub open spec fn spec_code(self) -> i32 {
        match self {
            Direction::NoTransfer => DIRECTION_NONE_CODE,
            Direction::DeviceToHost => DIRECTION_FROM_DEVICE_CODE,
        }
    }

    /// Returns the ABI code for this direction.
    pub fn code(self) -> (c: i32)
        ensures
            c == self.spec_code(),
    {
        match self {
            Direction::NoTransfer => DIRECTION_NONE_CODE,
            Direction::DeviceToHost => DIRECTION_FROM_DEVICE_CODE,
        }
    }
}

/// The fixed-layout record handed to the passthrough control call.
///
/// Buffer addresses appear as opaque 64-bit handles: they stand for
/// short-lived borrows of the caller's CDB, response and sense buffers,
/// valid only for the duration of one call. Fields from `status` on are
/// outputs the transport populates after the call.
#[derive(Clone, Copy, Debug, PartialEq, Eq, Structural)]
pub struct TransportRequest {
    /// Guard tag; must be `INTERFACE_ID_GUARD`.
    pub interface_id: i32,
    /// Transfer direction code.
    pub dxfer_direction: i32,
    /// Length of the CDB the request carries, at most `MAX_CDB_LEN`.
    pub cmd_len: u8,
    /// Capacity of the sense buffer the transport may write.
    pub mx_sb_len: u8,
    /// Scatter-gather count; must stay zero for this use.
    pub iovec_count: u16,
    /// Requested transfer length in bytes.
    pub dxfer_len: u32,
    /// Handle to the caller's response buffer.
    pub data_buffer_handle: u64,
    /// Handle to the CDB bytes.
    pub cdb_handle: u64,
    /// Handle to the caller's sense buffer.
    pub sense_buffer_handle: u64,
    /// Timeout in milliseconds.
    pub timeout_ms: u32,
    /// Flags; zero selects the default behaviour.
    pub flags: u32,
    /// Opaque pass-through tag.
    pub pack_id: i32,
    /// Opaque pass-through handle.
    pub user_tag_handle: u64,
    /// Output: command status byte, zero meaning good.
    pub status: u8,
    /// Output: deprecated masked form of `status`.
    pub masked_status: u8,
    /// Output: deprecated message status.
    pub msg_status: u8,
    /// Output: sense bytes actually written through the sense handle.
    pub sb_len_wr: u8,
    /// Output: host-level error code.
    pub host_status: u16,
    /// Output: driver-level error code.
    pub driver_status: u16,
    /// Output: requested length minus bytes actually transferred.
    pub resid: i32,
    /// Output: elapsed milliseconds.
    pub duration: u32,
    /// Output: outcome info bitmask.
    pub info: u32,
}

impl TransportRequest {
    /// A request is well formed when its guard tag is set, its CDB fits the
    /// transport's maximum and the scatter-gather count is zero.
    pub open spec fn well_formed(self) -> bool {
        &&& self.interface_id == INTERFACE_ID_GUARD
        &&& self.cmd_len <= MAX_CDB_LEN
        &&& self.iovec_count == 0
    }
}

/// The all-default request: guard tag set, no transfer, every other input
/// zero but for the transport's stock 30-second timeout, outputs zeroed.
pub open spec fn spec_default_request() -> TransportRequest {
    TransportRequest {
        interface_id: INTERFACE_ID_GUARD,
        dxfer_direction: 0,
        cmd_len: 0,
        mx_sb_len: 0,
        iovec_count: 0,
        dxfer_len: 0,
        data_buffer_handle: 0,
        cdb_handle: 0,
        sense_buffer_handle: 0,
        timeout_ms: 30000,
        flags: 0,
        pack_id: 0,
        user_tag_handle: 0,
        status: 0,
        masked_status: 0,
        msg_status: 0,
        sb_len_wr: 0,
        host_status: 0,
        driver_status: 0,
        resid: 0,
        duration: 0,
        info: 0,
    }
}

impl Default for TransportRequest {
    /// Returns the all-default request.
    fn default() -> (r: Self)
        ensures
            r == spec_default_request(),
    {
        TransportRequest {
            interface_id: INTERFACE_ID_GUARD,
            dxfer_direction: 0,
            cmd_len: 0,
            mx_sb_len: 0,
            iovec_count: 0,
            dxfer_len: 0,
            data_buffer_handle: 0,
            cdb_handle: 0,
            sense_buffer_handle: 0,
            timeout_ms: 30000,
            flags: 0,
            pack_id: 0,
            user_tag_handle: 0,
            status: 0,
            masked_status: 0,
            msg_status: 0,
            sb_len_wr: 0,
            host_status: 0,
            driver_status: 0,
            resid: 0,
            duration: 0,
            info: 0,
        }
    }
}

/// Builds the transport request for one command: zero-initialized, guard
/// tag set, direction, lengths, handles and timeout wired in, all output
/// fields zero.
pub fn build_request(
    direction: Direction,
    cdb_len: u8,
    transfer_len: u32,
    timeout_ms: u32,
    data_buffer_handle: u64,
    cdb_handle: u64,
    sense_buffer_handle: u64,
) -> (r: TransportRequest)
    requires
        cdb_len <= MAX_CDB_LEN,
    ensures
        r == (TransportRequest {
            dxfer_direction: direction.spec_code(),
            cmd_len: cdb_len,
            mx_sb_len: SENSE_BUFFER_LEN,
            dxfer_len: transfer_len,
            data_buffer_handle,
            cdb_handle,
            sense_buffer_handle,
            timeout_ms,
            ..spec_default_request()
        }),
        r.well_formed(),
{
    TransportRequest {
        dxfer_direction: direction.code(),
        cmd_len: cdb_len,
        mx_sb_len: SENSE_BUFFER_LEN,
        dxfer_len: transfer_len,
        data_buffer_handle,
        cdb_handle,
        sense_buffer_handle,
        timeout_ms,
        ..Default::default()
    }
}

/// The six INQUIRY CDB bytes: opcode, three reserved bytes, the allocation
/// length (96), and the control byte.
pub open spec fn spec_inquiry_cdb() -> Seq<u8> {
    seq![INQUIRY_OPCODE, 0u8, 0u8, 0u8, INQUIRY_REPLY_LEN, 0u8]
}

/// Builds the INQUIRY command descriptor block.
pub fn inquiry_cdb() -> (cdb: Vec<u8>)
    ensures
        cdb@ == spec_inquiry_cdb(),
        cdb@.len() == INQUIRY_CDB_LEN,
{
    let mut cdb: Vec<u8> = Vec::new();
    cdb.push(INQUIRY_OPCODE);
    cdb.push(0);
    cdb.push(0);
    cdb.push(0);
    cdb.push(INQUIRY_REPLY_LEN);
    cdb.push(0);
    proof {
        assert(cdb@ =~= spec_inquiry_cdb());
    }
    cdb
}

/// Builds the transport request for the INQUIRY command: device-to-host,
/// six-byte CDB, 96-byte response, 32-byte sense capacity, 20-second
/// timeout.
pub fn build_inquiry_request(
    data_buffer_handle: u64,
    cdb_handle: u64,
    sense_buffer_handle: u64,
) -> (r: TransportRequest)
    ensures
        r == (TransportRequest {
            dxfer_direction: DIRECTION_FROM_DEVICE_CODE,
            cmd_len: INQUIRY_CDB_LEN,
            mx_sb_len: SENSE_BUFFER_LEN,
            dxfer_len: INQUIRY_REPLY_LEN as u32,
            data_buffer_handle,
            cdb_handle,
            sense_buffer_handle,
            timeout_ms: INQUIRY_TIMEOUT_MS,
            ..spec_default_request()
        }),
        r.well_formed(),
{
    build_request(
        Direction::DeviceToHost,
        INQUIRY_CDB_LEN,
        INQUIRY_REPLY_LEN as u32,
        INQUIRY_TIMEOUT_MS,
        data_buffer_handle,
        cdb_handle,
        sense_buffer_handle,
    )
}

/// The exact 88-byte little-endian wire image of a request on the 64-bit
/// ABI: each field at its fixed offset, with the four-byte alignment gap
/// after `pack_id` (offset 52) zeroed; the struct's four tail padding bytes
/// (offset 84) are zero as well.
pub open spec fn spec_encode_request(r: TransportRequest) -> Seq<u8> {
    spec_u32_to_le_bytes(r.interface_id as u32) + spec_u32_to_le_bytes(r.dxfer_direction as u32)
        + seq![r.cmd_len, r.mx_sb_len] + spec_u16_to_le_bytes(r.iovec_count)
        + spec_u32_to_le_bytes(r.dxfer_len) + spec_u64_to_le_bytes(r.data_buffer_handle)
        + spec_u64_to_le_bytes(r.cdb_handle) + spec_u64_to_le_bytes(r.sense_buffer_handle)
        + spec_u32_to_le_bytes(r.timeout_ms) + spec_u32_to_le_bytes(r.flags)
        + spec_u32_to_le_bytes(r.pack_id as u32) + seq![0u8, 0u8, 0u8, 0u8]
        + spec_u64_to_le_bytes(r.user_tag_handle)
        + seq![r.status, r.masked_status, r.msg_status, r.sb_len_wr]
        + spec_u16_to_le_bytes(r.host_status) + spec_u16_to_le_bytes(r.driver_status)
        + spec_u32_to_le_bytes(r.resid as u32) + spec_u32_to_le_bytes(r.duration)
        + spec_u32_to_le_bytes(r.info) + seq![0u8, 0u8, 0u8, 0u8]
}

/// Reparses an 88-byte wire image back into the request's fields, reading
/// each field at the offset `spec_encode_request` assigns it; any other
/// length is refused.
pub open spec fn spec_decode_request(s: Seq<u8>) -> Option<TransportRequest> {
    if s.len() != ENCODED_REQUEST_LEN {
        None
    } else {
        Some(
            TransportRequest {
                interface_id: spec_u32_from_le_bytes(s.subrange(0, 4)) as i32,
                dxfer_direction: spec_u32_from_le_bytes(s.subrange(4, 8)) as i32,
                cmd_len: s[8],
                mx_sb_len: s[9],
                iovec_count: spec_u16_from_le_bytes(s.subrange(10, 12)),
                dxfer_len: spec_u32_from_le_bytes(s.subrange(12, 16)),
                data_buffer_handle: spec_u64_from_le_bytes(s.subrange(16, 24)),
                cdb_handle: spec_u64_from_le_bytes(s.subrange(24, 32)),
                sense_buffer_handle: spec_u64_from_le_bytes(s.subrange(32, 40)),
                timeout_ms: spec_u32_from_le_bytes(s.subrange(40, 44)),
                flags: spec_u32_from_le_bytes(s.subrange(44, 48)),
                pack_id: spec_u32_from_le_bytes(s.subrange(48, 52)) as i32,
                user_tag_handle: spec_u64_from_le_bytes(s.subrange(56, 64)),
                status: s[64],
                masked_status: s[65],
                msg_status: s[66],
                sb_len_wr: s[67],
                host_status: spec_u16_from_le_bytes(s.subrange(68, 70)),
                driver_status: spec_u16_from_le_bytes(s.subrange(70, 72)),
                resid: spec_u32_from_le_bytes(s.subrange(72, 76)) as i32,
                duration: spec_u32_from_le_bytes(s.subrange(76, 80)),
                info: spec_u32_from_le_bytes(s.subrange(80, 84)),
            },
        )
    }
}

/// Serializes a request into its 88-byte wire image.
pub fn encode_request(r: &TransportRequest) -> (out: Vec<u8>)
    ensures
        out@ == spec_encode_request(*r),
        out@.len() == ENCODED_REQUEST_LEN,
{
    proof {
        lemma_auto_spec_u16_to_from_le_bytes();
        lemma_auto_spec_u32_to_from_le_bytes();
        lemma_auto_spec_u64_to_from_le_bytes();
    }
    let mut out: Vec<u8> = Vec::new();
    put_u32(&mut out, r.interface_id as u32);
    put_u32(&mut out, r.dxfer_direction as u32);
    out.push(r.cmd_len);
    out.push(r.mx_sb_len);
    put_u16(&mut out, r.iovec_count);
    put_u32(&mut out, r.dxfer_len);
    put_u64(&mut out, r.data_buffer_handle);
    put_u64(&mut out, r.cdb_handle);
    put_u64(&mut out, r.sense_buffer_handle);
    put_u32(&mut out, r.timeout_ms);
    put_u32(&mut out, r.flags);
    put_u32(&mut out, r.pack_id as u32);
    out.push(0);
    out.push(0);
    out.push(0);
    out.push(0);
    put_u64(&mut out, r.user_tag_handle);
    out.push(r.status);
    out.push(r.masked_status);
    out.push(r.msg_status);
    out.push(r.sb_len_wr);
    put_u16(&mut out, r.host_status);
    put_u16(&mut out, r.driver_status);
    put_u32(&mut out, r.resid as u32);
    put_u32(&mut out, r.duration);
    put_u32(&mut out, r.info);
    out.push(0);
    out.push(0);
    out.push(0);
    out.push(0);
    proof {
        assert(out@ =~= spec_encode_request(*r));
    }
    out
}

/// Reparses an 88-byte wire image; returns `None` for any other length.
pub fn decode_request(bytes: &[u8]) -> (r: Option<TransportRequest>)
    ensures
        r == spec_decode_request(bytes@),
{
    proof {
        lemma_auto_spec_u16_to_from_le_bytes();
        lemma_auto_spec_u32_to_from_le_bytes();
        lemma_auto_spec_u64_to_from_le_bytes();
    }
    if bytes.len() != ENCODED_REQUEST_LEN {
        return None;
    }
    let r = TransportRequest {
        interface_id: get_u32(bytes, 0) as i32,
        dxfer_direction: get_u32(bytes, 4) as i32,
        cmd_len: bytes[8],
        mx_sb_len: bytes[9],
        iovec_count: get_u16(bytes, 10),
        dxfer_len: get_u32(bytes, 12),
        data_buffer_handle: get_u64(bytes, 16),
        cdb_handle: get_u64(bytes, 24),
        sense_buffer_handle: get_u64(bytes, 32),
        timeout_ms: get_u32(bytes, 40),
        flags: get_u32(bytes, 44),
        pack_id: get_u32(bytes, 48) as i32,
        user_tag_handle: get_u64(bytes, 56),
        status: bytes[64],
        masked_status: bytes[65],
        msg_status: bytes[66],
        sb_len_wr: bytes[67],
        host_status: get_u16(bytes, 68),
        driver_status: get_u16(bytes, 70),
        resid: get_u32(bytes, 72) as i32,
        duration: get_u32(bytes, 76),
        info: get_u32(bytes, 80),
    };
    Some(r)
}

/// Serializing a request and reparsing the image yields the identical
/// request, for every request value: the wire image loses no field and
/// puts every field at the offset the reparse reads it from.
pub proof fn lemma_request_encoding_round_trip(r: TransportRequest)
    ensures
        spec_encode_request(r).len() == ENCODED_REQUEST_LEN,
        spec_decode_request(spec_encode_request(r)) == Some(r),
{
    lemma_auto_spec_u16_to_from_le_bytes();
    lemma_auto_spec_u32_to_from_le_bytes();
    lemma_auto_spec_u64_to_from_le_bytes();
    let s = spec_encode_request(r);
    assert(s.len() == ENCODED_REQUEST_LEN);
    assert(s.subrange(0, 4) =~= spec_u32_to_le_bytes(r.interface_id as u32));
    assert(s.subrange(4, 8) =~= spec_u32_to_le_bytes(r.dxfer_direction as u32));
    assert(s.subrange(10, 12) =~= spec_u16_to_le_bytes(r.iovec_count));
    assert(s.subrange(12, 16) =~= spec_u32_to_le_bytes(r.dxfer_len));
    assert(s.subrange(16, 24) =~= spec_u64_to_le_bytes(r.data_buffer_handle));
    assert(s.subrange(24, 32) =~= spec_u64_to_le_bytes(r.cdb_handle));
    assert(s.subrange(32, 40) =~= spec_u64_to_le_bytes(r.sense_buffer_handle));
    assert(s.subrange(40, 44) =~= spec_u32_to_le_bytes(r.timeout_ms));
    assert(s.subrange(44, 48) =~= spec_u32_to_le_bytes(r.flags));
    assert(s.subrange(48, 52) =~= spec_u32_to_le_bytes(r.pack_id as u32));
    assert(s.subrange(56, 64) =~= spec_u64_to_le_bytes(r.user_tag_handle));
    assert(s.subrange(68, 70) =~= spec_u16_to_le_bytes(r.host_status));
    assert(s.subrange(70, 72) =~= spec_u16_to_le_bytes(r.driver_status));
    assert(s.subrange(72, 76) =~= spec_u32_to_le_bytes(r.resid as u32));
    assert(s.subrange(76, 80) =~= spec_u32_to_le_bytes(r.duration));
    assert(s.subrange(80, 84) =~= spec_u32_to_le_bytes(r.info));
    assert(s[8] == r.cmd_len);
    assert(s[9] == r.mx_sb_len);
    assert(s[64] == r.status);
    assert(s[65] == r.masked_status);
    assert(s[66] == r.msg_status);
    assert(s[67] == r.sb_len_wr);
    let a = r.interface_id;
    assert(((a as u32) as i32) == a) by (bit_vector);
    let b = r.dxfer_direction;
    assert(((b as u32) as i32) == b) by (bit_vector);
    let c = r.pack_id;
    assert(((c as u32) as i32) == c) by (bit_vector);
    let d = r.resid;
    assert(((d as u32) as i32) == d) by (bit_vector);
    let decoded = spec_decode_request(s)->Some_0;
    assert(decoded == r);
}

/// Appends the two little-endian bytes of `x`.
fn put_u16(out: &mut Vec<u8>, x: u16)
    ensures
        final(out)@ == old(out)@ + spec_u16_to_le_bytes(x),
{
    let mut piece = u16_to_le_bytes(x);
    out.append(&mut piece);
}

/// Appends the four little-endian bytes of `x`.
fn put_u32(out: &mut Vec<u8>, x: u32)
    ensures
        final(out)@ == old(out)@ + spec_u32_to_le_bytes(x),
{
    let mut piece = u32_to_le_bytes(x);
    out.append(&mut piece);
}

/// Appends the eight little-endian bytes of `x`.
fn put_u64(out: &mut Vec<u8>, x: u64)
    ensures
        final(out)@ == old(out)@ + spec_u64_to_le_bytes(x),
{
    let mut piece = u64_to_le_bytes(x);
    out.append(&mut piece);
}

/// Reads the little-endian `u16` at byte offset `at`.
fn get_u16(bytes: &[u8], at: usize) -> (x: u16)
    requires
        at + 2 <= bytes@.len() <= usize::MAX,
    ensures
        x == spec_u16_from_le_bytes(bytes@.subrange(at as int, at + 2)),
{
    u16_from_le_bytes(vstd::slice::slice_subrange(bytes, at, at + 2))
}

/// Reads the little-endian `u32` at byte offset `at`.
fn get_u32(bytes: &[u8], at: usize) -> (x: u32)
    requires
        at + 4 <= bytes@.len() <= usize::MAX,
    ensures
        x == spec_u32_from_le_bytes(bytes@.subrange(at as int, at + 4)),
{
    u32_from_le_bytes(vstd::slice::slice_subrange(bytes, at, at + 4))
}

/// Reads the little-endian `u64` at byte offset `at`.
fn get_u64(bytes: &[u8], at: usize) -> (x: u64)
    requires
        at + 8 <= bytes@.len() <= usize::MAX,
    ensures
        x == spec_u64_from_le_bytes(bytes@.subrange(at as int, at + 8)),
{
    u64_from_le_bytes(vstd::slice::slice_subrange(bytes, at, at + 8))
}

} // verus!
