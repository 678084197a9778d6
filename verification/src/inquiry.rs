//! INQUIRY response decoding: extracts the device identity fields from the
//! fixed byte ranges of a successful 96-byte response buffer.
//!
//! Field layout within the response: vendor id at offsets 8..16, model
//! number at 16..32, firmware revision at 32..36, serial number at 36..44.
//! Each field decodes as UTF-8 text and is trimmed of trailing padding. A
//! buffer shorter than 96 bytes, or a field holding bytes that are not a
//! valid UTF-8 encoding, is a decode error, never a silently truncated
//! result.

use crate::text::{
    dec_chars,
    dec_string_i32,
    dec_string_u64,
    padded_field_text,
    signed_dec_chars,
    trim_padding,
};
use vstd::prelude::*;
use vstd::string::StringExecFns;
use vstd::utf8::decode_utf8;
use vstd::utf8::valid_utf8;

verus! {

/// A response buffer must hold at least this many bytes to decode.
pub const INQUIRY_RESPONSE_LEN: usize = 96;

/// One of the four identity fields of an INQUIRY response.
#[derive(Clone, Copy, Debug, PartialEq, Eq, Structural)]
pub enum IdentityField {
    Vendor,
    Model,
    FirmwareRev,
    SerialNumber,
}

/// Why a response buffer failed to decode.
#[derive(Clone, Copy, Debug, PartialEq, Eq, Structural)]
pub enum DecodeError {
    /// The buffer holds fewer than `INQUIRY_RESPONSE_LEN` bytes; carries
    /// the actual length.
    BufferTooShort { actual: usize },
    /// The named field holds bytes that do not decode as UTF-8 text.
    FieldNotText { field: IdentityField },
}

/// The identity fields decoded from a successful INQUIRY response.
#[derive(Clone, Debug, PartialEq, Eq)]
pub struct InquiryResponse {
    pub vendor_id: String,
    pub model_number: String,
    pub firmware_rev: String,
    pub serial_number: String,
}

/// Start offset of one identity field within the response buffer.
pub open spec fn spec_field_start(f: IdentityField) -> int {
    match f {
        IdentityField::Vendor => 8,
        IdentityField::Model => 16,
        IdentityField::FirmwareRev => 32,
        IdentityField::SerialNumber => 36,
    }
}

/// End offset (exclusive) of one identity field within the response buffer.
pub open spec fn spec_field_end(f: IdentityField) -> int {
    match f {
        IdentityField::Vendor => 16,
        IdentityField::Model => 32,
        IdentityField::FirmwareRev => 36,
        IdentityField::SerialNumber => 44,
    }
}

/// The raw bytes of one identity field.
pub open spec fn spec_field_bytes(buf: Seq<u8>, f: IdentityField) -> Seq<u8>
    recommends
        buf.len() >= INQUIRY_RESPONSE_LEN,
{
    buf.subrange(spec_field_start(f), spec_field_end(f))
}

/// The decoded text of one identity field: the UTF-8 decoding of its
/// bytes with trailing padding trimmed.
pub open spec fn spec_field_text(buf: Seq<u8>, f: IdentityField) -> Seq<char>
    recommends
        buf.len() >= INQUIRY_RESPONSE_LEN,
        valid_utf8(spec_field_bytes(buf, f)),
{
    decode_utf8(trim_padding(spec_field_bytes(buf, f)))
}

/// Whether a response buffer decodes: long enough, and every identity
/// field valid UTF-8.
pub open spec fn spec_inquiry_decodes(buf: Seq<u8>) -> bool {
    &&& buf.len() >= INQUIRY_RESPONSE_LEN
    &&& valid_utf8(spec_field_bytes(buf, IdentityField::Vendor))
    &&& valid_utf8(spec_field_bytes(buf, IdentityField::Model))
    &&& valid_utf8(spec_field_bytes(buf, IdentityField::FirmwareRev))
    &&& valid_utf8(spec_field_bytes(buf, IdentityField::SerialNumber))
}

/// The decode error a non-decodable buffer produces: a short buffer is
/// reported as such, otherwise the first non-text field in layout order.
pub open spec fn spec_decode_error(buf: Seq<u8>) -> DecodeError
    recommends
        !spec_inquiry_decodes(buf),
{
    if buf.len() < INQUIRY_RESPONSE_LEN {
        DecodeError::BufferTooShort { actual: buf.len() as usize }
    } else if !valid_utf8(spec_field_bytes(buf, IdentityField::Vendor)) {
        DecodeError::FieldNotText { field: IdentityField::Vendor }
    } else if !valid_utf8(spec_field_bytes(buf, IdentityField::Model)) {
        DecodeError::FieldNotText { field: IdentityField::Model }
    } else if !valid_utf8(spec_field_bytes(buf, IdentityField::FirmwareRev)) {
        DecodeError::FieldNotText { field: IdentityField::FirmwareRev }
    } else {
        DecodeError::FieldNotText { field: IdentityField::SerialNumber }
    }
}

/// Decodes the four identity fields of an INQUIRY response buffer.
///
/// Succeeds exactly when the buffer holds at least 96 bytes and each
/// identity field is valid UTF-8; then each returned field is the UTF-8
/// decoding of the field's bytes with trailing padding trimmed. Otherwise
/// returns the decode error `spec_decode_error` names.
pub fn parse_inquiry(buf: &[u8]) -> (r: Result<InquiryResponse, DecodeError>)
    ensures
        r is Ok <==> spec_inquiry_decodes(buf@),
        r matches Ok(resp) ==> {
            &&& resp.vendor_id@ == spec_field_text(buf@, IdentityField::Vendor)
            &&& resp.model_number@ == spec_field_text(buf@, IdentityField::Model)
            &&& resp.firmware_rev@ == spec_field_text(buf@, IdentityField::FirmwareRev)
            &&& resp.serial_number@ == spec_field_text(buf@, IdentityField::SerialNumber)
        },
        r matches Err(e) ==> e == spec_decode_error(buf@),
{
    if buf.len() < INQUIRY_RESPONSE_LEN {
        return Err(DecodeError::BufferTooShort { actual: buf.len() });
    }
    let vendor_id = match padded_field_text(vstd::slice::slice_subrange(buf, 8, 16)) {
        Some(s) => s,
        None => {
            return Err(DecodeError::FieldNotText { field: IdentityField::Vendor });
        },
    };
    let model_number = match padded_field_text(vstd::slice::slice_subrange(buf, 16, 32)) {
        Some(s) => s,
        None => {
            return Err(DecodeError::FieldNotText { field: IdentityField::Model });
        },
    };
    let firmware_rev = match padded_field_text(vstd::slice::slice_subrange(buf, 32, 36)) {
        Some(s) => s,
        None => {
            return Err(DecodeError::FieldNotText { field: IdentityField::FirmwareRev });
        },
    };
    let serial_number = match padded_field_text(vstd::slice::slice_subrange(buf, 36, 44)) {
        Some(s) => s,
        None => {
            return Err(DecodeError::FieldNotText { field: IdentityField::SerialNumber });
        },
    };
    Ok(InquiryResponse { vendor_id, model_number, firmware_rev, serial_number })
}

/// Renders the success report: the decoded identity fields, then the
/// call's elapsed duration and its residual count. The residual —
/// requested length minus bytes actually transferred — appears verbatim,
/// negative and zero values included.
pub fn identity_report(resp: &InquiryResponse, duration: u32, resid: i32) -> (lines: Vec<String>)
    ensures
        lines@.len() == 8,
        lines@[0]@ == "======SCSI INQUIRY Command Response======"@,
        lines@[1]@ == Seq::<char>::empty(),
        lines@[2]@ == "Vendor ID: "@ + resp.vendor_id@,
        lines@[3]@ == "Model Number: "@ + resp.model_number@,
        lines@[4]@ == "Firmware Revision: "@ + resp.firmware_rev@,
        lines@[5]@ == "Serial Number: "@ + resp.serial_number@,
        lines@[6]@ == "INQUIRY Duration = "@ + dec_chars(duration as nat) + " ms"@,
        lines@[7]@ == "INQUIRY Resid (non-zero means shortened DMA transfer) = "@
            + signed_dec_chars(resid as int),
{
    let mut lines: Vec<String> = Vec::new();
    lines.push(String::from_str("======SCSI INQUIRY Command Response======"));
    lines.push(String::new());
    lines.push(String::from_str("Vendor ID: ").concat(resp.vendor_id.as_str()));
    lines.push(String::from_str("Model Number: ").concat(resp.model_number.as_str()));
    lines.push(String::from_str("Firmware Revision: ").concat(resp.firmware_rev.as_str()));
    lines.push(String::from_str("Serial Number: ").concat(resp.serial_number.as_str()));
    lines.push(
        String::from_str("INQUIRY Duration = ").concat(
            dec_string_u64(duration as u64).as_str(),
        ).concat(" ms"),
    );
    lines.push(
        String::from_str("INQUIRY Resid (non-zero means shortened DMA transfer) = ").concat(
            dec_string_i32(resid).as_str(),
        ),
    );
    lines
}

} // verus!
