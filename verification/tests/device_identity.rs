use sg_inquiry::inquiry::identity_report;
use sg_inquiry::inquiry::parse_inquiry;
use sg_inquiry::inquiry::DecodeError;
use sg_inquiry::inquiry::IdentityField;
use sg_inquiry::layout::build_inquiry_request;
use sg_inquiry::layout::build_request;
use sg_inquiry::layout::evaluate_transport_call;
use sg_inquiry::layout::TransportError;
use sg_inquiry::layout::decode_request;
use sg_inquiry::layout::encode_request;
use sg_inquiry::layout::inquiry_cdb;
use sg_inquiry::layout::Direction;
use sg_inquiry::layout::TransportRequest;
use sg_inquiry::probe::evaluate_version_probe;
use sg_inquiry::probe::ProbeError;
use sg_inquiry::sense::command_ok;
use sg_inquiry::sense::diagnostic_report;
use sg_inquiry::sense::interpret_outcome;
use sg_inquiry::sense::sense_dump_lines;
use sg_inquiry::sense::CommandReport;
use sg_inquiry::text::dec_string_i32;
use sg_inquiry::text::hex_string;
use sg_inquiry::text::padded_field_text;

fn sample_request() -> TransportRequest {
    TransportRequest {
        interface_id: 83,
        dxfer_direction: -3,
        cmd_len: 6,
        mx_sb_len: 32,
        iovec_count: 0,
        dxfer_len: 96,
        data_buffer_handle: 0x1122_3344_5566_7788,
        cdb_handle: 0x99AA_BBCC_DDEE_FF00,
        sense_buffer_handle: 0x0102_0304_0506_0708,
        timeout_ms: 20000,
        flags: 0,
        pack_id: -7,
        user_tag_handle: 42,
        status: 2,
        masked_status: 1,
        msg_status: 3,
        sb_len_wr: 18,
        host_status: 0x11,
        driver_status: 0x08,
        resid: -12,
        duration: 77,
        info: 1,
    }
}

fn inquiry_buffer() -> Vec<u8> {
    let mut buf = vec![0u8; 96];
    buf[8..16].copy_from_slice(b"ACME    ");
    buf[16..32].copy_from_slice(b"MODEL-X         ");
    buf[32..36].copy_from_slice(b"1.00");
    buf[36..44].copy_from_slice(b"SN123456");
    buf
}

#[test]
fn encode_then_decode_is_identity() {
    let r = sample_request();
    let image = encode_request(&r);
    assert_eq!(image.len(), 88);
    let back = decode_request(&image).expect("88-byte image must reparse");
    assert_eq!(back, r);
}

#[test]
fn encode_places_fields_at_abi_offsets() {
    let r = sample_request();
    let image = encode_request(&r);
    assert_eq!(&image[0..4], &[83, 0, 0, 0]);
    assert_eq!(&image[4..8], &(-3i32 as u32).to_le_bytes());
    assert_eq!(image[8], 6);
    assert_eq!(image[9], 32);
    assert_eq!(&image[10..12], &[0, 0]);
    assert_eq!(&image[12..16], &96u32.to_le_bytes());
    assert_eq!(&image[16..24], &0x1122_3344_5566_7788u64.to_le_bytes());
    assert_eq!(&image[24..32], &0x99AA_BBCC_DDEE_FF00u64.to_le_bytes());
    assert_eq!(&image[32..40], &0x0102_0304_0506_0708u64.to_le_bytes());
    assert_eq!(&image[40..44], &20000u32.to_le_bytes());
    assert_eq!(&image[44..48], &[0, 0, 0, 0]);
    assert_eq!(&image[48..52], &(-7i32 as u32).to_le_bytes());
    assert_eq!(&image[52..56], &[0, 0, 0, 0]);
    assert_eq!(&image[56..64], &42u64.to_le_bytes());
    assert_eq!(image[64], 2);
    assert_eq!(image[65], 1);
    assert_eq!(image[66], 3);
    assert_eq!(image[67], 18);
    assert_eq!(&image[68..70], &0x11u16.to_le_bytes());
    assert_eq!(&image[70..72], &0x08u16.to_le_bytes());
    assert_eq!(&image[72..76], &(-12i32 as u32).to_le_bytes());
    assert_eq!(&image[76..80], &77u32.to_le_bytes());
    assert_eq!(&image[80..84], &1u32.to_le_bytes());
    assert_eq!(&image[84..88], &[0, 0, 0, 0]);
}

#[test]
fn decode_refuses_any_other_length() {
    assert!(decode_request(&[0u8; 87]).is_none());
    assert!(decode_request(&[0u8; 89]).is_none());
    assert!(decode_request(&[]).is_none());
}

#[test]
fn default_request_matches_transport_defaults() {
    let r = TransportRequest::default();
    assert_eq!(r.interface_id, 83);
    assert_eq!(r.dxfer_direction, 0);
    assert_eq!(r.timeout_ms, 30000);
    assert_eq!(r.cmd_len, 0);
    assert_eq!(r.iovec_count, 0);
    assert_eq!(r.info, 0);
}

#[test]
fn build_request_wires_inputs_and_zeroes_outputs() {
    let r = build_request(Direction::NoTransfer, 16, 0, 5000, 1, 2, 3);
    assert_eq!(r.interface_id, 83);
    assert_eq!(r.dxfer_direction, -1);
    assert_eq!(r.cmd_len, 16);
    assert_eq!(r.mx_sb_len, 32);
    assert_eq!(r.dxfer_len, 0);
    assert_eq!(r.data_buffer_handle, 1);
    assert_eq!(r.cdb_handle, 2);
    assert_eq!(r.sense_buffer_handle, 3);
    assert_eq!(r.timeout_ms, 5000);
    assert_eq!(r.status, 0);
    assert_eq!(r.info, 0);
}

#[test]
fn inquiry_request_uses_inquiry_parameters() {
    let r = build_inquiry_request(10, 20, 30);
    assert_eq!(r.dxfer_direction, -3);
    assert_eq!(r.cmd_len, 6);
    assert_eq!(r.mx_sb_len, 32);
    assert_eq!(r.dxfer_len, 96);
    assert_eq!(r.timeout_ms, 20000);
}

#[test]
fn inquiry_cdb_bytes() {
    let cdb = inquiry_cdb();
    assert_eq!(cdb, vec![0x12, 0x00, 0x00, 0x00, 0x60, 0x00]);
}

#[test]
fn version_probe_boundaries() {
    assert_eq!(evaluate_version_probe(Ok(30000)), Ok(30000));
    assert_eq!(
        evaluate_version_probe(Ok(29999)),
        Err(ProbeError::VersionTooOld { version: 29999 })
    );
    assert_eq!(evaluate_version_probe(Ok(2_000_000)), Ok(2_000_000));
    assert_eq!(
        evaluate_version_probe(Err(9)),
        Err(ProbeError::CallFailed { errno: 9 })
    );
}

#[test]
fn parse_inquiry_extracts_trimmed_fields() {
    let buf = inquiry_buffer();
    let resp = parse_inquiry(&buf).expect("valid buffer must decode");
    assert_eq!(resp.vendor_id, "ACME");
    assert_eq!(resp.model_number, "MODEL-X");
    assert_eq!(resp.firmware_rev, "1.00");
    assert_eq!(resp.serial_number, "SN123456");
}

#[test]
fn parse_inquiry_rejects_short_buffer() {
    let buf = vec![0u8; 95];
    assert_eq!(
        parse_inquiry(&buf),
        Err(DecodeError::BufferTooShort { actual: 95 })
    );
    assert_eq!(
        parse_inquiry(&[]),
        Err(DecodeError::BufferTooShort { actual: 0 })
    );
}

#[test]
fn parse_inquiry_names_first_non_text_field() {
    let mut buf = inquiry_buffer();
    buf[9] = 0xFF;
    assert_eq!(
        parse_inquiry(&buf),
        Err(DecodeError::FieldNotText { field: IdentityField::Vendor })
    );
    let mut buf = inquiry_buffer();
    buf[31] = 0x80;
    assert_eq!(
        parse_inquiry(&buf),
        Err(DecodeError::FieldNotText { field: IdentityField::Model })
    );
    let mut buf = inquiry_buffer();
    buf[35] = 0xC0;
    assert_eq!(
        parse_inquiry(&buf),
        Err(DecodeError::FieldNotText { field: IdentityField::FirmwareRev })
    );
    let mut buf = inquiry_buffer();
    buf[43] = 0x90;
    assert_eq!(
        parse_inquiry(&buf),
        Err(DecodeError::FieldNotText { field: IdentityField::SerialNumber })
    );
}

#[test]
fn sense_dump_wraps_after_every_tenth_value() {
    let sense: Vec<u8> = (0u8..25).collect();
    let lines = sense_dump_lines(&sense, 25);
    assert_eq!(lines.len(), 3);
    assert_eq!(lines[0], "0 1 2 3 4 5 6 7 8 9 ");
    assert_eq!(lines[1], "A B C D E F 10 11 12 13 ");
    assert_eq!(lines[2], "14 15 16 17 18 ");
}

#[test]
fn sense_dump_has_no_wrap_before_the_first_value() {
    let sense = vec![0xABu8; 32];
    assert_eq!(sense_dump_lines(&sense, 0).len(), 0);
    assert_eq!(sense_dump_lines(&sense, 1).len(), 1);
    assert_eq!(sense_dump_lines(&sense, 10).len(), 1);
    assert_eq!(sense_dump_lines(&sense, 11).len(), 2);
    assert_eq!(sense_dump_lines(&sense, 1)[0], "AB ");
}

#[test]
fn diagnostic_report_shows_each_nonzero_field_independently() {
    let mut hdr = TransportRequest::default();
    hdr.info = 1;
    hdr.sb_len_wr = 3;
    hdr.status = 0x2A;
    hdr.masked_status = 1;
    hdr.host_status = 0x11;
    hdr.driver_status = 0x08;
    let sense = vec![0x70u8, 0x00, 0x05];
    let lines = diagnostic_report(&hdr, &sense);
    assert_eq!(lines.len(), 4);
    assert_eq!(lines[0], "INQUIRY sense data: 70 0 5 ");
    assert_eq!(lines[1], "INQUIRY SCSI status = 2A");
    assert_eq!(lines[2], "INQUIRY host_status = 11");
    assert_eq!(lines[3], "INQUIRY driver_status = 8");
}

#[test]
fn diagnostic_report_with_single_field() {
    let mut hdr = TransportRequest::default();
    hdr.info = 1;
    hdr.host_status = 0x07;
    let lines = diagnostic_report(&hdr, &[]);
    assert_eq!(lines.len(), 1);
    assert_eq!(lines[0], "INQUIRY host_status = 7");
}

#[test]
fn outcome_bitmask_alone_routes_the_result() {
    assert!(command_ok(0));
    assert!(!command_ok(1));
    assert!(command_ok(2));

    let buf = inquiry_buffer();
    let sense = vec![0u8; 32];

    // OK bit clear: routes to parsing even with non-zero status sub-fields.
    let mut hdr = TransportRequest::default();
    hdr.info = 2;
    hdr.masked_status = 1;
    hdr.host_status = 0x11;
    hdr.duration = 15;
    hdr.resid = -4;
    match interpret_outcome(&hdr, &sense, &buf) {
        CommandReport::Identity { response, duration, resid } => {
            assert_eq!(response.vendor_id, "ACME");
            assert_eq!(duration, 15);
            assert_eq!(resid, -4);
        }
        _ => panic!("success bitmask must route to parsing"),
    }

    // OK bit set: routes to diagnostics even with all sub-fields zero.
    let mut hdr = TransportRequest::default();
    hdr.info = 1;
    match interpret_outcome(&hdr, &sense, &buf) {
        CommandReport::Diagnostic { lines } => assert_eq!(lines.len(), 0),
        _ => panic!("non-success bitmask must route to diagnostics"),
    }
}

#[test]
fn short_buffer_on_success_path_is_a_decode_error() {
    let hdr = TransportRequest::default();
    let short = vec![0u8; 40];
    match interpret_outcome(&hdr, &[], &short) {
        CommandReport::DecodeFailed { error } => {
            assert_eq!(error, DecodeError::BufferTooShort { actual: 40 });
        }
        _ => panic!("short buffer must be a decode error, never truncated output"),
    }
}

#[test]
fn identity_report_carries_residual_verbatim() {
    let buf = inquiry_buffer();
    let resp = parse_inquiry(&buf).unwrap();

    let lines = identity_report(&resp, 3, -5);
    assert_eq!(lines.len(), 8);
    assert_eq!(lines[0], "======SCSI INQUIRY Command Response======");
    assert_eq!(lines[1], "");
    assert_eq!(lines[2], "Vendor ID: ACME");
    assert_eq!(lines[3], "Model Number: MODEL-X");
    assert_eq!(lines[4], "Firmware Revision: 1.00");
    assert_eq!(lines[5], "Serial Number: SN123456");
    assert_eq!(lines[6], "INQUIRY Duration = 3 ms");
    assert_eq!(
        lines[7],
        "INQUIRY Resid (non-zero means shortened DMA transfer) = -5"
    );

    let lines = identity_report(&resp, 0, 0);
    assert_eq!(lines[6], "INQUIRY Duration = 0 ms");
    assert_eq!(
        lines[7],
        "INQUIRY Resid (non-zero means shortened DMA transfer) = 0"
    );

    let lines = identity_report(&resp, 4000, 96);
    assert_eq!(lines[6], "INQUIRY Duration = 4000 ms");
    assert_eq!(
        lines[7],
        "INQUIRY Resid (non-zero means shortened DMA transfer) = 96"
    );
}

#[test]
fn numeral_rendering_exact_values() {
    assert_eq!(hex_string(0), "0");
    assert_eq!(hex_string(9), "9");
    assert_eq!(hex_string(10), "A");
    assert_eq!(hex_string(255), "FF");
    assert_eq!(hex_string(0xDEADBEEF), "DEADBEEF");
    assert_eq!(dec_string_i32(0), "0");
    assert_eq!(dec_string_i32(2147483647), "2147483647");
    assert_eq!(dec_string_i32(-2147483648), "-2147483648");
}

#[test]
fn padded_field_text_trims_and_validates() {
    assert_eq!(padded_field_text(b"ACME    ").unwrap(), "ACME");
    assert_eq!(padded_field_text(b"AB\0\0").unwrap(), "AB");
    assert_eq!(padded_field_text(b"        ").unwrap(), "");
    assert_eq!(padded_field_text(b"A C ").unwrap(), "A C");
    // Valid non-ASCII UTF-8 is text: two-byte and three-byte characters.
    assert_eq!(padded_field_text(&[0xC3, 0xA9, 0x20, 0x20]).unwrap(), "\u{e9}");
    assert_eq!(padded_field_text(&[0xE2, 0x82, 0xAC, 0x00]).unwrap(), "\u{20ac}");
    // Invalid encodings are not: a stray byte, a lone continuation byte,
    // an unfinished two-byte character.
    assert!(padded_field_text(&[0x41, 0xFF]).is_none());
    assert!(padded_field_text(&[0x80]).is_none());
    assert!(padded_field_text(&[0x41, 0xC3]).is_none());
}

#[test]
fn parse_inquiry_accepts_non_ascii_utf8_fields() {
    let mut buf = inquiry_buffer();
    // Vendor id "\u{e9}" (two-byte UTF-8), space-padded.
    buf[8..16].copy_from_slice(&[0xC3, 0xA9, 0x20, 0x20, 0x20, 0x20, 0x20, 0x20]);
    let resp = parse_inquiry(&buf).expect("valid UTF-8 fields must decode");
    assert_eq!(resp.vendor_id, "\u{e9}");
    assert_eq!(resp.model_number, "MODEL-X");
}

#[test]
fn transport_call_classification() {
    assert_eq!(evaluate_transport_call(0, 0), Ok(()));
    assert_eq!(evaluate_transport_call(1, 0), Ok(()));
    assert_eq!(
        evaluate_transport_call(-1, 22),
        Err(TransportError { errno: 22 })
    );
}
