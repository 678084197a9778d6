//! Outcome classification and diagnostic rendering for a completed
//! transport call.
//!
//! The outcome info bitmask alone decides the route: when its OK bit is
//! clear the command succeeded and the response buffer goes to the INQUIRY
//! decoder; otherwise the device or driver reported a condition and a
//! diagnostic report is rendered instead. The report shows, independently
//! for whichever are non-zero: the sense bytes written (hex-dumped, ten
//! values per line), the masked status, the host status and the driver
//! status. A reported condition is diagnostic output, not a failure of the
//! transport itself.

use crate::inquiry::parse_inquiry;
use crate::inquiry::spec_decode_error;
use crate::inquiry::spec_field_text;
use crate::inquiry::spec_inquiry_decodes;
use crate::inquiry::DecodeError;
use crate::inquiry::IdentityField;
use crate::inquiry::InquiryResponse;
use crate::layout::TransportRequest;
use crate::layout::INFO_OK_MASK;
use crate::text::hex_chars;
use crate::text::hex_string;
use crate::text::push_char;
use vstd::prelude::*;
use vstd::string::StringExecFns;

verus! {

/// Whether the outcome info bitmask reports a successful command: its OK
/// bit is clear.
pub open spec fn spec_command_ok(info: u32) -> bool {
    info & INFO_OK_MASK == 0
}

/// Tests the outcome info bitmask for success.
pub fn command_ok(info: u32) -> (r: bool)
    ensures
        r == spec_command_ok(info),
{
    info & INFO_OK_MASK == 0
}

/// The characters of one hex-dump line body: each byte as an uppercase
/// hexadecimal numeral followed by one space.
pub open spec fn sense_chunk_chars(bytes: Seq<u8>) -> Seq<char>
    decreases bytes.len(),
{
    if bytes.len() == 0 {
        Seq::empty()
    } else {
        hex_chars(bytes.first() as nat) + seq![' '] + sense_chunk_chars(bytes.drop_first())
    }
}

/// How many lines a dump of `count` sense bytes occupies: ten values per
/// line, no line before the first value.
pub open spec fn sense_line_count(count: nat) -> nat {
    if count == 0 {
        0
    } else {
        ((count - 1) / 10 + 1) as nat
    }
}

/// The bytes shown on line `i` of a dump of the first `count` sense bytes:
/// the dump wraps exactly after every tenth value.
pub open spec fn sense_chunk(sense: Seq<u8>, count: int, i: int) -> Seq<u8>
    recommends
        0 <= i < sense_line_count(count as nat),
        count <= sense.len(),
{
    sense.subrange(
        10 * i,
        if 10 * i + 10 <= count {
            10 * i + 10
        } else {
            count
        },
    )
}

proof fn lemma_sense_chunk_chars_push(s: Seq<u8>, b: u8)
    ensures
        sense_chunk_chars(s.push(b)) == sense_chunk_chars(s) + hex_chars(b as nat) + seq![' '],
    decreases s.len(),
{
    if s.len() == 0 {
        reveal_with_fuel(sense_chunk_chars, 2);
        assert(s.push(b).drop_first() =~= Seq::<u8>::empty());
        assert(s.push(b).first() == b);
        assert(sense_chunk_chars(s.push(b)) == hex_chars(b as nat) + seq![' ']
            + Seq::<char>::empty());
        assert(sense_chunk_chars(s.push(b)) =~= sense_chunk_chars(s) + hex_chars(b as nat)
            + seq![' ']);
    } else {
        lemma_sense_chunk_chars_push(s.drop_first(), b);
        assert(s.push(b).drop_first() =~= s.drop_first().push(b));
        assert(s.push(b).first() == s.first());
        assert(sense_chunk_chars(s.push(b)) =~= sense_chunk_chars(s) + hex_chars(b as nat)
            + seq![' ']);
    }
}

/// Hex-dumps the first `count` sense bytes, wrapping exactly after every
/// tenth value: every line but the last shows ten values, and no line is
/// produced before the first value.
pub fn sense_dump_lines(sense: &[u8], count: u8) -> (lines: Vec<String>)
    requires
        count as int <= sense@.len(),
    ensures
        lines@.len() == sense_line_count(count as nat),
        forall|i: int|
            0 <= i < lines@.len() ==> #[trigger] lines@[i]@ == sense_chunk_chars(
                sense_chunk(sense@, count as int, i),
            ),
{
    let count: usize = count as usize;
    let mut lines: Vec<String> = Vec::new();
    let mut start: usize = 0;
    while start < count
        invariant
            count <= sense@.len(),
            count <= 255,
            start == 10 * lines@.len(),
            start == 0 || start - 10 < count,
            forall|i: int|
                0 <= i < lines@.len() ==> #[trigger] lines@[i]@ == sense_chunk_chars(
                    sense_chunk(sense@, count as int, i),
                ),
        decreases count + 10 - start,
    {
        let end: usize = if start + 10 <= count {
            start + 10
        } else {
            count
        };
        let mut line = String::new();
        let mut j: usize = start;
        proof {
            assert(sense@.subrange(start as int, start as int) =~= Seq::<u8>::empty());
        }
        while j < end
            invariant
                start <= j <= end,
                end <= count <= sense@.len(),
                line@ == sense_chunk_chars(sense@.subrange(start as int, j as int)),
            decreases end - j,
        {
            let b = sense[j];
            let digits = hex_string(b as u32);
            line.append(digits.as_str());
            push_char(&mut line, ' ');
            proof {
                lemma_sense_chunk_chars_push(sense@.subrange(start as int, j as int), b);
                assert(sense@.subrange(start as int, j + 1) =~= sense@.subrange(
                    start as int,
                    j as int,
                ).push(sense@[j as int]));
            }
            j = j + 1;
        }
        lines.push(line);
        proof {
            assert(sense_chunk(sense@, count as int, lines@.len() - 1) =~= sense@.subrange(
                start as int,
                end as int,
            ));
        }
        start = start + 10;
    }
    proof {
        if count > 0 {
            let l = lines@.len() as int;
            assert(l >= 1);
            assert(l == (count - 1) / 10 + 1) by (nonlinear_arith)
                requires
                    10 * l >= count,
                    10 * (l - 1) < count,
                    count > 0,
                    l >= 1,
            ;
        }
    }
    lines
}

/// The hex dump wraps exactly after every tenth value: every line but the
/// last shows exactly ten values, the last line shows the remainder, and
/// no line exists before the first value.
pub proof fn lemma_sense_dump_wraps(sense: Seq<u8>, count: int)
    requires
        0 <= count <= sense.len(),
    ensures
        count == 0 ==> sense_line_count(count as nat) == 0,
        count > 0 ==> sense_line_count(count as nat) == (count - 1) / 10 + 1,
        forall|i: int|
            0 <= i < sense_line_count(count as nat) - 1 ==> #[trigger] sense_chunk(
                sense,
                count,
                i,
            ).len() == 10,
        sense_line_count(count as nat) > 0 ==> sense_chunk(
            sense,
            count,
            sense_line_count(count as nat) - 1,
        ).len() == count - 10 * (sense_line_count(count as nat) - 1),
{
    if count > 0 {
        let l = sense_line_count(count as nat) as int;
        assert(10 * (l - 1) < count <= 10 * l) by (nonlinear_arith)
            requires
                count > 0,
                l == (count - 1) / 10 + 1,
        ;
        assert forall|i: int| 0 <= i < l - 1 implies #[trigger] sense_chunk(sense, count, i).len()
            == 10 by {
            assert(10 * i + 10 <= 10 * (l - 1)) by (nonlinear_arith)
                requires
                    i + 1 <= l - 1,
            ;
        }
        assert(10 * (l - 1) + 10 == 10 * l) by (nonlinear_arith);
    }
}

/// The lines of the sense-byte section of a diagnostic report: the first
/// dump line behind its heading, every further line bare.
pub open spec fn spec_sense_lines(sense: Seq<u8>, count: nat) -> Seq<Seq<char>> {
    Seq::new(
        sense_line_count(count),
        |i: int|
            if i == 0 {
                "INQUIRY sense data: "@ + sense_chunk_chars(sense_chunk(sense, count as int, 0))
            } else {
                sense_chunk_chars(sense_chunk(sense, count as int, i))
            },
    )
}

/// The full diagnostic report for a non-success outcome: the sense dump if
/// any sense bytes were written, then one line for each non-zero status
/// field — masked (showing the raw status byte), host-level, driver-level.
/// No field's absence suppresses the others.
pub open spec fn spec_diagnostic_report(r: TransportRequest, sense: Seq<u8>) -> Seq<Seq<char>> {
    (if r.sb_len_wr > 0 {
        spec_sense_lines(sense, r.sb_len_wr as nat)
    } else {
        Seq::<Seq<char>>::empty()
    }) + (if r.masked_status != 0 {
        seq!["INQUIRY SCSI status = "@ + hex_chars(r.status as nat)]
    } else {
        Seq::<Seq<char>>::empty()
    }) + (if r.host_status != 0 {
        seq!["INQUIRY host_status = "@ + hex_chars(r.host_status as nat)]
    } else {
        Seq::<Seq<char>>::empty()
    }) + (if r.driver_status != 0 {
        seq!["INQUIRY driver_status = "@ + hex_chars(r.driver_status as nat)]
    } else {
        Seq::<Seq<char>>::empty()
    })
}

/// Renders the diagnostic report for a non-success outcome, line for line
/// as `spec_diagnostic_report` states it.
pub fn diagnostic_report(hdr: &TransportRequest, sense: &[u8]) -> (lines: Vec<String>)
    requires
        hdr.sb_len_wr as int <= sense@.len(),
    ensures
        lines@.len() == spec_diagnostic_report(*hdr, sense@).len(),
        forall|i: int|
            0 <= i < lines@.len() ==> #[trigger] lines@[i]@ == spec_diagnostic_report(
                *hdr,
                sense@,
            )[i],
{
    let ghost report = spec_diagnostic_report(*hdr, sense@);
    let mut lines: Vec<String> = Vec::new();
    if hdr.sb_len_wr > 0 {
        let dump = sense_dump_lines(sense, hdr.sb_len_wr);
        let mut i: usize = 0;
        while i < dump.len()
            invariant
                dump@.len() == sense_line_count(hdr.sb_len_wr as nat),
                forall|k: int|
                    0 <= k < dump@.len() ==> #[trigger] dump@[k]@ == sense_chunk_chars(
                        sense_chunk(sense@, hdr.sb_len_wr as int, k),
                    ),
                i <= dump@.len(),
                lines@.len() == i,
                forall|k: int|
                    0 <= k < i ==> #[trigger] lines@[k]@ == spec_sense_lines(
                        sense@,
                        hdr.sb_len_wr as nat,
                    )[k],
            decreases dump@.len() - i,
        {
            if i == 0 {
                let first = String::from_str("INQUIRY sense data: ").concat(dump[i].as_str());
                lines.push(first);
            } else {
                lines.push(dump[i].clone());
            }
            i = i + 1;
        }
    }
    if hdr.masked_status != 0 {
        let line = String::from_str("INQUIRY SCSI status = ").concat(
            hex_string(hdr.status as u32).as_str(),
        );
        lines.push(line);
    }
    if hdr.host_status != 0 {
        let line = String::from_str("INQUIRY host_status = ").concat(
            hex_string(hdr.host_status as u32).as_str(),
        );
        lines.push(line);
    }
    if hdr.driver_status != 0 {
        let line = String::from_str("INQUIRY driver_status = ").concat(
            hex_string(hdr.driver_status as u32).as_str(),
        );
        lines.push(line);
    }
    proof {
        assert(lines@.len() == report.len());
        assert forall|i: int| 0 <= i < lines@.len() implies #[trigger] lines@[i]@ == report[i] by {
            let sense_part_len: int = if hdr.sb_len_wr > 0 {
                sense_line_count(hdr.sb_len_wr as nat) as int
            } else {
                0
            };
            if i < sense_part_len {
                assert(report[i] == spec_sense_lines(sense@, hdr.sb_len_wr as nat)[i]);
            }
        }
    }
    lines
}

/// The classified result of one completed transport call.
pub enum CommandReport {
    /// The command succeeded and the response decoded: the identity
    /// fields, with the call's elapsed duration and residual count.
    Identity { response: InquiryResponse, duration: u32, resid: i32 },
    /// The device or driver reported a condition: the rendered diagnostic
    /// report, one line per entry.
    Diagnostic { lines: Vec<String> },
    /// The command succeeded but the response buffer did not decode.
    DecodeFailed { error: DecodeError },
}

/// Classifies a completed transport call and routes it: a non-success
/// outcome bitmask yields the diagnostic report; a success outcome hands
/// the response buffer to the INQUIRY decoder and carries the duration and
/// the residual count through verbatim. The route depends on the outcome
/// bitmask alone, never on which status sub-fields are non-zero.
pub fn interpret_outcome(hdr: &TransportRequest, sense: &[u8], data: &[u8]) -> (r: CommandReport)
    requires
        hdr.sb_len_wr as int <= sense@.len(),
    ensures
        r is Diagnostic <==> !spec_command_ok(hdr.info),
        !spec_command_ok(hdr.info) ==> {
            &&& r->Diagnostic_lines@.len() == spec_diagnostic_report(*hdr, sense@).len()
            &&& forall|i: int|
                0 <= i < r->Diagnostic_lines@.len()
                    ==> #[trigger] r->Diagnostic_lines@[i]@ == spec_diagnostic_report(
                    *hdr,
                    sense@,
                )[i]
        },
        spec_command_ok(hdr.info) && spec_inquiry_decodes(data@) ==> {
            &&& r is Identity
            &&& r->Identity_response.vendor_id@ == spec_field_text(data@, IdentityField::Vendor)
            &&& r->Identity_response.model_number@ == spec_field_text(data@, IdentityField::Model)
            &&& r->Identity_response.firmware_rev@ == spec_field_text(
                data@,
                IdentityField::FirmwareRev,
            )
            &&& r->Identity_response.serial_number@ == spec_field_text(
                data@,
                IdentityField::SerialNumber,
            )
            &&& r->Identity_duration == hdr.duration
            &&& r->Identity_resid == hdr.resid
        },
        spec_command_ok(hdr.info) && !spec_inquiry_decodes(data@) ==> {
            &&& r is DecodeFailed
            &&& r->DecodeFailed_error == spec_decode_error(data@)
        },
{
    if command_ok(hdr.info) {
        match parse_inquiry(data) {
            Ok(response) => CommandReport::Identity {
                response,
                duration: hdr.duration,
                resid: hdr.resid,
            },
            Err(error) => CommandReport::DecodeFailed { error },
        }
    } else {
        CommandReport::Diagnostic { lines: diagnostic_report(hdr, sense) }
    }
}

} // verus!
