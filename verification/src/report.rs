//! Outcome reporting: the per-record report row and the failure log line.
//!
//! Every processed record owes one tabular row — call identifier and the
//! stage timings, stages never reached reporting zero — and a failed record
//! owes a log line naming the stage and the call identifier.

use vstd::prelude::*;

use crate::ascii::COMMA;
use crate::bytes::append_bytes;
use crate::controller::Stage;
use crate::num::dec_digits;
use crate::num::u64_to_dec;

verus! {

/// One report row: the call identifier and the five stage timings, in
/// milliseconds, separated by commas.
pub open spec fn csv_line(
    call_id: u64,
    query_ms: u64,
    rtp_ms: u64,
    sip_ms: u64,
    merge_ms: u64,
    total_ms: u64,
) -> Seq<u8> {
    dec_digits(call_id as nat) + seq![COMMA] + dec_digits(query_ms as nat) + seq![COMMA]
        + dec_digits(rtp_ms as nat) + seq![COMMA] + dec_digits(sip_ms as nat) + seq![COMMA]
        + dec_digits(merge_ms as nat) + seq![COMMA] + dec_digits(total_ms as nat)
}

/// Render one report row.  A stage that never ran is reported with a zero
/// timing by the caller.
pub fn csv_row(
    call_id: u64,
    query_ms: u64,
    rtp_ms: u64,
    sip_ms: u64,
    merge_ms: u64,
    total_ms: u64,
) -> (r: Vec<u8>)
    ensures
        r@ == csv_line(call_id, query_ms, rtp_ms, sip_ms, merge_ms, total_ms),
{
    let mut out = u64_to_dec(call_id);
    let mut field = u64_to_dec(query_ms);
    out.push(COMMA);
    append_bytes(&mut out, &field);
    field = u64_to_dec(rtp_ms);
    out.push(COMMA);
    append_bytes(&mut out, &field);
    field = u64_to_dec(sip_ms);
    out.push(COMMA);
    append_bytes(&mut out, &field);
    field = u64_to_dec(merge_ms);
    out.push(COMMA);
    append_bytes(&mut out, &field);
    field = u64_to_dec(total_ms);
    out.push(COMMA);
    append_bytes(&mut out, &field);
    assert(out@ =~= csv_line(call_id, query_ms, rtp_ms, sip_ms, merge_ms, total_ms));
    out
}

/// The short name of a stage as it appears in the log.
pub open spec fn stage_name(s: Stage) -> Seq<u8> {
    match s {
        Stage::Rtp => seq![0x72, 0x74, 0x70],
        Stage::Sip => seq![0x73, 0x69, 0x70],
        Stage::Merge => seq![0x6d, 0x65, 0x72, 0x67, 0x65],
    }
}

/// The words between the stage name and the call identifier:
/// ` failed for cdr `.
pub open spec fn failed_for_cdr() -> Seq<u8> {
    seq![
        0x20, 0x66, 0x61, 0x69, 0x6c, 0x65, 0x64, 0x20, 0x66, 0x6f, 0x72, 0x20, 0x63, 0x64,
        0x72, 0x20,
    ]
}

/// The log line owed when a record fails: the stage, then the call
/// identifier.
pub open spec fn failure_text(s: Stage, call_id: u64) -> Seq<u8> {
    stage_name(s) + failed_for_cdr() + dec_digits(call_id as nat)
}

/// Render the failure log line for a record that failed at stage `s`.
pub fn failure_line(s: Stage, call_id: u64) -> (r: Vec<u8>)
    ensures
        r@ == failure_text(s, call_id),
{
    let mut out: Vec<u8> = Vec::new();
    match s {
        Stage::Rtp => {
            out.push(0x72);
            out.push(0x74);
            out.push(0x70);
        }
        Stage::Sip => {
            out.push(0x73);
            out.push(0x69);
            out.push(0x70);
        }
        Stage::Merge => {
            out.push(0x6d);
            out.push(0x65);
            out.push(0x72);
            out.push(0x67);
            out.push(0x65);
        }
    }
    assert(out@ =~= stage_name(s));
    out.push(0x20);
    out.push(0x66);
    out.push(0x61);
    out.push(0x69);
    out.push(0x6c);
    out.push(0x65);
    out.push(0x64);
    out.push(0x20);
    out.push(0x66);
    out.push(0x6f);
    out.push(0x72);
    out.push(0x20);
    out.push(0x63);
    out.push(0x64);
    out.push(0x72);
    out.push(0x20);
    assert(out@ =~= stage_name(s) + failed_for_cdr());
    let digits = u64_to_dec(call_id);
    append_bytes(&mut out, &digits);
    assert(out@ =~= failure_text(s, call_id));
    out
}

} // verus!
