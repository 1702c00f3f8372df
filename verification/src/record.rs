//! Call records and the media rule that picks the extraction path.
//!
//! A record row arrives from the record source as raw byte columns; it is
//! turned into a `CallRecord` here, and the record's media rule decides which
//! extraction path the controller takes.

use vstd::prelude::*;

use crate::num::all_digits;
use crate::num::comma_fields;
use crate::num::dec_value;
use crate::num::parse_positions;
use crate::num::parse_u64;
use crate::num::positions_ok;
use crate::num::u64_field;

verus! {

/// One call's metadata, read-only once built.
pub struct CallRecord {
    /// Unique identifier of the call.
    pub call_id: u64,
    /// Answered-media seconds; `0` means the call had no answered media.
    pub connect_duration: u32,
    /// Raw archive entry name shared by the signaling and media archives.
    pub entry_name: Vec<u8>,
    /// Ordered chunk offsets into the media archive, or `None` when no media
    /// chunks are attributed to the call.  `Some` with an empty list is
    /// distinct from `None`.
    pub fragment_positions: Option<Vec<u64>>,
}

/// The media rule: the indexed media path is taken exactly when the call had
/// answered media and offsets are attributed to it.  Either condition failing
/// sends the record down the signaling-only path.
pub open spec fn takes_rtp_path(r: CallRecord) -> bool {
    r.connect_duration > 0 && r.fragment_positions is Some
}

impl CallRecord {
    /// Evaluate the media rule.
    pub fn has_rtp(&self) -> (b: bool)
        ensures
            b == takes_rtp_path(*self),
    {
        self.connect_duration > 0 && self.fragment_positions.is_some()
    }
}

/// One raw row as the record source hands it over: every column a byte
/// string, the nullable columns optional.
pub struct RawRow {
    /// Decimal call identifier.
    pub cdr_id: Vec<u8>,
    /// Decimal answered-media seconds, or `None` for a null column.
    pub connect_duration: Option<Vec<u8>>,
    /// Archive entry name.
    pub filename: Vec<u8>,
    /// Comma-separated chunk offsets, or `None` for a null column.
    pub tar_positions: Option<Vec<u8>>,
}

/// The duration a raw column stands for: a parseable in-range value counts,
/// anything else (absent, malformed, out of range) counts as no answered
/// media.
pub open spec fn duration_of(b: Option<Seq<u8>>) -> int {
    match b {
        Option::None => 0,
        Option::Some(s) => if s.len() > 0 && all_digits(s) && dec_value(s) <= u32::MAX {
            dec_value(s)
        } else {
            0
        },
    }
}

/// A raw row is well formed when its identifier parses and its offset list,
/// if present, parses field by field.
pub open spec fn row_ok(cdr_id: Seq<u8>, tar_positions: Option<Seq<u8>>) -> bool {
    &&& u64_field(cdr_id)
    &&& (tar_positions matches Option::Some(p) ==> positions_ok(p))
}

/// Build a `CallRecord` from a raw row.  Returns `Some` exactly on well
/// formed rows; the duration column is lenient (anything unusable counts as
/// zero), matching the record source's nullable column.
pub fn record_from_row(row: RawRow) -> (r: Option<CallRecord>)
    ensures
        r is Some <==> row_ok(row.cdr_id@, match row.tar_positions {
            Option::Some(p) => Option::Some(p@),
            Option::None => Option::None,
        }),
        r matches Some(rec) ==> {
            &&& rec.call_id == dec_value(row.cdr_id@)
            &&& rec.connect_duration == duration_of(match row.connect_duration {
                Option::Some(d) => Option::Some(d@),
                Option::None => Option::None,
            })
            &&& rec.entry_name@ == row.filename@
            &&& (rec.fragment_positions is Some <==> row.tar_positions is Some)
            &&& (rec.fragment_positions matches Some(v) ==> {
                let p = row.tar_positions->0@;
                &&& v@.len() == comma_fields(p).len()
                &&& forall|k: int|
                    0 <= k < v@.len() ==> v@[k] == dec_value(#[trigger] comma_fields(p)[k])
            })
        },
{
    let RawRow { cdr_id, connect_duration, filename, tar_positions } = row;
    let call_id = match parse_u64(&cdr_id) {
        Some(v) => v,
        None => {
            return None;
        }
    };
    let dur: u32 = match &connect_duration {
        Some(d) => match parse_u64(d) {
            Some(v) => if v <= u32::MAX as u64 {
                v as u32
            } else {
                0
            },
            None => 0,
        },
        None => 0,
    };
    let positions: Option<Vec<u64>> = match &tar_positions {
        Some(p) => match parse_positions(p) {
            Some(v) => Some(v),
            None => {
                return None;
            }
        },
        None => None,
    };
    Some(CallRecord { call_id, connect_duration: dur, entry_name: filename, fragment_positions: positions })
}

/// Path choice: only answered media together with attributed offsets
/// takes the indexed media path; every other record is signaling-only.
pub proof fn lemma_media_rule(r: CallRecord)
    ensures
        takes_rtp_path(r) <==> (r.connect_duration > 0 && r.fragment_positions is Some),
        r.connect_duration == 0 ==> !takes_rtp_path(r),
        r.fragment_positions is None ==> !takes_rtp_path(r),
{
}

} // verus!
