//! Per-record naming: where each fragment and the merged capture live.
//!
//! Intermediate fragment files are named from the normalized archive entry
//! name; the merged output is always named from the call identifier.  This
//! decouples the archive's internal naming from the pipeline's external
//! artifact naming, and it is why records must be processed one at a time:
//! two records sharing an entry name would collide on fragment paths.

use vstd::prelude::*;

use crate::ascii::DOT;
use crate::ascii::SLASH;
use crate::ascii::STAR;
use crate::bytes::append_bytes;
use crate::bytes::copy_bytes;
use crate::bytes::copy_u64s;
use crate::name::normalize_entry_name;
use crate::name::normalized;
use crate::num::dec_digits;
use crate::num::u64_to_dec;
use crate::record::takes_rtp_path;
use crate::record::CallRecord;

verus! {

/// The `.pcap` filename extension.
pub open spec fn pcap_ext() -> Seq<u8> {
    seq![DOT, 0x70, 0x63, 0x61, 0x70]
}

/// `dir`/`stem`.pcap
pub open spec fn pcap_path(dir: Seq<u8>, stem: Seq<u8>) -> Seq<u8> {
    dir + seq![SLASH] + stem + pcap_ext()
}

/// The glob handed to the pattern extraction tool: `stem`.pcap*
pub open spec fn pcap_glob(stem: Seq<u8>) -> Seq<u8> {
    stem + pcap_ext() + seq![STAR]
}

/// Where the archives and the scoped output directories live.
pub struct PipelineConfig {
    /// Media (indexed) archive path.
    pub rtp_archive: Vec<u8>,
    /// Signaling (compressed, pattern-matched) archive path.
    pub sip_archive: Vec<u8>,
    /// Directory for intermediate media fragments.
    pub rtp_fragment_dir: Vec<u8>,
    /// Directory for intermediate signaling fragments.
    pub sip_fragment_dir: Vec<u8>,
    /// Directory for merged per-call captures.
    pub merged_dir: Vec<u8>,
}

/// Everything the controller needs to process one record: the media verdict,
/// the normalized entry name, and every derived path.
pub struct RecordPlan {
    pub call_id: u64,
    /// The media rule's verdict for this record.
    pub has_rtp: bool,
    /// Chunk offsets for indexed extraction, when attributed.
    pub positions: Option<Vec<u64>>,
    /// Normalized archive entry name.
    pub entry: Vec<u8>,
    /// Glob for the pattern extraction tool.
    pub sip_pattern: Vec<u8>,
    /// Intermediate media fragment path.
    pub rtp_fragment: Vec<u8>,
    /// Intermediate signaling fragment path.
    pub sip_fragment: Vec<u8>,
    /// Final merged capture path, named from the call identifier.
    pub merged_output: Vec<u8>,
    /// Media archive path.
    pub rtp_archive: Vec<u8>,
    /// Signaling archive path.
    pub sip_archive: Vec<u8>,
}

/// A plan whose media verdict is backed by offsets when it says media.
pub open spec fn plan_wf(p: RecordPlan) -> bool {
    p.has_rtp ==> p.positions is Some
}

/// Derive the plan for one record: normalize the entry name once, name both
/// fragments from it, and name the merged output from the call identifier.
pub fn build_plan(config: &PipelineConfig, record: &CallRecord) -> (p: RecordPlan)
    ensures
        plan_wf(p),
        p.call_id == record.call_id,
        p.has_rtp == takes_rtp_path(*record),
        (p.positions matches Some(v) ==> record.fragment_positions matches Some(w) && v@ == w@),
        (p.positions is Some <==> record.fragment_positions is Some),
        p.entry@ == normalized(record.entry_name@),
        p.sip_pattern@ == pcap_glob(normalized(record.entry_name@)),
        p.rtp_fragment@ == pcap_path(config.rtp_fragment_dir@, normalized(record.entry_name@)),
        p.sip_fragment@ == pcap_path(config.sip_fragment_dir@, normalized(record.entry_name@)),
        p.merged_output@ == pcap_path(config.merged_dir@, dec_digits(record.call_id as nat)),
        p.rtp_archive@ == config.rtp_archive@,
        p.sip_archive@ == config.sip_archive@,
{
    let entry = normalize_entry_name(&record.entry_name);

    let mut ext: Vec<u8> = Vec::new();
    ext.push(DOT);
    ext.push(0x70);
    ext.push(0x63);
    ext.push(0x61);
    ext.push(0x70);
    assert(ext@ =~= pcap_ext());

    let mut sip_pattern = copy_bytes(&entry);
    append_bytes(&mut sip_pattern, &ext);
    sip_pattern.push(STAR);
    assert(sip_pattern@ =~= pcap_glob(entry@));

    let mut rtp_fragment = copy_bytes(&config.rtp_fragment_dir);
    rtp_fragment.push(SLASH);
    append_bytes(&mut rtp_fragment, &entry);
    append_bytes(&mut rtp_fragment, &ext);
    assert(rtp_fragment@ =~= pcap_path(config.rtp_fragment_dir@, entry@));

    let mut sip_fragment = copy_bytes(&config.sip_fragment_dir);
    sip_fragment.push(SLASH);
    append_bytes(&mut sip_fragment, &entry);
    append_bytes(&mut sip_fragment, &ext);
    assert(sip_fragment@ =~= pcap_path(config.sip_fragment_dir@, entry@));

    let id_digits = u64_to_dec(record.call_id);
    let mut merged_output = copy_bytes(&config.merged_dir);
    merged_output.push(SLASH);
    append_bytes(&mut merged_output, &id_digits);
    append_bytes(&mut merged_output, &ext);
    assert(merged_output@ =~= pcap_path(config.merged_dir@, dec_digits(record.call_id as nat)));

    let positions: Option<Vec<u64>> = match &record.fragment_positions {
        Some(v) => Some(copy_u64s(v)),
        None => None,
    };

    RecordPlan {
        call_id: record.call_id,
        has_rtp: record.has_rtp(),
        positions,
        entry,
        sip_pattern,
        rtp_fragment,
        sip_fragment,
        merged_output,
        rtp_archive: copy_bytes(&config.rtp_archive),
        sip_archive: copy_bytes(&config.sip_archive),
    }
}

} // verus!
