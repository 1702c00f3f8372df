//! Per-call packet-capture reconstruction: correlate call records with
//! byte-indexed archive fragments, extract signaling and media fragments,
//! and merge them into one capture per call.
//!
//! The crate holds the pipeline's decision logic: entry-name normalization,
//! the media rule, per-record naming, classification of what the external
//! tools did, the per-record state machine, and outcome reporting.  The
//! external tools themselves — the archive extractors, the merge tool, the
//! record source — are collaborators the caller runs; the controller tells
//! it what to invoke and is fed back what happened.

pub mod ascii;
pub mod bytes;
pub mod controller;
pub mod name;
pub mod num;
pub mod outcome;
pub mod plan;
pub mod record;
pub mod report;
