//! The correlation and merge controller: the per-record state machine.
//!
//! For each record the controller applies the media rule, sequences the
//! extraction calls, and performs the merge or the promotion fallback.  Each
//! external invocation is described by a `Command`; the caller performs it,
//! classifies what happened, and feeds the resulting `Event` back through
//! `on_event`.  Processing ends in a terminal state, and cleanup of both
//! intermediate fragment paths is owed unconditionally whatever that state
//! is.

use vstd::prelude::*;
use vstd::pervasive::unreached;

use crate::bytes::copy_bytes;
use crate::bytes::copy_u64s;
use crate::outcome::extraction_wf;
use crate::outcome::ExtractionResult;
use crate::outcome::MergeResult;
use crate::plan::plan_wf;
use crate::plan::RecordPlan;

verus! {

/// Terminal classification of one record's processing.
#[derive(Clone, Copy, Debug, PartialEq, Eq, Structural)]
pub enum Terminal {
    /// A merged (or promoted) capture exists under the call's name.
    Success,
    /// Both fragments were recovered but could not be combined.
    Partial,
    /// An extraction stage produced nothing usable.
    Failed,
}

/// The stage a record failed at, for the log line.
#[derive(Clone, Copy, Debug, PartialEq, Eq, Structural)]
pub enum Stage {
    Rtp,
    Sip,
    Merge,
}

/// Where one record's processing stands.
#[derive(Clone, Copy, Debug, PartialEq, Eq, Structural)]
pub enum Phase {
    /// Signaling-only path: awaiting the pattern extraction's outcome.
    SipOnlyWait,
    /// Media path: awaiting the indexed extraction's outcome.
    RtpWait,
    /// Media fragment recovered; awaiting the signaling extraction.
    SipForMergeWait { rtp_size: u64 },
    /// Both fragments recovered; awaiting the merge.
    MergeWait { rtp_size: u64, sip_size: u64 },
    /// Processing is over.
    Done { status: Terminal },
}

/// One external invocation the caller is to perform next.
pub enum Command {
    /// Indexed extraction: read the chunks at `positions` of `entry` from
    /// `archive` and write them, concatenated in offset order, to `dest`.
    ExtractRtp { archive: Vec<u8>, entry: Vec<u8>, positions: Vec<u64>, dest: Vec<u8> },
    /// Pattern extraction: stream the entries of `archive` matching
    /// `pattern` to `dest`.
    ExtractSip { archive: Vec<u8>, pattern: Vec<u8>, dest: Vec<u8> },
    /// Merge the two fragment streams into `dest`, ordered by packet
    /// timestamp.
    Merge { dest: Vec<u8>, sip: Vec<u8>, rtp: Vec<u8> },
    /// Move the signaling fragment directly to the merged-output path; a call
    /// with no media has nothing to merge against.
    Promote { from: Vec<u8>, to: Vec<u8> },
}

/// What the last performed command came to.
pub enum Event {
    RtpDone(ExtractionResult),
    SipDone(ExtractionResult),
    MergeDone(MergeResult),
}

/// The fragment sizes a phase records are sizes of recovered fragments, so
/// they are never zero.
pub open spec fn phase_wf(phase: Phase) -> bool {
    match phase {
        Phase::SipForMergeWait { rtp_size } => rtp_size > 0,
        Phase::MergeWait { rtp_size, sip_size } => rtp_size > 0 && sip_size > 0,
        _ => true,
    }
}

/// Which event a phase is waiting for.
pub open spec fn expects(phase: Phase, event: Event) -> bool {
    match phase {
        Phase::SipOnlyWait => event is SipDone,
        Phase::RtpWait => event is RtpDone,
        Phase::SipForMergeWait { .. } => event is SipDone,
        Phase::MergeWait { .. } => event is MergeDone,
        Phase::Done { .. } => false,
    }
}

/// An event carrying a well-formed result.
pub open spec fn event_wf(event: Event) -> bool {
    match event {
        Event::RtpDone(r) => extraction_wf(r),
        Event::SipDone(r) => extraction_wf(r),
        Event::MergeDone(_) => true,
    }
}

/// `c` is this plan's indexed media extraction.
pub open spec fn rtp_command_for(c: Command, plan: RecordPlan) -> bool {
    &&& c matches Command::ExtractRtp { archive, entry, positions, dest }
    &&& archive@ == plan.rtp_archive@
    &&& entry@ == plan.entry@
    &&& plan.positions matches Some(v) && positions@ == v@
    &&& dest@ == plan.rtp_fragment@
}

/// `c` is this plan's pattern signaling extraction.
pub open spec fn sip_command_for(c: Command, plan: RecordPlan) -> bool {
    &&& c matches Command::ExtractSip { archive, pattern, dest }
    &&& archive@ == plan.sip_archive@
    &&& pattern@ == plan.sip_pattern@
    &&& dest@ == plan.sip_fragment@
}

/// `c` is this plan's merge: both fragments in, the call-named capture out.
pub open spec fn merge_command_for(c: Command, plan: RecordPlan) -> bool {
    &&& c matches Command::Merge { dest, sip, rtp }
    &&& dest@ == plan.merged_output@
    &&& sip@ == plan.sip_fragment@
    &&& rtp@ == plan.rtp_fragment@
}

/// `c` moves this plan's signaling fragment to the merged-output path.
pub open spec fn promote_command_for(c: Command, plan: RecordPlan) -> bool {
    &&& c matches Command::Promote { from, to }
    &&& from@ == plan.sip_fragment@
    &&& to@ == plan.merged_output@
}

/// Open one record's processing: apply the media rule and issue the first
/// extraction command.
pub fn start_record(plan: &RecordPlan) -> (r: (Phase, Command))
    requires
        plan_wf(*plan),
    ensures
        phase_wf(r.0),
        !(r.0 is Done),
        plan.has_rtp ==> r.0 == Phase::RtpWait && rtp_command_for(r.1, *plan),
        !plan.has_rtp ==> r.0 == Phase::SipOnlyWait && sip_command_for(r.1, *plan),
{
    if plan.has_rtp {
        let positions = match &plan.positions {
            Some(v) => copy_u64s(v),
            None => unreached(),
        };
        (
            Phase::RtpWait,
            Command::ExtractRtp {
                archive: copy_bytes(&plan.rtp_archive),
                entry: copy_bytes(&plan.entry),
                positions,
                dest: copy_bytes(&plan.rtp_fragment),
            },
        )
    } else {
        (Phase::SipOnlyWait, sip_command(plan))
    }
}

/// This plan's signaling extraction command.
fn sip_command(plan: &RecordPlan) -> (c: Command)
    ensures
        sip_command_for(c, *plan),
{
    Command::ExtractSip {
        archive: copy_bytes(&plan.sip_archive),
        pattern: copy_bytes(&plan.sip_pattern),
        dest: copy_bytes(&plan.sip_fragment),
    }
}

/// One controller step after a performed command.
pub struct Step {
    /// Where the record now stands.
    pub phase: Phase,
    /// The next invocation owed, if any.
    pub command: Option<Command>,
    /// The stage to log as failed, if the event was a failure.
    pub failed_stage: Option<Stage>,
}

/// Advance the state machine on the outcome of the last command.
///
/// The transition table, in full:
/// signaling-only extraction recovered a fragment: promote it and succeed;
/// it failed: the record fails.  Indexed media extraction recovered a
/// fragment: go extract signaling; it failed: the record fails with no
/// signaling attempt (a call flagged as having media that produces none is a
/// data-integrity failure, not an absence).  Signaling after media recovered:
/// merge; failed: the record fails with no merge.  Merge exited zero:
/// success; otherwise: partial — both fragments existed but could not be
/// combined.
pub fn on_event(plan: &RecordPlan, phase: Phase, event: Event) -> (step: Step)
    requires
        plan_wf(*plan),
        phase_wf(phase),
        event_wf(event),
        expects(phase, event),
    ensures
        phase_wf(step.phase),
        step.phase is Done || step.command is Some,
        phase is SipOnlyWait ==> (event matches Event::SipDone(r) ==> ((r is Extracted
            ==> step.phase == (Phase::Done { status: Terminal::Success })
                && (step.command matches Some(c) && promote_command_for(c, *plan))
                && step.failed_stage is None) && (!(r is Extracted)
            ==> step.phase == (Phase::Done { status: Terminal::Failed })
                && step.command is None && step.failed_stage == Some(Stage::Sip)))),
        phase is RtpWait ==> (event matches Event::RtpDone(r) ==> ((r matches
            ExtractionResult::Extracted { byte_size, .. }
            ==> step.phase == (Phase::SipForMergeWait { rtp_size: byte_size })
                && (step.command matches Some(c) && sip_command_for(c, *plan))
                && step.failed_stage is None) && (!(r is Extracted)
            ==> step.phase == (Phase::Done { status: Terminal::Failed })
                && step.command is None && step.failed_stage == Some(Stage::Rtp)))),
        phase matches Phase::SipForMergeWait { rtp_size } ==> (event matches Event::SipDone(r)
            ==> ((r matches ExtractionResult::Extracted { byte_size, .. }
            ==> step.phase == (Phase::MergeWait { rtp_size, sip_size: byte_size })
                && (step.command matches Some(c) && merge_command_for(c, *plan))
                && step.failed_stage is None) && (!(r is Extracted)
            ==> step.phase == (Phase::Done { status: Terminal::Failed })
                && step.command is None && step.failed_stage == Some(Stage::Sip)))),
        phase is MergeWait ==> (event matches Event::MergeDone(m) ==> step.command is None
            && (m is Merged ==> step.phase == (Phase::Done { status: Terminal::Success })
                && step.failed_stage is None)
            && (m is ToolFailed ==> step.phase == (Phase::Done { status: Terminal::Partial })
                && step.failed_stage == Some(Stage::Merge))
            && (m is Skipped ==> step.phase == (Phase::Done { status: Terminal::Partial })
                && step.failed_stage is None)),
{
    match (phase, event) {
        (Phase::SipOnlyWait, Event::SipDone(r)) => match r {
            ExtractionResult::Extracted { .. } => Step {
                phase: Phase::Done { status: Terminal::Success },
                command: Some(Command::Promote {
                    from: copy_bytes(&plan.sip_fragment),
                    to: copy_bytes(&plan.merged_output),
                }),
                failed_stage: None,
            },
            _ => Step {
                phase: Phase::Done { status: Terminal::Failed },
                command: None,
                failed_stage: Some(Stage::Sip),
            },
        },
        (Phase::RtpWait, Event::RtpDone(r)) => match r {
            ExtractionResult::Extracted { byte_size, .. } => Step {
                phase: Phase::SipForMergeWait { rtp_size: byte_size },
                command: Some(sip_command(plan)),
                failed_stage: None,
            },
            _ => Step {
                phase: Phase::Done { status: Terminal::Failed },
                command: None,
                failed_stage: Some(Stage::Rtp),
            },
        },
        (Phase::SipForMergeWait { rtp_size }, Event::SipDone(r)) => match r {
            ExtractionResult::Extracted { byte_size, .. } => Step {
                phase: Phase::MergeWait { rtp_size, sip_size: byte_size },
                command: Some(Command::Merge {
                    dest: copy_bytes(&plan.merged_output),
                    sip: copy_bytes(&plan.sip_fragment),
                    rtp: copy_bytes(&plan.rtp_fragment),
                }),
                failed_stage: None,
            },
            _ => Step {
                phase: Phase::Done { status: Terminal::Failed },
                command: None,
                failed_stage: Some(Stage::Sip),
            },
        },
        (Phase::MergeWait { .. }, Event::MergeDone(m)) => match m {
            MergeResult::Merged { .. } => Step {
                phase: Phase::Done { status: Terminal::Success },
                command: None,
                failed_stage: None,
            },
            MergeResult::ToolFailed { .. } => Step {
                phase: Phase::Done { status: Terminal::Partial },
                command: None,
                failed_stage: Some(Stage::Merge),
            },
            MergeResult::Skipped { .. } => Step {
                phase: Phase::Done { status: Terminal::Partial },
                command: None,
                failed_stage: None,
            },
        },
        _ => unreached(),
    }
}

/// Everything one record's processing came to: the terminal state, which
/// stages ran, what failed, and the cleanup owed.
pub struct RecordOutcome {
    /// Terminal classification of this record.
    pub status: Terminal,
    /// Whether the indexed media extraction was invoked.
    pub rtp_ran: bool,
    /// Whether the pattern signaling extraction was invoked.
    pub sip_ran: bool,
    /// Whether the merge tool was invoked.
    pub merge_ran: bool,
    /// Whether the signaling fragment was promoted to the merged-output path.
    pub promoted: bool,
    /// The stage to log as failed, if any.
    pub failed_stage: Option<Stage>,
    /// The merged capture's path, named from the call identifier.
    pub merged_output: Vec<u8>,
    /// Signaling fragment path whose deletion is owed unconditionally.
    pub cleanup_sip: Vec<u8>,
    /// Media fragment path whose deletion is owed unconditionally.
    pub cleanup_rtp: Vec<u8>,
}

/// Run one record's whole state machine against given stage outcomes, as the
/// per-record loop does with the real tools and tests do with stubs.  A
/// stage's outcome argument is consulted only if that stage is reached.
///
/// The cleanup paths are owed whatever the terminal state: both intermediate
/// fragment paths, always.  The merge is invoked only when both extractions
/// recovered a non-empty fragment.
pub fn process_record(
    plan: &RecordPlan,
    rtp_result: ExtractionResult,
    sip_result: ExtractionResult,
    merge_result: MergeResult,
) -> (out: RecordOutcome)
    requires
        plan_wf(*plan),
        extraction_wf(rtp_result),
        extraction_wf(sip_result),
    ensures
        out.cleanup_sip@ == plan.sip_fragment@,
        out.cleanup_rtp@ == plan.rtp_fragment@,
        out.merged_output@ == plan.merged_output@,
        out.rtp_ran == plan.has_rtp,
        !plan.has_rtp ==> out.sip_ran && !out.merge_ran,
        !plan.has_rtp && sip_result is Extracted ==> out.status == Terminal::Success
            && out.promoted && out.failed_stage is None,
        !plan.has_rtp && !(sip_result is Extracted) ==> out.status == Terminal::Failed
            && !out.promoted && out.failed_stage == Some(Stage::Sip),
        plan.has_rtp ==> !out.promoted,
        plan.has_rtp && !(rtp_result is Extracted) ==> !out.sip_ran && !out.merge_ran
            && out.status == Terminal::Failed && out.failed_stage == Some(Stage::Rtp),
        plan.has_rtp && rtp_result is Extracted ==> out.sip_ran,
        plan.has_rtp && rtp_result is Extracted && !(sip_result is Extracted) ==> !out.merge_ran
            && out.status == Terminal::Failed && out.failed_stage == Some(Stage::Sip),
        plan.has_rtp && rtp_result is Extracted && sip_result is Extracted ==> out.merge_ran,
        out.merge_ran && merge_result is Merged ==> out.status == Terminal::Success
            && out.failed_stage is None,
        out.merge_ran && merge_result is ToolFailed ==> out.status == Terminal::Partial
            && out.failed_stage == Some(Stage::Merge),
        out.merge_ran && merge_result is Skipped ==> out.status == Terminal::Partial
            && out.failed_stage is None,
        out.merge_ran ==> (rtp_result matches ExtractionResult::Extracted { byte_size, .. }
            && byte_size > 0),
        out.merge_ran ==> (sip_result matches ExtractionResult::Extracted { byte_size, .. }
            && byte_size > 0),
{
    let start = start_record(plan);
    let mut rtp_ran: bool = false;
    let mut sip_ran: bool = false;
    let mut merge_ran: bool = false;
    let mut promoted: bool = false;
    let (final_phase, failed_stage): (Phase, Option<Stage>) = match start.0 {
        Phase::SipOnlyWait => {
            sip_ran = true;
            let step = on_event(plan, start.0, Event::SipDone(sip_result));
            promoted = match &step.command {
                Some(Command::Promote { .. }) => true,
                _ => false,
            };
            (step.phase, step.failed_stage)
        }
        Phase::RtpWait => {
            rtp_ran = true;
            let step1 = on_event(plan, start.0, Event::RtpDone(rtp_result));
            match step1.phase {
                Phase::SipForMergeWait { .. } => {
                    sip_ran = true;
                    let step2 = on_event(plan, step1.phase, Event::SipDone(sip_result));
                    match step2.phase {
                        Phase::MergeWait { .. } => {
                            merge_ran = true;
                            let step3 = on_event(plan, step2.phase, Event::MergeDone(merge_result));
                            (step3.phase, step3.failed_stage)
                        }
                        _ => (step2.phase, step2.failed_stage),
                    }
                }
                _ => (step1.phase, step1.failed_stage),
            }
        }
        _ => unreached(),
    };
    let status = match final_phase {
        Phase::Done { status } => status,
        _ => unreached(),
    };
    RecordOutcome {
        status,
        rtp_ran,
        sip_ran,
        merge_ran,
        promoted,
        failed_stage,
        merged_output: copy_bytes(&plan.merged_output),
        cleanup_sip: copy_bytes(&plan.sip_fragment),
        cleanup_rtp: copy_bytes(&plan.rtp_fragment),
    }
}

} // verus!
