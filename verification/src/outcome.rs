//! Results of one external extraction or merge invocation, and the
//! classification of a tool's raw observations into them.
//!
//! The external tools report only an exit status, and the filesystem only
//! whether a destination file appeared and how large it is.  The classifiers
//! here turn those raw observations into the result the controller acts on;
//! in particular a tool that exits zero while producing nothing (or an empty
//! file) is a content failure, not an invocation failure.

use vstd::prelude::*;

verus! {

/// Outcome of one fragment extraction attempt.
pub enum ExtractionResult {
    /// The destination file exists and is non-empty.
    Extracted { path: Vec<u8>, byte_size: u64 },
    /// The tool reported success but no usable destination file appeared.
    NotProduced,
    /// The tool exited non-zero.
    ToolFailed { exit_code: i32, diagnostic: Vec<u8> },
}

/// Outcome of one merge attempt.
pub enum MergeResult {
    /// The merge tool exited zero; the merged capture is at `path`.
    Merged { path: Vec<u8> },
    /// No merge was performed.
    Skipped { reason: Vec<u8> },
    /// The merge tool exited non-zero; `diagnostic` carries its error text
    /// verbatim.
    ToolFailed { exit_code: i32, diagnostic: Vec<u8> },
}

/// An extraction result is well formed when an extracted fragment is never
/// empty.
pub open spec fn extraction_wf(r: ExtractionResult) -> bool {
    r matches ExtractionResult::Extracted { byte_size, .. } ==> byte_size > 0
}

/// Classify one extraction attempt from the tool's exit status and the state
/// of the destination file.  A zero exit with a missing or empty destination
/// is `NotProduced`; a non-zero exit is `ToolFailed` with the tool's own
/// diagnostics.
pub fn classify_extraction(
    tool_exited_zero: bool,
    exit_code: i32,
    dest_path: Vec<u8>,
    dest_exists: bool,
    dest_size: u64,
    diagnostic: Vec<u8>,
) -> (r: ExtractionResult)
    ensures
        !tool_exited_zero ==> (r matches ExtractionResult::ToolFailed { exit_code: c, diagnostic: d }
            && c == exit_code && d@ == diagnostic@),
        tool_exited_zero && dest_exists && dest_size > 0
            ==> (r matches ExtractionResult::Extracted { path, byte_size }
                && path@ == dest_path@ && byte_size == dest_size),
        tool_exited_zero && !(dest_exists && dest_size > 0) ==> r is NotProduced,
        extraction_wf(r),
{
    if !tool_exited_zero {
        ExtractionResult::ToolFailed { exit_code, diagnostic }
    } else if dest_exists && dest_size > 0 {
        ExtractionResult::Extracted { path: dest_path, byte_size: dest_size }
    } else {
        ExtractionResult::NotProduced
    }
}

/// Classify one merge attempt from the tool's exit status: zero is `Merged`,
/// anything else is `ToolFailed` carrying the exit code and the tool's error
/// text verbatim.
pub fn classify_merge(
    tool_exited_zero: bool,
    exit_code: i32,
    dest_path: Vec<u8>,
    diagnostic: Vec<u8>,
) -> (r: MergeResult)
    ensures
        tool_exited_zero ==> (r matches MergeResult::Merged { path } && path@ == dest_path@),
        !tool_exited_zero ==> (r matches MergeResult::ToolFailed { exit_code: c, diagnostic: d }
            && c == exit_code && d@ == diagnostic@),
{
    if tool_exited_zero {
        MergeResult::Merged { path: dest_path }
    } else {
        MergeResult::ToolFailed { exit_code, diagnostic }
    }
}

} // verus!
