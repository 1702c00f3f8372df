use pcapmerge::controller::process_record;
use pcapmerge::controller::Stage;
use pcapmerge::controller::Terminal;
use pcapmerge::outcome::ExtractionResult;
use pcapmerge::outcome::MergeResult;
use pcapmerge::plan::build_plan;
use pcapmerge::plan::PipelineConfig;
use pcapmerge::plan::RecordPlan;
use pcapmerge::record::CallRecord;
use pcapmerge::report::failure_line;

fn config() -> PipelineConfig {
    PipelineConfig {
        rtp_archive: b"/archive/rtp.tar".to_vec(),
        sip_archive: b"/archive/sip.tar.gz".to_vec(),
        rtp_fragment_dir: b"/tmp/rtp".to_vec(),
        sip_fragment_dir: b"/tmp/sip".to_vec(),
        merged_dir: b"/out/merged".to_vec(),
    }
}

fn plan_for(call_id: u64, duration: u32, entry: &[u8], positions: Option<Vec<u64>>) -> RecordPlan {
    let record = CallRecord {
        call_id,
        connect_duration: duration,
        entry_name: entry.to_vec(),
        fragment_positions: positions,
    };
    build_plan(&config(), &record)
}

fn extracted(path: &[u8], byte_size: u64) -> ExtractionResult {
    ExtractionResult::Extracted { path: path.to_vec(), byte_size }
}

#[test]
fn plan_names_come_from_the_right_places() {
    let plan = plan_for(100, 30, b"a[b]c", Some(vec![5, 9]));
    assert!(plan.has_rtp);
    assert_eq!(plan.entry, b"a_b_c".to_vec());
    assert_eq!(plan.sip_pattern, b"a_b_c.pcap*".to_vec());
    assert_eq!(plan.rtp_fragment, b"/tmp/rtp/a_b_c.pcap".to_vec());
    assert_eq!(plan.sip_fragment, b"/tmp/sip/a_b_c.pcap".to_vec());
    assert_eq!(plan.merged_output, b"/out/merged/100.pcap".to_vec());
    assert_eq!(plan.positions, Some(vec![5, 9]));
}

#[test]
fn happy_path_merges_and_cleans_up() {
    let plan = plan_for(100, 30, b"abc.pcap", Some(vec![5, 9]));
    let out = process_record(
        &plan,
        extracted(b"/tmp/rtp/abc.pcap.pcap", 12000),
        extracted(b"/tmp/sip/abc.pcap.pcap", 4000),
        MergeResult::Merged { path: b"/out/merged/100.pcap".to_vec() },
    );
    assert_eq!(out.status, Terminal::Success);
    assert!(out.rtp_ran && out.sip_ran && out.merge_ran);
    assert!(!out.promoted);
    assert_eq!(out.failed_stage, None);
    assert_eq!(out.merged_output, b"/out/merged/100.pcap".to_vec());
    assert_eq!(out.cleanup_sip, plan.sip_fragment);
    assert_eq!(out.cleanup_rtp, plan.rtp_fragment);
}

#[test]
fn no_rtp_attributed_takes_the_promotion_path() {
    let plan = plan_for(101, 0, b"xyz.pcap", None);
    assert!(!plan.has_rtp);
    let out = process_record(
        &plan,
        ExtractionResult::NotProduced,
        extracted(b"/tmp/sip/xyz.pcap.pcap", 4000),
        MergeResult::Skipped { reason: b"no media".to_vec() },
    );
    assert_eq!(out.status, Terminal::Success);
    assert!(!out.rtp_ran);
    assert!(out.sip_ran);
    assert!(!out.merge_ran);
    assert!(out.promoted);
    assert_eq!(out.failed_stage, None);
    assert_eq!(out.cleanup_sip, plan.sip_fragment);
    assert_eq!(out.cleanup_rtp, plan.rtp_fragment);
}

#[test]
fn rtp_tool_failure_stops_the_record() {
    let plan = plan_for(102, 45, b"q.pcap", Some(vec![1]));
    let out = process_record(
        &plan,
        ExtractionResult::ToolFailed { exit_code: 1, diagnostic: b"disk error".to_vec() },
        ExtractionResult::NotProduced,
        MergeResult::Skipped { reason: Vec::new() },
    );
    assert_eq!(out.status, Terminal::Failed);
    assert!(out.rtp_ran);
    assert!(!out.sip_ran);
    assert!(!out.merge_ran);
    assert_eq!(out.failed_stage, Some(Stage::Rtp));
    let line = failure_line(Stage::Rtp, plan.call_id);
    let needle = b"102";
    assert!(line.windows(needle.len()).any(|w| w == needle));
    assert_eq!(out.cleanup_sip, plan.sip_fragment);
    assert_eq!(out.cleanup_rtp, plan.rtp_fragment);
}

#[test]
fn merge_failure_is_partial_and_still_cleans_up() {
    let plan = plan_for(103, 45, b"q.pcap", Some(vec![1, 2]));
    let out = process_record(
        &plan,
        extracted(b"/tmp/rtp/q.pcap.pcap", 9000),
        extracted(b"/tmp/sip/q.pcap.pcap", 3000),
        MergeResult::ToolFailed { exit_code: 2, diagnostic: b"bad header".to_vec() },
    );
    assert_eq!(out.status, Terminal::Partial);
    assert!(out.rtp_ran && out.sip_ran && out.merge_ran);
    assert_eq!(out.failed_stage, Some(Stage::Merge));
    assert_eq!(out.cleanup_sip, plan.sip_fragment);
    assert_eq!(out.cleanup_rtp, plan.rtp_fragment);
}

#[test]
fn sip_failure_on_the_media_path_discards_the_rtp_fragment() {
    let plan = plan_for(104, 10, b"w", Some(vec![3]));
    let out = process_record(
        &plan,
        extracted(b"/tmp/rtp/w.pcap", 5000),
        ExtractionResult::NotProduced,
        MergeResult::Skipped { reason: Vec::new() },
    );
    assert_eq!(out.status, Terminal::Failed);
    assert!(out.rtp_ran && out.sip_ran);
    assert!(!out.merge_ran);
    assert_eq!(out.failed_stage, Some(Stage::Sip));
    assert_eq!(out.cleanup_rtp, plan.rtp_fragment);
}

#[test]
fn sip_only_failure_fails_the_record() {
    let plan = plan_for(105, 0, b"v", None);
    let out = process_record(
        &plan,
        ExtractionResult::NotProduced,
        ExtractionResult::ToolFailed { exit_code: 3, diagnostic: b"gone".to_vec() },
        MergeResult::Skipped { reason: Vec::new() },
    );
    assert_eq!(out.status, Terminal::Failed);
    assert!(!out.rtp_ran);
    assert!(out.sip_ran);
    assert!(!out.promoted);
    assert_eq!(out.failed_stage, Some(Stage::Sip));
}
