use pcapmerge::controller::{on_event, start_record, Command, Event, Phase};
use pcapmerge::outcome::{ExtractionResult, MergeResult};
use pcapmerge::plan::{build_plan, PipelineConfig};
use pcapmerge::record::CallRecord;

fn config() -> PipelineConfig {
    PipelineConfig {
        rtp_archive: b"/a/rtp.tar".to_vec(),
        sip_archive: b"/a/sip.tar.gz".to_vec(),
        rtp_fragment_dir: b"/tmp/rtp".to_vec(),
        sip_fragment_dir: b"/tmp/sip".to_vec(),
        merged_dir: b"/out".to_vec(),
    }
}

#[test]
fn media_path_issues_indexed_extraction_first() {
    let record = CallRecord {
        call_id: 100,
        connect_duration: 30,
        entry_name: b"abc".to_vec(),
        fragment_positions: Some(vec![5, 9]),
    };
    let plan = build_plan(&config(), &record);
    let (phase, cmd) = start_record(&plan);
    assert_eq!(phase, Phase::RtpWait);
    match cmd {
        Command::ExtractRtp { archive, entry, positions, dest } => {
            assert_eq!(archive, b"/a/rtp.tar".to_vec());
            assert_eq!(entry, b"abc".to_vec());
            assert_eq!(positions, vec![5, 9]);
            assert_eq!(dest, b"/tmp/rtp/abc.pcap".to_vec());
        }
        _ => panic!("expected the indexed extraction command"),
    }
}

#[test]
fn signaling_only_path_issues_pattern_extraction_first() {
    let record = CallRecord {
        call_id: 101,
        connect_duration: 0,
        entry_name: b"xyz".to_vec(),
        fragment_positions: None,
    };
    let plan = build_plan(&config(), &record);
    let (phase, cmd) = start_record(&plan);
    assert_eq!(phase, Phase::SipOnlyWait);
    match cmd {
        Command::ExtractSip { archive, pattern, dest } => {
            assert_eq!(archive, b"/a/sip.tar.gz".to_vec());
            assert_eq!(pattern, b"xyz.pcap*".to_vec());
            assert_eq!(dest, b"/tmp/sip/xyz.pcap".to_vec());
        }
        _ => panic!("expected the pattern extraction command"),
    }
}

#[test]
fn merge_command_names_both_fragments_and_the_call_output() {
    let record = CallRecord {
        call_id: 100,
        connect_duration: 30,
        entry_name: b"abc".to_vec(),
        fragment_positions: Some(vec![5, 9]),
    };
    let plan = build_plan(&config(), &record);
    let (phase, _) = start_record(&plan);
    let step = on_event(
        &plan,
        phase,
        Event::RtpDone(ExtractionResult::Extracted {
            path: b"/tmp/rtp/abc.pcap".to_vec(),
            byte_size: 12000,
        }),
    );
    assert!(matches!(step.phase, Phase::SipForMergeWait { rtp_size: 12000 }));
    assert!(matches!(step.command, Some(Command::ExtractSip { .. })));

    let step = on_event(
        &plan,
        step.phase,
        Event::SipDone(ExtractionResult::Extracted {
            path: b"/tmp/sip/abc.pcap".to_vec(),
            byte_size: 4000,
        }),
    );
    assert!(matches!(step.phase, Phase::MergeWait { rtp_size: 12000, sip_size: 4000 }));
    match step.command {
        Some(Command::Merge { dest, sip, rtp }) => {
            assert_eq!(dest, b"/out/100.pcap".to_vec());
            assert_eq!(sip, b"/tmp/sip/abc.pcap".to_vec());
            assert_eq!(rtp, b"/tmp/rtp/abc.pcap".to_vec());
        }
        _ => panic!("expected the merge command"),
    }

    let step = on_event(
        &plan,
        step.phase,
        Event::MergeDone(MergeResult::Merged { path: b"/out/100.pcap".to_vec() }),
    );
    assert!(matches!(step.phase, Phase::Done { .. }));
    assert!(step.command.is_none());
    assert!(step.failed_stage.is_none());
}

#[test]
fn promotion_moves_the_signaling_fragment_to_the_call_output() {
    let record = CallRecord {
        call_id: 101,
        connect_duration: 0,
        entry_name: b"xyz".to_vec(),
        fragment_positions: None,
    };
    let plan = build_plan(&config(), &record);
    let (phase, _) = start_record(&plan);
    let step = on_event(
        &plan,
        phase,
        Event::SipDone(ExtractionResult::Extracted {
            path: b"/tmp/sip/xyz.pcap".to_vec(),
            byte_size: 4000,
        }),
    );
    match step.command {
        Some(Command::Promote { from, to }) => {
            assert_eq!(from, b"/tmp/sip/xyz.pcap".to_vec());
            assert_eq!(to, b"/out/101.pcap".to_vec());
        }
        _ => panic!("expected the promotion command"),
    }
    assert!(matches!(step.phase, Phase::Done { .. }));
}
