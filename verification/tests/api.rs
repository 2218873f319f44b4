use foruster::analysis::engine::AnalysisState;
use foruster::analysis::finding::Finding;
use foruster::api::analysis_api::{group_findings_by_profile, handle_command, summary_of, AnalysisCommand, AnalysisProgress, CommandEffect};
use foruster::api::storage_api::StorageAPI;
use foruster::profiling::profile::default_profiles;
use foruster::storage::disk::Disk;
use foruster::storage::identification_data::{IdentificationData, StorageBusType};
use foruster::storage::partition::Partition;
use foruster::storage::volume::Volume;

fn data(items: &[(&str, &str)]) -> Vec<(String, String)> {
    items.iter().map(|(k, v)| (k.to_string(), v.to_string())).collect()
}

#[test]
fn progress_follows_the_notices() {
    let mut p = AnalysisProgress::default();
    assert_eq!(p.state, AnalysisState::Idle);
    assert!(!p.is_running());
    p.apply_update("state_change", &data(&[("state", "Walking")]));
    assert_eq!(p.state, AnalysisState::Walking);
    assert!(p.is_running());
    p.apply_update(
        "file_scanned",
        &data(&[("scanned_files", "10"), ("analyzed_files", "8"), ("matched_files", "x"), ("current_path", "/a/b"), ("total_estimated", "12")]),
    );
    assert_eq!((p.scanned_files, p.analyzed_files, p.matched_files, p.total_files), (10, 8, 0, 12));
    assert_eq!(p.current_path, "/a/b");
    p.apply_update("state_change", &data(&[("state", "Sleeping")]));
    assert_eq!(p.state, AnalysisState::Idle);
    p.apply_update("analysis_completed", &data(&[("total_files", "20"), ("matched_files", "3"), ("suspicious_files", "1")]));
    assert_eq!(p.state, AnalysisState::Done);
    assert_eq!((p.total_files, p.analyzed_files, p.matched_files, p.suspicious_files), (20, 8, 3, 1));
    let before = p.clone();
    p.apply_update("unknown", &data(&[("total_files", "99")]));
    assert_eq!(p.total_files, before.total_files);
}

#[test]
fn commands_reset_run_and_stop() {
    let mut p = AnalysisProgress::default();
    p.scanned_files = 5;
    p.state = AnalysisState::Walking;
    match handle_command(&mut p, AnalysisCommand::Stop) {
        CommandEffect::Nothing => {}
        _ => panic!("stop does nothing more"),
    }
    assert_eq!(p.state, AnalysisState::Idle);
    assert_eq!(p.scanned_files, 5);
    match handle_command(&mut p, AnalysisCommand::Start) {
        CommandEffect::Run => {}
        _ => panic!("start runs"),
    }
    let effect = handle_command(&mut p, AnalysisCommand::Initialize { profiles: default_profiles(), paths: vec!["/x".to_string()] });
    assert_eq!(p.scanned_files, 0);
    match effect {
        CommandEffect::Configure { profiles, paths } => {
            assert_eq!(profiles.len(), 9);
            assert_eq!(paths, vec!["/x".to_string()]);
        }
        _ => panic!("initialize configures"),
    }
}

#[test]
fn summary_counts_findings_per_profile() {
    let findings = vec![
        Finding { file_path: "/1".to_string(), profile_name: "General".to_string() },
        Finding { file_path: "/2".to_string(), profile_name: "Audios".to_string() },
        Finding { file_path: "/3".to_string(), profile_name: "General".to_string() },
    ];
    assert_eq!(
        group_findings_by_profile(&findings),
        vec![("General".to_string(), 2), ("Audios".to_string(), 1)]
    );
    let mut p = AnalysisProgress::default();
    p.scanned_files = 7;
    p.suspicious_files = 2;
    let s = summary_of(&p, &findings);
    assert_eq!(s.total_files_scanned, 7);
    assert_eq!(s.total_suspicious_files, 2);
    assert_eq!(s.state, AnalysisState::Idle);
    assert_eq!(s.findings_by_profile.len(), 2);
}

#[test]
fn volume_id_of_a_folder() {
    let ident = IdentificationData::new(None, None, None, None, StorageBusType::Sata, false);
    let root = Volume::new("{ROOT}".to_string(), None, 0, 0, vec!["/".to_string()]);
    let media = Volume::new("{USB}".to_string(), None, 0, 0, vec!["/media/usb".to_string()]);
    let disk = Disk::new(
        "sda".to_string(),
        ident,
        vec![Partition::new(1, 0, 0, Some(media)), Partition::new(2, 0, 0, None), Partition::new(3, 0, 0, Some(root))],
        0,
    );
    let mut api = StorageAPI::new();
    assert_eq!(api.get_volume_id("/home".to_string()), None);
    api.set_disks(vec![disk]);
    assert_eq!(api.get_disks().len(), 1);
    assert_eq!(api.get_volume_id("/media/usb/photos".to_string()), Some("{USB}".to_string()));
    assert_eq!(api.get_volume_id("/media/usbkey".to_string()), Some("{ROOT}".to_string()));
    assert_eq!(api.get_volume_id("relative".to_string()), None);
}
