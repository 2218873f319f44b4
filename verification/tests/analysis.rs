use foruster::analysis::config::Config;
use foruster::analysis::engine::{
    completed_update, file_scanned_update, index_batch, state_change_update, AnalysisState, Engine, ProgressThrottle,
    ScanCounters,
};
use foruster::analysis::finding::{FindingContainer, ProfileIndex};
use foruster::analysis::suspicion::{expected_kind, has_suspicious_extension_pattern, is_file_suspicious, Kind, SuspicionReason};
use foruster::analysis::walker::{matching_profiles, walk_entry, WalkBatch, Walker};
use foruster::profiling::profile::default_profiles;

fn pairs(v: &[(String, String)]) -> Vec<(&str, &str)> {
    v.iter().map(|(k, x)| (k.as_str(), x.as_str())).collect()
}

#[test]
fn extensions_map_to_expected_kinds() {
    assert_eq!(expected_kind("exe"), Some(Kind::Executable));
    assert_eq!(expected_kind("xlsx"), Some(Kind::Spreadsheet));
    assert_eq!(expected_kind("txt"), None);
    assert_eq!(Kind::Presentation.name(), "Presentation");
}

#[test]
fn hidden_second_extension_is_found() {
    assert_eq!(has_suspicious_extension_pattern("/home/u/photo.JPG.exe"), Some("jpg".to_string()));
    assert_eq!(has_suspicious_extension_pattern("/home/u/archive.zip.txt"), Some("zip".to_string()));
    assert_eq!(has_suspicious_extension_pattern("/home/u/notes.v2.txt"), None);
    assert_eq!(has_suspicious_extension_pattern("/home/u/photo.exe"), None);
}

#[test]
fn content_of_another_kind_is_suspicious() {
    let r = is_file_suspicious("/x/report.pdf", Some(Kind::Executable)).unwrap();
    assert_eq!(r.to_string(), "El contenido parece ser 'Executable' pero la extensión indica 'Document'");
    assert!(is_file_suspicious("/x/report.pdf", Some(Kind::Document)).is_none());
    assert!(is_file_suspicious("/x/book.docx", Some(Kind::Archive)).is_none());
    assert!(is_file_suspicious("/x/report.pdf", None).is_none());
    assert!(is_file_suspicious("/x/readme", Some(Kind::Executable)).is_none());
    let d = is_file_suspicious("/x/cat.png.scr", None).unwrap();
    assert_eq!(d.to_string(), "Extensión engañosa, parece ocultar un archivo '.png'");
    match d {
        SuspicionReason::DeceptiveExtension { hidden_ext } => assert_eq!(hidden_ext, "png"),
        _ => panic!("wrong reason"),
    }
}

#[test]
fn walk_entries_carry_profiles_and_suspicion() {
    let profiles = default_profiles();
    let e = walk_entry("/d/song.mp3".to_string(), true, Some(Kind::Audio), Some("audio/mpeg"), Some(&profiles));
    assert!(e.is_file);
    assert_eq!(e.matched_profiles, vec!["Audios".to_string()]);
    assert!(e.suspicion_reason.is_none());
    let dir = walk_entry("/d".to_string(), false, None, None, Some(&profiles));
    assert!(!dir.is_file && dir.matched_profiles.is_empty() && dir.suspicion_reason.is_none());
    let none = walk_entry("/d/song.mp3".to_string(), true, None, None, None);
    assert!(none.matched_profiles.is_empty());
    assert!(matching_profiles(&profiles, "/d/x.bin", None).is_empty());
}

#[test]
fn batches_fill_and_count() {
    let mut w = Walker::new("/data".to_string());
    let mut batch = WalkBatch::new(2);
    let profiles = default_profiles();
    let a = walk_entry("/data/a.png".to_string(), true, Some(Kind::Image), Some("image/png"), Some(&profiles));
    assert!(w.step(&mut batch, a).is_none());
    let b = walk_entry("/data/sub".to_string(), false, None, None, Some(&profiles));
    let full = w.step(&mut batch, b).unwrap();
    assert!(batch.is_empty());
    assert_eq!(batch.total_processed, 2);
    assert_eq!(full.entries.len(), 2);
    assert_eq!(full.files_count(), 1);
    assert_eq!(full.matched_files_count(), 1);
    assert_eq!(full.suspicious_files_count(), 0);
    assert_eq!(w.files(), &["/data/a.png".to_string()]);
    assert_eq!(w.total_files(), 1);
    assert_eq!(w.analyzed_files(), 1);
    w.record_unreadable();
    assert_eq!(w.total_files(), 2);
    assert_eq!(w.analyzed_files(), 1);
    let copy = full.clone_optimized();
    assert_eq!(copy.entries.len(), 2);
    assert!(!full.is_full() || full.entries.len() >= full.batch_size);
}

#[test]
fn index_records_each_file_under_its_first_profile() {
    let profiles = default_profiles();
    let mut batch = WalkBatch::new(10);
    batch.add_entry("/a/x.zip".to_string(), true, vec!["Archivos comprimidos".to_string(), "Aplicaciones".to_string()], None);
    batch.add_entry("/a/y.mp3".to_string(), true, vec!["Audios".to_string()], None);
    batch.add_entry("/a/dir".to_string(), false, vec!["Audios".to_string()], None);
    batch.add_entry("/a/z".to_string(), true, Vec::new(), None);
    let mut index = ProfileIndex::new();
    index_batch(&mut index, &batch, &profiles);
    assert_eq!(index.get_files_for_profile("Aplicaciones"), vec!["/a/x.zip".to_string()]);
    assert_eq!(index.get_files_for_profile("Audios"), vec!["/a/y.mp3".to_string()]);
    assert!(index.get_files_for_profile("Archivos comprimidos").is_empty());
    assert_eq!(index.get_all_profile_names(), vec!["Aplicaciones".to_string(), "Audios".to_string()]);
    assert_eq!(index.statistics(), vec![("Aplicaciones".to_string(), 1), ("Audios".to_string(), 1)]);
    index.clear_profile_index();
    assert!(index.get_all_profile_names().is_empty());
}

#[test]
fn profile_index_appends_in_order() {
    let mut c = FindingContainer::new();
    c.add_file_to_profile("Audios".to_string(), "/1".to_string());
    c.add_file_to_profile("Texto".to_string(), "/2".to_string());
    c.add_file_to_profile("Audios".to_string(), "/3".to_string());
    assert_eq!(c.get_files_for_profile("Audios"), vec!["/1".to_string(), "/3".to_string()]);
    assert_eq!(c.get_files_for_profile("Texto"), vec!["/2".to_string()]);
    assert!(c.get_files_for_profile("Otros").is_empty());
    c.set_total_files(4);
    c.set_analyzed_files_num(3);
    assert_eq!(c.total_files(), 4);
    assert_eq!(c.analyzed_files_num(), 3);
    c.clear_profile_index();
    assert!(c.get_all_profile_names().is_empty());
}

#[test]
fn counters_and_notices() {
    let mut batch = WalkBatch::new(10);
    batch.add_entry("/a/1".to_string(), true, vec!["Audios".to_string()], None);
    batch.add_entry("/a/2".to_string(), false, Vec::new(), None);
    let mut c = ScanCounters::new();
    c.apply_batch(&batch);
    c.apply_batch(&batch);
    assert_eq!((c.scanned, c.files, c.matched, c.total_estimated), (4, 2, 2, 2));
    let notice = file_scanned_update(&c, &batch);
    assert_eq!(
        pairs(&notice),
        vec![
            ("scanned_files", "4"),
            ("analyzed_files", "2"),
            ("matched_files", "2"),
            ("total_estimated", "2"),
            ("current_path", "/a/2")
        ]
    );
    assert_eq!(pairs(&state_change_update(AnalysisState::Walking)), vec![("state", "Walking")]);
    assert_eq!(
        pairs(&completed_update(10, 9, 1)),
        vec![("total_files", "10"), ("analyzed_files", "9"), ("matched_files", "1"), ("state", "Done")]
    );
}

#[test]
fn progress_notices_are_throttled() {
    let mut t = ProgressThrottle::new();
    assert!(t.notify_batch(0, 500));
    assert!(!t.notify_batch(100, 500));
    assert!(t.notify_batch(100, 10));
    assert!(t.notify_batch(250, 500));
}

#[test]
fn engine_answers_queries_after_an_analysis() {
    let mut engine = Engine::default();
    assert_eq!(engine.state(), AnalysisState::Idle);
    engine.initialize(default_profiles(), vec!["/data".to_string()]);
    assert_eq!(engine.config().paths(), &vec!["/data".to_string()]);
    engine.update_state(AnalysisState::Walking);
    let mut w = Walker::new("/data".to_string());
    w.record_file("/data/Report.PDF".to_string());
    w.record_file("/data/song.mp3".to_string());
    w.record_unreadable();
    let mut index = ProfileIndex::new();
    index.add_file_to_profile("Audios".to_string(), "/data/song.mp3".to_string());
    engine.finish_analysis(&[w], index);
    assert_eq!(engine.state(), AnalysisState::Done);
    assert_eq!(engine.finding().total_files(), 3);
    assert_eq!(engine.finding().analyzed_files_num(), 2);
    assert_eq!(engine.get_analyzed_files().len(), 2);
    assert_eq!(engine.get_files_by_profile("Todos").len(), 2);
    assert_eq!(engine.get_files_by_profile("Audios"), vec!["/data/song.mp3".to_string()]);
    assert_eq!(engine.search_files_in_profile("Todos", "report"), vec!["/data/Report.PDF".to_string()]);
    assert!(engine.search_files_in_profile("Audios", "report").is_empty());
    assert_eq!(engine.get_profile_statistics(), vec![("Audios".to_string(), 1)]);
    let findings = engine.get_findings().unwrap();
    assert_eq!(findings.len(), 2);
    assert_eq!(findings[0].profile_name, "General");
    engine.reset();
    assert_eq!(engine.state(), AnalysisState::Idle);
    assert!(engine.get_analyzed_files().is_empty());
}

#[test]
fn plain_walk_leaves_files_to_analyze() {
    let mut engine = Engine::default();
    let mut w = Walker::new("/x".to_string());
    w.record_file("/x/a".to_string());
    engine.finish_walk(&[w]);
    assert_eq!(engine.state(), AnalysisState::Analyzing);
    assert_eq!(engine.finding().files(), &vec!["/x/a".to_string()]);
}

#[test]
fn config_keeps_profiles_and_paths() {
    let c = Config::new(default_profiles(), vec!["/a".to_string(), "/b".to_string()]);
    let copy = c.clone();
    assert_eq!(copy.analysis_profile().len(), 9);
    assert_eq!(copy.paths(), &vec!["/a".to_string(), "/b".to_string()]);
    assert!(Config::default().paths().is_empty());
    assert_eq!(AnalysisState::default(), AnalysisState::Idle);
    assert_eq!(AnalysisState::Done.name(), "Done");
}
