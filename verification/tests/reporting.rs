use foruster::reporting::wrap::{fitting_line, graphemes};
use foruster::analysis::engine::AnalysisState;
use foruster::api::analysis_api::{summary_of, AnalysisProgress};
use foruster::reporting::hashes::calculate_hashes;
use foruster::reporting::report::{
    detailed_files, disk_rows, generated_line, hash_lines, page_header, profile_heading, profile_lines,
    report_file_name, summary_rows,
};
use foruster::storage::disk::Disk;
use foruster::storage::identification_data::{IdentificationData, StorageBusType};

#[test]
fn digests_of_known_inputs() {
    let empty = calculate_hashes(b"");
    assert_eq!(empty.md5, "d41d8cd98f00b204e9800998ecf8427e");
    assert_eq!(empty.sha256, "e3b0c44298fc1c149afbf4c8996fb92427ae41e4649b934ca495991b7852b855");
    assert_eq!(empty.blake3, "af1349b9f5f9a1a6a0404dea36dcc9499bcb25c9adc112b7cc9a93cae41f3262");
    let abc = calculate_hashes(b"abc");
    assert_eq!(abc.md5, "900150983cd24fb0d6963f7d28e17f72");
    assert_eq!(abc.sha256, "ba7816bf8f01cfea414140de5dae2223b00361a396177a9cb410ff61f20015ad");
    assert_eq!(abc.blake3.len(), 64);
    assert_ne!(abc.blake3, empty.blake3);
}

#[test]
fn hash_cells_of_the_report() {
    let h = calculate_hashes(b"abc");
    let lines = hash_lines(Some(&h), false);
    assert_eq!(lines, vec![format!("MD5: {}", h.md5), format!("SHA256: {}", h.sha256)]);
    assert_eq!(hash_lines(Some(&h), true).len(), 3);
    assert_eq!(hash_lines(Some(&h), true)[2], format!("BLAKE3: {}", h.blake3));
    assert_eq!(hash_lines(None, true), vec!["Error calculating hashes".to_string()]);
}

#[test]
fn summary_and_disk_tables() {
    let mut p = AnalysisProgress::default();
    p.scanned_files = 12;
    p.analyzed_files = 11;
    p.matched_files = 3;
    p.state = AnalysisState::Done;
    let s = summary_of(&p, &[]);
    let rows = summary_rows(&s, "1.5s".to_string());
    assert_eq!(rows[0], ("Total Files Scanned".to_string(), "12".to_string()));
    assert_eq!(rows[2], ("Matched Files Found".to_string(), "3".to_string()));
    assert_eq!(rows[3], ("Suspicious Files Found".to_string(), "0".to_string()));
    assert_eq!(rows[4], ("Analysis Duration".to_string(), "1.5s".to_string()));
    let ident = IdentificationData::new(Some("WD".to_string()), None, None, None, StorageBusType::Sata, false);
    let disks = vec![Disk::new("sda".to_string(), ident, Vec::new(), 0)];
    assert_eq!(
        disk_rows(&disks),
        vec![vec!["N/A".to_string(), "WD".to_string(), "N/A".to_string(), "SATA".to_string()]]
    );
}

#[test]
fn report_texts() {
    assert_eq!(profile_lines(&[("Audios".to_string(), 4)]), vec!["Audios (4 matches)".to_string()]);
    assert_eq!(generated_line("Mon, 1 Jan 2024"), "Report Generated: Mon, 1 Jan 2024");
    assert_eq!(page_header(3), "Forensic Analysis Report - Page 3");
    assert_eq!(profile_heading("Texto"), "Profile: Texto");
    assert_eq!(report_file_name("20240101_120000"), "Foruster_Report_20240101_120000.pdf");
    let files: Vec<String> = (0..250).map(|i| format!("/f{}", i)).collect();
    let shown = detailed_files(&files);
    assert_eq!(shown.len(), 200);
    assert_eq!(shown[199], "/f199");
    assert_eq!(detailed_files(&files[..3]).len(), 3);
}

#[test]
fn text_is_cut_into_grapheme_clusters() {
    assert_eq!(graphemes("a\r\nb"), vec!["a".to_string(), "\r\n".to_string(), "b".to_string()]);
    assert_eq!(graphemes("e\u{301}x"), vec!["e\u{301}".to_string(), "x".to_string()]);
    assert!(graphemes("").is_empty());
}

#[test]
fn a_line_takes_the_clusters_that_fit() {
    let clusters: Vec<String> = ["ab", "c", "d", "e"].iter().map(|s| s.to_string()).collect();
    assert_eq!(fitting_line(&clusters, &[true, true, false]), ("abc".to_string(), 2));
    assert_eq!(fitting_line(&clusters, &[true, true, true, true]), ("abcde".to_string(), 4));
    assert_eq!(fitting_line(&clusters, &[false]), ("ab".to_string(), 1));
    assert_eq!(fitting_line(&clusters, &[]), ("ab".to_string(), 1));
    assert_eq!(fitting_line(&[], &[]), (String::new(), 0));
}

#[test]
fn wrapped_lines_give_back_the_text() {
    let text = "e\u{301}abc\r\ndefg";
    let mut rest = text.to_string();
    let mut lines = Vec::new();
    while !rest.is_empty() {
        let clusters = graphemes(&rest);
        assert_eq!(clusters.concat(), rest);
        let mut fits = Vec::new();
        let mut taken = String::new();
        for c in &clusters {
            taken.push_str(c);
            let fit = taken.chars().count() <= 3;
            fits.push(fit);
            if !fit {
                break;
            }
        }
        let (line, n) = fitting_line(&clusters, &fits);
        assert!(n >= 1);
        rest = rest[line.len()..].to_string();
        lines.push(line);
    }
    assert_eq!(lines.concat(), text);
    assert_eq!(lines[0], "e\u{301}a");
}
