//! The text of the forensic report, section by section; laying it out on
//! pages is left to the document writer.
use super::hashes::FileHashes;
use crate::api::analysis_api::AnalysisSummary;
use crate::foruster_core::storage_bus_type::bus_type_name;
use crate::storage::disk::{disk_views, Disk, DiskView};
use crate::text::{append_str, decimal, owned, u64_to_string};
use vstd::prelude::*;

verus! {

/// The contents of a list of label-value rows.
pub open spec fn rows_view(v: Seq<(String, String)>) -> Seq<(Seq<char>, Seq<char>)> {
    v.map_values(|e: (String, String)| (e.0@, e.1@))
}

/// The contents of a list of strings.
pub open spec fn lines_view(v: Seq<String>) -> Seq<Seq<char>> {
    v.map_values(|s: String| s@)
}

fn text_of(label: &str, value: String) -> (r: (String, String))
    ensures
        r.0@ == label@,
        r.1@ == value@,
{
    (owned(label), value)
}

/// The rows of the executive summary; `duration` is the analysis time as
/// the report writes it.
pub fn summary_rows(summary: &AnalysisSummary, duration: String) -> (r: Vec<(String, String)>)
    ensures
        rows_view(r@) == seq![
            ("Total Files Scanned"@, decimal(summary.total_files_scanned as nat)),
            ("Total Files Analyzed"@, decimal(summary.total_files_analyzed as nat)),
            ("Matched Files Found"@, decimal(summary.total_matches_found as nat)),
            ("Suspicious Files Found"@, decimal(summary.total_suspicious_files as nat)),
            ("Analysis Duration"@, duration@),
        ],
{
    let r = vec![
        text_of("Total Files Scanned", u64_to_string(summary.total_files_scanned as u64)),
        text_of("Total Files Analyzed", u64_to_string(summary.total_files_analyzed as u64)),
        text_of("Matched Files Found", u64_to_string(summary.total_matches_found as u64)),
        text_of("Suspicious Files Found", u64_to_string(summary.total_suspicious_files as u64)),
        text_of("Analysis Duration", duration),
    ];
    assert(rows_view(r@) =~= seq![
        ("Total Files Scanned"@, decimal(summary.total_files_scanned as nat)),
        ("Total Files Analyzed"@, decimal(summary.total_files_analyzed as nat)),
        ("Matched Files Found"@, decimal(summary.total_matches_found as nat)),
        ("Suspicious Files Found"@, decimal(summary.total_suspicious_files as nat)),
        ("Analysis Duration"@, duration@),
    ]);
    r
}

/// An optional text, or `N/A`.
pub open spec fn or_na(o: Option<Seq<char>>) -> Seq<char> {
    match o {
        Some(s) => s,
        None => "N/A"@,
    }
}

fn text_or_na(o: &Option<String>) -> (r: String)
    ensures
        r@ == or_na(o.deep_view()),
{
    match o {
        Some(s) => s.clone(),
        None => owned("N/A"),
    }
}

/// The cells of a disk's row in the table of analyzed disks: model, vendor,
/// serial number and bus.
pub open spec fn disk_cells_of(d: DiskView) -> Seq<Seq<char>> {
    seq![
        or_na(d.identification.model),
        or_na(d.identification.vendor),
        or_na(d.identification.serial_number),
        bus_type_name(d.identification.bus_type),
    ]
}

/// The rows of the table of analyzed disks, one per disk.
pub fn disk_rows(disks: &[Disk]) -> (r: Vec<Vec<String>>)
    ensures
        r@.len() == disks@.len(),
        forall|i: int| 0 <= i < disks@.len() ==> lines_view((#[trigger] r@[i])@) == disk_cells_of(disks@[i]@),
{
    let mut r: Vec<Vec<String>> = Vec::new();
    let mut i: usize = 0;
    while i < disks.len()
        invariant
            0 <= i <= disks.len(),
            r@.len() == i,
            forall|j: int| 0 <= j < i ==> lines_view((#[trigger] r@[j])@) == disk_cells_of(disks@[j]@),
        decreases disks.len() - i,
    {
        let ident = disks[i].identification_data();
        let row = vec![
            text_or_na(ident.model()),
            text_or_na(ident.vendor()),
            text_or_na(ident.serial_number()),
            ident.bus_type().to_string(),
        ];
        assert(lines_view(row@) =~= disk_cells_of(disks@[i as int]@));
        r.push(row);
        i += 1;
    }
    r
}

/// The line of the list of profiles used: the profile and its number of
/// matches.
pub open spec fn profile_line(name: Seq<char>, count: nat) -> Seq<char> {
    name + " ("@ + decimal(count) + " matches)"@
}

/// The lines of the list of profiles used, in the order of the statistics.
pub fn profile_lines(stats: &[(String, usize)]) -> (r: Vec<String>)
    ensures
        r@.len() == stats@.len(),
        forall|i: int| 0 <= i < stats@.len() ==> (#[trigger] r@[i])@ == profile_line(stats@[i].0@, stats@[i].1 as nat),
{
    let mut r: Vec<String> = Vec::new();
    let mut i: usize = 0;
    while i < stats.len()
        invariant
            0 <= i <= stats.len(),
            r@.len() == i,
            forall|j: int| 0 <= j < i ==> (#[trigger] r@[j])@ == profile_line(stats@[j].0@, stats@[j].1 as nat),
        decreases stats.len() - i,
    {
        let s = stats[i].0.clone();
        let s = append_str(s, " (");
        let n = u64_to_string(stats[i].1 as u64);
        let s = append_str(s, n.as_str());
        let s = append_str(s, " matches)");
        r.push(s);
        i += 1;
    }
    r
}

/// The lines of a file's hash cell: MD5 and SHA-256, and BLAKE3 when asked
/// for; a single error line when the digests could not be computed.
pub open spec fn hash_cell(h: Option<(Seq<char>, Seq<char>, Seq<char>)>, with_blake3: bool) -> Seq<Seq<char>> {
    match h {
        Some((md5, sha256, blake3)) => if with_blake3 {
            seq!["MD5: "@ + md5, "SHA256: "@ + sha256, "BLAKE3: "@ + blake3]
        } else {
            seq!["MD5: "@ + md5, "SHA256: "@ + sha256]
        },
        None => seq!["Error calculating hashes"@],
    }
}

/// The lines of a file's hash cell.
pub fn hash_lines(hashes: Option<&FileHashes>, with_blake3: bool) -> (r: Vec<String>)
    ensures
        lines_view(r@) == hash_cell(match hashes {
            Some(h) => Some((h.md5@, h.sha256@, h.blake3@)),
            None => None,
        }, with_blake3),
{
    match hashes {
        Some(h) => {
            let md5 = append_str(owned("MD5: "), h.md5.as_str());
            let sha256 = append_str(owned("SHA256: "), h.sha256.as_str());
            if with_blake3 {
                let blake3 = append_str(owned("BLAKE3: "), h.blake3.as_str());
                let r = vec![md5, sha256, blake3];
                assert(lines_view(r@) =~= seq!["MD5: "@ + h.md5@, "SHA256: "@ + h.sha256@, "BLAKE3: "@ + h.blake3@]);
                r
            } else {
                let r = vec![md5, sha256];
                assert(lines_view(r@) =~= seq!["MD5: "@ + h.md5@, "SHA256: "@ + h.sha256@]);
                r
            }
        },
        None => {
            let r = vec![owned("Error calculating hashes")];
            assert(lines_view(r@) =~= seq!["Error calculating hashes"@]);
            r
        },
    }
}

/// The line under the report's title.
pub fn generated_line(timestamp: &str) -> (r: String)
    ensures
        r@ == "Report Generated: "@ + timestamp@,
{
    append_str(owned("Report Generated: "), timestamp)
}

/// The header of each page.
pub fn page_header(page: usize) -> (r: String)
    ensures
        r@ == "Forensic Analysis Report - Page "@ + decimal(page as nat),
{
    let n = u64_to_string(page as u64);
    append_str(owned("Forensic Analysis Report - Page "), n.as_str())
}

/// The heading of a profile's detailed findings.
pub fn profile_heading(profile_name: &str) -> (r: String)
    ensures
        r@ == "Profile: "@ + profile_name@,
{
    append_str(owned("Profile: "), profile_name)
}

/// The file name a report is offered under.
pub fn report_file_name(timestamp: &str) -> (r: String)
    ensures
        r@ == "Foruster_Report_"@ + timestamp@ + ".pdf"@,
{
    let s = append_str(owned("Foruster_Report_"), timestamp);
    append_str(s, ".pdf")
}

/// At most this many files of a profile are detailed in the report.
pub const DETAILED_FILES_LIMIT: usize = 200;

/// The files of a profile that the report details: the first
/// [`DETAILED_FILES_LIMIT`] of them.
pub fn detailed_files(files: &[String]) -> (r: Vec<String>)
    ensures
        lines_view(r@) == lines_view(files@).take(
            if files@.len() <= DETAILED_FILES_LIMIT { files@.len() as int } else { DETAILED_FILES_LIMIT as int },
        ),
{
    let n = if files.len() <= DETAILED_FILES_LIMIT { files.len() } else { DETAILED_FILES_LIMIT };
    let mut r: Vec<String> = Vec::new();
    let mut i: usize = 0;
    while i < n
        invariant
            0 <= i <= n,
            n <= files.len(),
            lines_view(r@) == lines_view(files@).take(i as int),
        decreases n - i,
    {
        let ghost before = r@;
        r.push(files[i].clone());
        assert(lines_view(r@) =~= lines_view(before).push(files@[i as int]@));
        assert(lines_view(files@).take(i + 1) =~= lines_view(files@).take(i as int).push(files@[i as int]@));
        i += 1;
    }
    r
}

} // verus!
