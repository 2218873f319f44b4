//! The progress of an analysis as the user interface sees it, the commands
//! it sends, and the summary it shows at the end.
use crate::analysis::engine::AnalysisState;
use crate::analysis::finding::Finding;
use crate::profiling::profile::{profile_views, Profile, ProfileView};
use crate::text::{str_equal, strings_view};
use crate::tokens::{parse_usize, parsed_usize};
use vstd::prelude::*;

verus! {

/// `Duration::ZERO`, the empty span of time; nothing is claimed of it.
#[verifier::external_body]
fn zero_duration() -> std::time::Duration {
    std::time::Duration::ZERO
}

/// Where an analysis is and what it has counted so far.
#[derive(Debug)]
pub struct AnalysisProgress {
    pub state: AnalysisState,
    pub total_files: usize,
    pub scanned_files: usize,
    pub analyzed_files: usize,
    pub matched_files: usize,
    pub suspicious_files: usize,
    pub current_path: String,
    pub elapsed_time: std::time::Duration,
    pub estimated_remaining: Option<std::time::Duration>,
}

/// The counters and state of a progress report.
pub ghost struct ProgressView {
    pub state: AnalysisState,
    pub total_files: usize,
    pub scanned_files: usize,
    pub analyzed_files: usize,
    pub matched_files: usize,
    pub suspicious_files: usize,
    pub current_path: Seq<char>,
}

impl View for AnalysisProgress {
    type V = ProgressView;

    open spec fn view(&self) -> ProgressView {
        ProgressView {
            state: self.state,
            total_files: self.total_files,
            scanned_files: self.scanned_files,
            analyzed_files: self.analyzed_files,
            matched_files: self.matched_files,
            suspicious_files: self.suspicious_files,
            current_path: self.current_path@,
        }
    }
}

/// A report with nothing counted, of an idle analysis.
pub open spec fn idle_progress() -> ProgressView {
    ProgressView {
        state: AnalysisState::Idle,
        total_files: 0,
        scanned_files: 0,
        analyzed_files: 0,
        matched_files: 0,
        suspicious_files: 0,
        current_path: Seq::empty(),
    }
}

impl Default for AnalysisProgress {
    fn default() -> (r: Self)
        ensures
            r@ == idle_progress(),
            r.estimated_remaining is None,
    {
        AnalysisProgress {
            state: AnalysisState::Idle,
            total_files: 0,
            scanned_files: 0,
            analyzed_files: 0,
            matched_files: 0,
            suspicious_files: 0,
            current_path: String::new(),
            elapsed_time: zero_duration(),
            estimated_remaining: None,
        }
    }
}

impl Clone for AnalysisProgress {
    fn clone(&self) -> (r: Self)
        ensures
            r@ == self@,
            r.elapsed_time == self.elapsed_time,
            r.estimated_remaining == self.estimated_remaining,
    {
        AnalysisProgress {
            state: self.state,
            total_files: self.total_files,
            scanned_files: self.scanned_files,
            analyzed_files: self.analyzed_files,
            matched_files: self.matched_files,
            suspicious_files: self.suspicious_files,
            current_path: self.current_path.clone(),
            elapsed_time: self.elapsed_time,
            estimated_remaining: self.estimated_remaining,
        }
    }
}

/// The value of the first pair with key `key`, if any.
pub open spec fn value_of(data: Seq<(Seq<char>, Seq<char>)>, key: Seq<char>) -> Option<Seq<char>>
    decreases data.len(),
{
    if data.len() == 0 {
        None
    } else if data[0].0 == key {
        Some(data[0].1)
    } else {
        value_of(data.drop_first(), key)
    }
}

/// The number a value holds, when it is present and is a number.
pub open spec fn number_at(data: Seq<(Seq<char>, Seq<char>)>, key: Seq<char>) -> Option<usize> {
    match value_of(data, key) {
        Some(v) => parsed_usize(v),
        None => None,
    }
}

/// A counter replaced by the number a value holds, when it holds one.
pub open spec fn updated(current: usize, data: Seq<(Seq<char>, Seq<char>)>, key: Seq<char>) -> usize {
    match number_at(data, key) {
        Some(n) => n,
        None => current,
    }
}

/// The state a state name stands for; unknown names are `Idle`.
pub open spec fn state_named(s: Seq<char>) -> AnalysisState {
    if s == "Walking"@ {
        AnalysisState::Walking
    } else if s == "Analyzing"@ {
        AnalysisState::Analyzing
    } else if s == "Done"@ {
        AnalysisState::Done
    } else {
        AnalysisState::Idle
    }
}

/// The progress after a notice of the analysis: `state_change` sets the
/// state; `file_scanned` takes the counters, the current path and the
/// estimated total; `analysis_completed` takes the final counters and marks
/// the analysis done. Absent or non-numeric values leave their counter as
/// it was; other notices change nothing.
pub open spec fn progress_after(p: ProgressView, update_type: Seq<char>, data: Seq<(Seq<char>, Seq<char>)>) -> ProgressView {
    if update_type == "state_change"@ {
        match value_of(data, "state"@) {
            Some(s) => ProgressView { state: state_named(s), ..p },
            None => p,
        }
    } else if update_type == "file_scanned"@ {
        ProgressView {
            scanned_files: updated(p.scanned_files, data, "scanned_files"@),
            analyzed_files: updated(p.analyzed_files, data, "analyzed_files"@),
            matched_files: updated(p.matched_files, data, "matched_files"@),
            suspicious_files: updated(p.suspicious_files, data, "suspicious_files"@),
            current_path: match value_of(data, "current_path"@) {
                Some(c) => c,
                None => p.current_path,
            },
            total_files: updated(p.total_files, data, "total_estimated"@),
            ..p
        }
    } else if update_type == "analysis_completed"@ {
        ProgressView {
            total_files: updated(p.total_files, data, "total_files"@),
            analyzed_files: updated(p.analyzed_files, data, "analyzed_files"@),
            matched_files: updated(p.matched_files, data, "matched_files"@),
            suspicious_files: updated(p.suspicious_files, data, "suspicious_files"@),
            state: AnalysisState::Done,
            ..p
        }
    } else {
        p
    }
}

/// The contents of a list of key-value pairs.
pub open spec fn data_view(data: Seq<(String, String)>) -> Seq<(Seq<char>, Seq<char>)> {
    data.map_values(|e: (String, String)| (e.0@, e.1@))
}

/// The value of the first pair with key `key`, if any.
pub fn lookup<'a>(data: &'a [(String, String)], key: &str) -> (r: Option<&'a String>)
    ensures
        match r {
            Some(v) => value_of(data_view(data@), key@) == Some(v@),
            None => value_of(data_view(data@), key@) is None,
        },
{
    let ghost d = data_view(data@);
    assert(d.skip(0) == d);
    let mut i: usize = 0;
    while i < data.len()
        invariant
            0 <= i <= data.len(),
            d == data_view(data@),
            value_of(d, key@) == value_of(d.skip(i as int), key@),
        decreases data.len() - i,
    {
        let ghost rest = d.skip(i as int);
        assert(rest[0] == (data@[i as int].0@, data@[i as int].1@));
        assert(rest.drop_first() == d.skip(i + 1));
        if str_equal(data[i].0.as_str(), key) {
            return Some(&data[i].1);
        }
        i += 1;
    }
    None
}

fn number_for(data: &[(String, String)], key: &str) -> (r: Option<usize>)
    ensures
        r == number_at(data_view(data@), key@),
{
    match lookup(data, key) {
        Some(v) => parse_usize(v.as_str()),
        None => None,
    }
}

fn state_from_name(s: &str) -> (r: AnalysisState)
    ensures
        r == state_named(s@),
{
    if str_equal(s, "Walking") {
        AnalysisState::Walking
    } else if str_equal(s, "Analyzing") {
        AnalysisState::Analyzing
    } else if str_equal(s, "Done") {
        AnalysisState::Done
    } else {
        AnalysisState::Idle
    }
}

impl AnalysisProgress {
    /// The analysis is walking or analyzing.
    pub fn is_running(&self) -> (r: bool)
        ensures
            r == (self.state == AnalysisState::Walking || self.state == AnalysisState::Analyzing),
    {
        match self.state {
            AnalysisState::Walking | AnalysisState::Analyzing => true,
            _ => false,
        }
    }

    /// Takes in a notice of the analysis; times are left as they were.
    pub fn apply_update(&mut self, update_type: &str, data: &[(String, String)])
        ensures
            final(self)@ == progress_after(old(self)@, update_type@, data_view(data@)),
            final(self).elapsed_time == old(self).elapsed_time,
            final(self).estimated_remaining == old(self).estimated_remaining,
    {
        if str_equal(update_type, "state_change") {
            if let Some(s) = lookup(data, "state") {
                self.state = state_from_name(s.as_str());
            }
        } else if str_equal(update_type, "file_scanned") {
            if let Some(v) = number_for(data, "scanned_files") {
                self.scanned_files = v;
            }
            if let Some(v) = number_for(data, "analyzed_files") {
                self.analyzed_files = v;
            }
            if let Some(v) = number_for(data, "matched_files") {
                self.matched_files = v;
            }
            if let Some(v) = number_for(data, "suspicious_files") {
                self.suspicious_files = v;
            }
            if let Some(v) = lookup(data, "current_path") {
                self.current_path = v.clone();
            }
            if let Some(v) = number_for(data, "total_estimated") {
                self.total_files = v;
            }
        } else if str_equal(update_type, "analysis_completed") {
            if let Some(v) = number_for(data, "total_files") {
                self.total_files = v;
            }
            if let Some(v) = number_for(data, "analyzed_files") {
                self.analyzed_files = v;
            }
            if let Some(v) = number_for(data, "matched_files") {
                self.matched_files = v;
            }
            if let Some(v) = number_for(data, "suspicious_files") {
                self.suspicious_files = v;
            }
            self.state = AnalysisState::Done;
        }
    }
}

/// A command to the thread that runs analyses.
pub enum AnalysisCommand {
    Initialize { profiles: Vec<Profile>, paths: Vec<String> },
    Start,
    Stop,
}

/// What the analysis thread does for a command, besides updating the progress.
pub enum CommandEffect {
    /// Configure the engine with these profiles and folders.
    Configure { profiles: Vec<Profile>, paths: Vec<String> },
    /// Run an analysis.
    Run,
    /// Nothing more.
    Nothing,
}

/// Handles a command: `Initialize` resets the progress and configures the
/// engine, `Start` runs an analysis, `Stop` marks the analysis idle.
pub fn handle_command(progress: &mut AnalysisProgress, command: AnalysisCommand) -> (r: CommandEffect)
    ensures
        match command {
            AnalysisCommand::Initialize { profiles, paths } => {
                &&& final(progress)@ == idle_progress()
                &&& final(progress).estimated_remaining is None
                &&& r matches CommandEffect::Configure { profiles: ps, paths: qs }
                    && profile_views(ps@) == profile_views(profiles@) && strings_view(qs@) == strings_view(paths@)
            },
            AnalysisCommand::Start => final(progress)@ == old(progress)@ && r is Run,
            AnalysisCommand::Stop => final(progress)@ == (ProgressView { state: AnalysisState::Idle, ..old(progress)@ })
                && r is Nothing,
        },
{
    match command {
        AnalysisCommand::Initialize { profiles, paths } => {
            *progress = AnalysisProgress::default();
            CommandEffect::Configure { profiles, paths }
        },
        AnalysisCommand::Start => CommandEffect::Run,
        AnalysisCommand::Stop => {
            progress.state = AnalysisState::Idle;
            CommandEffect::Nothing
        },
    }
}

/// The figures shown when an analysis is over.
#[derive(Debug)]
pub struct AnalysisSummary {
    pub total_files_scanned: usize,
    pub total_files_analyzed: usize,
    pub total_matches_found: usize,
    pub total_suspicious_files: usize,
    pub analysis_duration: std::time::Duration,
    pub state: AnalysisState,
    pub findings_by_profile: Vec<(String, usize)>,
}

/// How many findings each profile has, profiles in the order they first
/// appear among the findings.
pub open spec fn finding_counts(names: Seq<Seq<char>>) -> Seq<(Seq<char>, nat)>
    decreases names.len(),
{
    if names.len() == 0 {
        Seq::empty()
    } else {
        let before = finding_counts(names.drop_last());
        let n = names.last();
        match count_position(before, n) {
            Some(i) => before.update(i, (n, before[i].1 + 1)),
            None => before.push((n, 1nat)),
        }
    }
}

/// Position of the count of `name`, if any.
pub open spec fn count_position(t: Seq<(Seq<char>, nat)>, name: Seq<char>) -> Option<int> {
    if exists|i: int| 0 <= i < t.len() && t[i].0 == name {
        Some(choose|i: int| 0 <= i < t.len() && t[i].0 == name)
    } else {
        None
    }
}

/// The profile names of findings.
pub open spec fn finding_profiles(fs: Seq<Finding>) -> Seq<Seq<char>> {
    fs.map_values(|f: Finding| f.profile_name@)
}

/// The counts of [`finding_counts`] add up to the number of findings.
pub open spec fn counts_total(t: Seq<(Seq<char>, nat)>) -> nat
    decreases t.len(),
{
    if t.len() == 0 {
        0
    } else {
        counts_total(t.drop_last()) + t.last().1
    }
}

proof fn lemma_counts_total_update(t: Seq<(Seq<char>, nat)>, i: int, x: (Seq<char>, nat))
    requires
        0 <= i < t.len(),
    ensures
        counts_total(t.update(i, x)) == counts_total(t) - t[i].1 + x.1,
    decreases t.len(),
{
    if i < t.len() - 1 {
        lemma_counts_total_update(t.drop_last(), i, x);
        assert(t.update(i, x).drop_last() == t.drop_last().update(i, x));
    } else {
        assert(t.update(i, x).drop_last() == t.drop_last());
    }
}

/// Every finding is counted once: the counts add up to the number of findings.
pub proof fn finding_counts_add_up(names: Seq<Seq<char>>)
    ensures
        counts_total(finding_counts(names)) == names.len(),
    decreases names.len(),
{
    if names.len() > 0 {
        finding_counts_add_up(names.drop_last());
        let before = finding_counts(names.drop_last());
        match count_position(before, names.last()) {
            Some(i) => {
                lemma_counts_total_update(before, i, (names.last(), before[i].1 + 1));
            },
            None => {
                assert(before.push((names.last(), 1nat)).drop_last() == before);
            },
        }
    }
}

/// The names in `t` are pairwise distinct.
pub open spec fn distinct_names(t: Seq<(Seq<char>, nat)>) -> bool {
    forall|i: int, j: int| 0 <= i < j < t.len() ==> #[trigger] t[i].0 != #[trigger] t[j].0
}

proof fn lemma_finding_counts_distinct(names: Seq<Seq<char>>)
    ensures
        distinct_names(finding_counts(names)),
    decreases names.len(),
{
    if names.len() > 0 {
        lemma_finding_counts_distinct(names.drop_last());
    }
}

/// Counts findings by profile name.
pub fn group_findings_by_profile(findings: &[Finding]) -> (r: Vec<(String, usize)>)
    ensures
        r@.map_values(|e: (String, usize)| (e.0@, e.1 as nat)) == finding_counts(finding_profiles(findings@)),
{
    let ghost names = finding_profiles(findings@);
    let mut r: Vec<(String, usize)> = Vec::new();
    let mut i: usize = 0;
    while i < findings.len()
        invariant
            0 <= i <= findings.len(),
            names == finding_profiles(findings@),
            r@.map_values(|e: (String, usize)| (e.0@, e.1 as nat)) == finding_counts(names.take(i as int)),
            counts_total(finding_counts(names.take(i as int))) == i,
            distinct_names(finding_counts(names.take(i as int))),
        decreases findings.len() - i,
    {
        let ghost t = finding_counts(names.take(i as int));
        let ghost rv = r@.map_values(|e: (String, usize)| (e.0@, e.1 as nat));
        assert(names.take(i + 1).drop_last() == names.take(i as int));
        assert(names.take(i + 1).last() == findings@[i as int].profile_name@);
        proof {
            finding_counts_add_up(names.take(i + 1));
            lemma_finding_counts_distinct(names.take(i + 1));
        }
        let name = &findings[i].profile_name;
        let mut k: usize = 0;
        while k < r.len()
            invariant
                0 <= k <= r.len(),
                rv == r@.map_values(|e: (String, usize)| (e.0@, e.1 as nat)),
                forall|j: int| 0 <= j < k ==> #[trigger] rv[j].0 != name@,
            ensures
                0 <= k <= r.len(),
                forall|j: int| 0 <= j < k ==> #[trigger] rv[j].0 != name@,
                k < r.len() ==> rv[k as int].0 == name@,
            decreases r.len() - k,
        {
            if str_equal(r[k].0.as_str(), name.as_str()) {
                assert(rv[k as int].0 == name@);
                break;
            }
            assert(rv[k as int].0 == r@[k as int].0@);
            k += 1;
        }
        if k < r.len() {
            assert(rv[k as int].0 == r@[k as int].0@);
            proof {
                lemma_counts_bounded(t, k as int);
            }
            let (n, c) = r.remove(k);
            let ghost x = (n, (c + 1) as usize);
            r.insert(k, (n, c + 1));
            proof {
                let p = count_position(t, name@);
                assert(t[k as int].0 == name@);
                assert(p is Some);
                let w = p.unwrap();
                assert(t[w].0 == name@);
                if w != k {
                    assert(distinct_names(t));
                    if w < k {
                        assert(t[w].0 != t[k as int].0);
                    } else {
                        assert(t[k as int].0 != t[w].0);
                    }
                }
                assert(r@.map_values(|e: (String, usize)| (e.0@, e.1 as nat)) =~= t.update(k as int, (name@, t[k as int].1 + 1)));
            }
        } else {
            let ghost before = r@;
            r.push((name.clone(), 1));
            proof {
                assert(count_position(t, name@) is None);
                assert(r@.map_values(|e: (String, usize)| (e.0@, e.1 as nat)) =~= t.push((name@, 1nat)));
            }
        }
        i += 1;
    }
    assert(names.take(findings.len() as int) == names);
    r
}

proof fn lemma_counts_bounded(t: Seq<(Seq<char>, nat)>, k: int)
    requires
        0 <= k < t.len(),
    ensures
        t[k].1 <= counts_total(t),
    decreases t.len(),
{
    if k < t.len() - 1 {
        lemma_counts_bounded(t.drop_last(), k);
    }
}

/// The summary of an analysis from its progress and its findings.
pub fn summary_of(progress: &AnalysisProgress, findings: &[Finding]) -> (r: AnalysisSummary)
    ensures
        r.total_files_scanned == progress.scanned_files,
        r.total_files_analyzed == progress.analyzed_files,
        r.total_matches_found == progress.matched_files,
        r.total_suspicious_files == progress.suspicious_files,
        r.analysis_duration == progress.elapsed_time,
        r.state == progress.state,
        r.findings_by_profile@.map_values(|e: (String, usize)| (e.0@, e.1 as nat)) == finding_counts(
            finding_profiles(findings@),
        ),
{
    AnalysisSummary {
        total_files_scanned: progress.scanned_files,
        total_files_analyzed: progress.analyzed_files,
        total_matches_found: progress.matched_files,
        total_suspicious_files: progress.suspicious_files,
        analysis_duration: progress.elapsed_time,
        state: progress.state,
        findings_by_profile: group_findings_by_profile(findings),
    }
}

/// A state change notice naming a state moves the progress to that state.
pub proof fn state_notice_round_trip(p: ProgressView, s: AnalysisState)
    ensures
        progress_after(p, "state_change"@, seq![("state"@, crate::analysis::engine::state_name(s))]).state == s,
{
    reveal_strlit("Idle");
    reveal_strlit("Walking");
    reveal_strlit("Analyzing");
    reveal_strlit("Done");
    reveal_strlit("state_change");
    reveal_strlit("state");
    let data = seq![("state"@, crate::analysis::engine::state_name(s))];
    assert(data[0].0 == "state"@);
    assert(value_of(data, "state"@) == Some(crate::analysis::engine::state_name(s)));
    assert("Idle"@[0] != "Walking"@[0]);
    assert("Idle"@[0] != "Analyzing"@[0]);
    assert("Idle"@[0] != "Done"@[0]);
    assert("Walking"@[0] != "Analyzing"@[0]);
    assert("Walking"@[0] != "Done"@[0]);
    assert("Analyzing"@[0] != "Done"@[0]);
}

/// A completion notice always marks the analysis done.
pub proof fn completion_marks_done(p: ProgressView, data: Seq<(Seq<char>, Seq<char>)>)
    ensures
        progress_after(p, "analysis_completed"@, data).state == AnalysisState::Done,
{
    reveal_strlit("analysis_completed");
    reveal_strlit("state_change");
    reveal_strlit("file_scanned");
    assert("analysis_completed"@.len() != "state_change"@.len());
    assert("analysis_completed"@.len() != "file_scanned"@.len());
}

/// The number a notice carries under `key`, when it carries one.
pub open spec fn carries(data: Seq<(Seq<char>, Seq<char>)>, key: Seq<char>, n: usize) -> bool {
    value_of(data, key) matches Some(v) && parsed_usize(v) == Some(n)
}

/// A completion notice hands over the final counters: every counter it
/// carries as a number (total, analyzed, matched, suspicious files) is taken
/// as sent, one it does not carry is kept, and the analysis is done.
pub proof fn completion_takes_final_counters(p: ProgressView, data: Seq<(Seq<char>, Seq<char>)>, n: usize)
    ensures
        carries(data, "total_files"@, n) ==> progress_after(p, "analysis_completed"@, data).total_files == n,
        carries(data, "analyzed_files"@, n) ==> progress_after(p, "analysis_completed"@, data).analyzed_files == n,
        carries(data, "matched_files"@, n) ==> progress_after(p, "analysis_completed"@, data).matched_files == n,
        carries(data, "suspicious_files"@, n) ==> progress_after(p, "analysis_completed"@, data).suspicious_files == n,
        value_of(data, "analyzed_files"@) is None ==> progress_after(p, "analysis_completed"@, data).analyzed_files
            == p.analyzed_files,
        value_of(data, "total_files"@) is None ==> progress_after(p, "analysis_completed"@, data).total_files
            == p.total_files,
        progress_after(p, "analysis_completed"@, data).scanned_files == p.scanned_files,
        progress_after(p, "analysis_completed"@, data).current_path == p.current_path,
{
    reveal_strlit("analysis_completed");
    reveal_strlit("state_change");
    reveal_strlit("file_scanned");
    assert("analysis_completed"@.len() != "state_change"@.len());
    assert("analysis_completed"@.len() != "file_scanned"@.len());
}

/// A notice of files scanned hands over the running counters: the scanned,
/// analyzed and matched counts it carries, and its estimate of the total as
/// the total; the state stays as it was.
pub proof fn scan_notice_takes_counters(p: ProgressView, data: Seq<(Seq<char>, Seq<char>)>, n: usize)
    ensures
        carries(data, "scanned_files"@, n) ==> progress_after(p, "file_scanned"@, data).scanned_files == n,
        carries(data, "analyzed_files"@, n) ==> progress_after(p, "file_scanned"@, data).analyzed_files == n,
        carries(data, "matched_files"@, n) ==> progress_after(p, "file_scanned"@, data).matched_files == n,
        carries(data, "total_estimated"@, n) ==> progress_after(p, "file_scanned"@, data).total_files == n,
        value_of(data, "analyzed_files"@) is None ==> progress_after(p, "file_scanned"@, data).analyzed_files
            == p.analyzed_files,
        progress_after(p, "file_scanned"@, data).state == p.state,
{
    reveal_strlit("state_change");
    reveal_strlit("file_scanned");
    assert("file_scanned"@[0] != "state_change"@[0]);
}

} // verus!
