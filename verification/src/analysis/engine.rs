//! The course of an analysis: its state, the counters and progress notices
//! it keeps while walking, the index of files by profile, and the queries
//! answered once it is done.
use super::config::{Config, ConfigView};
use super::finding::{files_of_profile, index_add, FindingContainer, FindingView, Finding, ProfileIndex, empty_findings};
use super::walker::{count_where, entry_views, is_file_entry, is_matched_entry, WalkBatch, WalkEntryView, Walker, WalkerView};
use crate::profiling::profile::{profile_views, Profile, ProfileView};
use crate::text::{
    clone_strings, append_str, contains, contains_string, decimal, has_infix, owned, str_equal, str_to_lowercase,
    strings_view, u64_to_string, unicode_lowercase,
};
use vstd::prelude::*;

verus! {

/// Where an analysis is.
#[derive(Debug, Clone, Copy, PartialEq, Eq, Structural)]
pub enum AnalysisState {
    Idle,
    Walking,
    Analyzing,
    Done,
}

impl Default for AnalysisState {
    fn default() -> (r: Self)
        ensures
            r == AnalysisState::Idle,
    {
        AnalysisState::Idle
    }
}

/// The name of each state.
pub open spec fn state_name(s: AnalysisState) -> Seq<char> {
    match s {
        AnalysisState::Idle => "Idle"@,
        AnalysisState::Walking => "Walking"@,
        AnalysisState::Analyzing => "Analyzing"@,
        AnalysisState::Done => "Done"@,
    }
}

impl AnalysisState {
    /// The name of this state.
    pub fn name(&self) -> (r: String)
        ensures
            r@ == state_name(*self),
    {
        match self {
            AnalysisState::Idle => owned("Idle"),
            AnalysisState::Walking => owned("Walking"),
            AnalysisState::Analyzing => owned("Analyzing"),
            AnalysisState::Done => owned("Done"),
        }
    }
}

/// `a + b` as a `usize` addition that wraps around, as atomic counters do.
pub open spec fn wrapped_sum(a: usize, b: usize) -> usize {
    if a + b > usize::MAX {
        (a + b - (usize::MAX - usize::MIN + 1)) as usize
    } else {
        (a + b) as usize
    }
}

/// Counters shared by the walkers of one analysis.
#[derive(Debug, Clone, Copy)]
pub struct ScanCounters {
    pub scanned: usize,
    pub files: usize,
    pub matched: usize,
    pub total_estimated: usize,
}

impl ScanCounters {
    pub fn new() -> (r: Self)
        ensures
            r.scanned == 0 && r.files == 0 && r.matched == 0 && r.total_estimated == 0,
    {
        ScanCounters { scanned: 0, files: 0, matched: 0, total_estimated: 0 }
    }

    /// Counts a batch: its entries, its files and its matched files are
    /// added, and the estimate of the total is raised to the number of
    /// entries the batch's walker has processed when that is more.
    pub fn apply_batch(&mut self, batch: &WalkBatch)
        ensures
            final(self).scanned == wrapped_sum(old(self).scanned, batch.entries@.len() as usize),
            final(self).files == wrapped_sum(old(self).files, count_where(entry_views(batch.entries@), is_file_entry()) as usize),
            final(self).matched == wrapped_sum(old(self).matched, count_where(entry_views(batch.entries@), is_matched_entry()) as usize),
            final(self).total_estimated == if batch.total_processed > old(self).total_estimated {
                batch.total_processed
            } else {
                old(self).total_estimated
            },
    {
        let len = batch.entries.len();
        let files = batch.files_count();
        let matched = batch.matched_files_count();
        self.scanned = self.scanned.wrapping_add(len);
        self.files = self.files.wrapping_add(files);
        self.matched = self.matched.wrapping_add(matched);
        if batch.total_processed > self.total_estimated {
            self.total_estimated = batch.total_processed;
        }
    }
}

/// How long, in milliseconds, progress notices are held back after one was sent.
pub const NOTICE_INTERVAL_MILLIS: u64 = 250;

/// Batches smaller than this are always notified.
pub const SMALL_BATCH: usize = 50;

/// When the last progress notice went out, in milliseconds of a monotonic clock.
#[derive(Debug, Clone, Copy)]
pub struct ProgressThrottle {
    last: Option<u64>,
}

impl View for ProgressThrottle {
    type V = Option<u64>;

    closed spec fn view(&self) -> Option<u64> {
        self.last
    }
}

/// A notice at `now` goes out unless one went out less than
/// [`NOTICE_INTERVAL_MILLIS`] before (a clock that went back counts as no time).
pub open spec fn throttle_passes(last: Option<u64>, now: u64) -> bool {
    match last {
        Some(t) => (if now >= t { now - t } else { 0 }) >= NOTICE_INTERVAL_MILLIS,
        None => true,
    }
}

impl ProgressThrottle {
    pub fn new() -> (r: Self)
        ensures
            r@ is None,
    {
        ProgressThrottle { last: None }
    }

    /// Decides whether a batch counted at `now` is notified: when the
    /// interval has passed (which restarts it) or when the batch is small.
    pub fn notify_batch(&mut self, now: u64, batch_len: usize) -> (r: bool)
        ensures
            r == (throttle_passes(old(self)@, now) || batch_len < SMALL_BATCH),
            final(self)@ == if throttle_passes(old(self)@, now) { Some(now) } else { old(self)@ },
    {
        let passed = match self.last {
            Some(t) => now.saturating_sub(t) >= NOTICE_INTERVAL_MILLIS,
            None => true,
        };
        if passed {
            self.last = Some(now);
        }
        passed || batch_len < SMALL_BATCH
    }
}

/// The contents of a list of key-value pairs.
pub open spec fn pairs_view(v: Seq<(String, String)>) -> Seq<(Seq<char>, Seq<char>)> {
    v.map_values(|e: (String, String)| (e.0@, e.1@))
}

fn pair(key: &str, value: String) -> (r: (String, String))
    ensures
        r.0@ == key@,
        r.1@ == value@,
{
    (owned(key), value)
}

/// The notice that the analysis entered a state.
pub fn state_change_update(state: AnalysisState) -> (r: Vec<(String, String)>)
    ensures
        pairs_view(r@) == seq![("state"@, state_name(state))],
{
    let r = vec![pair("state", state.name())];
    assert(pairs_view(r@) =~= seq![("state"@, state_name(state))]);
    r
}

/// The notice sent after a batch: the counters, and the path of the batch's
/// last entry (empty for an empty batch).
pub fn file_scanned_update(counters: &ScanCounters, batch: &WalkBatch) -> (r: Vec<(String, String)>)
    ensures
        pairs_view(r@) == seq![
            ("scanned_files"@, decimal(counters.scanned as nat)),
            ("analyzed_files"@, decimal(counters.files as nat)),
            ("matched_files"@, decimal(counters.matched as nat)),
            ("total_estimated"@, decimal(counters.total_estimated as nat)),
            ("current_path"@, if batch.entries@.len() > 0 { batch.entries@.last().path@ } else { Seq::empty() }),
        ],
{
    let current = if batch.entries.len() > 0 {
        batch.entries[batch.entries.len() - 1].path.clone()
    } else {
        String::new()
    };
    let r = vec![
        pair("scanned_files", u64_to_string(counters.scanned as u64)),
        pair("analyzed_files", u64_to_string(counters.files as u64)),
        pair("matched_files", u64_to_string(counters.matched as u64)),
        pair("total_estimated", u64_to_string(counters.total_estimated as u64)),
        pair("current_path", current),
    ];
    assert(pairs_view(r@) =~= seq![
        ("scanned_files"@, decimal(counters.scanned as nat)),
        ("analyzed_files"@, decimal(counters.files as nat)),
        ("matched_files"@, decimal(counters.matched as nat)),
        ("total_estimated"@, decimal(counters.total_estimated as nat)),
        ("current_path"@, if batch.entries@.len() > 0 { batch.entries@.last().path@ } else { Seq::empty() }),
    ]);
    r
}

/// The notice that the analysis is complete.
pub fn completed_update(total_files: usize, analyzed_files: usize, matched_files: usize) -> (r: Vec<(String, String)>)
    ensures
        pairs_view(r@) == seq![
            ("total_files"@, decimal(total_files as nat)),
            ("analyzed_files"@, decimal(analyzed_files as nat)),
            ("matched_files"@, decimal(matched_files as nat)),
            ("state"@, "Done"@),
        ],
{
    let r = vec![
        pair("total_files", u64_to_string(total_files as u64)),
        pair("analyzed_files", u64_to_string(analyzed_files as u64)),
        pair("matched_files", u64_to_string(matched_files as u64)),
        pair("state", owned("Done")),
    ];
    assert(pairs_view(r@) =~= seq![
        ("total_files"@, decimal(total_files as nat)),
        ("analyzed_files"@, decimal(analyzed_files as nat)),
        ("matched_files"@, decimal(matched_files as nat)),
        ("state"@, "Done"@),
    ]);
    r
}

/// The first profile, in the analysis's order, among those an entry matched.
pub open spec fn first_matching_profile(profiles: Seq<ProfileView>, matched: Seq<Seq<char>>) -> Option<Seq<char>>
    decreases profiles.len(),
{
    if profiles.len() == 0 {
        None
    } else if matched.contains(profiles[0].name) {
        Some(profiles[0].name)
    } else {
        first_matching_profile(profiles.drop_first(), matched)
    }
}

/// The index after a batch: every file entry matched by some profile is
/// recorded under the first of the analysis's profiles that it matched.
pub open spec fn index_after(t: Seq<(Seq<char>, Seq<Seq<char>>)>, entries: Seq<WalkEntryView>, profiles: Seq<ProfileView>) -> Seq<(Seq<char>, Seq<Seq<char>>)>
    decreases entries.len(),
{
    if entries.len() == 0 {
        t
    } else {
        let before = index_after(t, entries.drop_last(), profiles);
        let e = entries.last();
        if e.is_file && e.matched_profiles.len() > 0 {
            match first_matching_profile(profiles, e.matched_profiles) {
                Some(name) => index_add(before, name, e.path),
                None => before,
            }
        } else {
            before
        }
    }
}

fn first_profile_among(profiles: &[Profile], matched: &Vec<String>) -> (r: Option<usize>)
    ensures
        match r {
            Some(i) => i < profiles.len() && first_matching_profile(profile_views(profiles@), strings_view(matched@))
                == Some(profiles@[i as int]@.name),
            None => first_matching_profile(profile_views(profiles@), strings_view(matched@)) is None,
        },
{
    let ghost ps = profile_views(profiles@);
    let ghost ms = strings_view(matched@);
    let mut i: usize = 0;
    assert(ps.skip(0) == ps);
    while i < profiles.len()
        invariant
            0 <= i <= profiles.len(),
            ps == profile_views(profiles@),
            ms == strings_view(matched@),
            first_matching_profile(ps, ms) == first_matching_profile(ps.skip(i as int), ms),
        decreases profiles.len() - i,
    {
        let ghost rest = ps.skip(i as int);
        assert(rest[0] == profiles@[i as int]@);
        assert(rest.drop_first() == ps.skip(i + 1));
        if contains_string(matched.as_slice(), profiles[i].name().as_str()) {
            assert(matched.deep_view() == ms);
            return Some(i);
        }
        assert(matched.deep_view() == ms);
        i += 1;
    }
    None
}

/// Records the files of a batch in the index of files by profile.
pub fn index_batch(index: &mut ProfileIndex, batch: &WalkBatch, profiles: &[Profile])
    ensures
        final(index)@ == index_after(old(index)@, entry_views(batch.entries@), profile_views(profiles@)),
{
    let ghost t0 = index@;
    let ghost es = entry_views(batch.entries@);
    let mut i: usize = 0;
    while i < batch.entries.len()
        invariant
            0 <= i <= batch.entries.len(),
            es == entry_views(batch.entries@),
            index@ == index_after(t0, es.take(i as int), profile_views(profiles@)),
        decreases batch.entries.len() - i,
    {
        assert(es.take(i + 1).drop_last() == es.take(i as int));
        assert(es.take(i + 1).last() == batch.entries@[i as int]@);
        let e = &batch.entries[i];
        if e.is_file && !e.matched_profiles.is_empty() {
            match first_profile_among(profiles, &e.matched_profiles) {
                Some(k) => {
                    index.add_file_to_profile(profiles[k].name().clone(), e.path.clone());
                },
                None => {},
            }
        }
        i += 1;
    }
    assert(es.take(batch.entries.len() as int) == es);
}

/// The paths of all walkers' files, walker after walker.
pub open spec fn walked_files(ws: Seq<WalkerView>) -> Seq<Seq<char>>
    decreases ws.len(),
{
    if ws.len() == 0 {
        Seq::empty()
    } else {
        walked_files(ws.drop_last()) + ws.last().files
    }
}

/// The files met by all walkers.
pub open spec fn walked_total(ws: Seq<WalkerView>) -> nat
    decreases ws.len(),
{
    if ws.len() == 0 {
        0
    } else {
        walked_total(ws.drop_last()) + ws.last().total_files as nat
    }
}

/// The files whose type was read, over all walkers.
pub open spec fn walked_analyzed(ws: Seq<WalkerView>) -> nat
    decreases ws.len(),
{
    if ws.len() == 0 {
        0
    } else {
        walked_analyzed(ws.drop_last()) + ws.last().analyzed_files as nat
    }
}

/// The contents of a sequence of walkers.
pub open spec fn walker_views(ws: Seq<Walker>) -> Seq<WalkerView> {
    ws.map_values(|w: Walker| w@)
}

proof fn lemma_walked_monotone(ws: Seq<WalkerView>, k: int)
    requires
        0 <= k <= ws.len(),
    ensures
        walked_total(ws.take(k)) <= walked_total(ws),
        walked_analyzed(ws.take(k)) <= walked_analyzed(ws),
    decreases ws.len() - k,
{
    if k < ws.len() {
        lemma_walked_monotone(ws, k + 1);
        assert(ws.take(k + 1).drop_last() == ws.take(k));
    } else {
        assert(ws.take(k) == ws);
    }
}

/// An analysis: its state, what it is configured with and what it found.
pub struct Engine {
    state: AnalysisState,
    config: Config,
    finding: FindingContainer,
}

/// The contents of an [`Engine`].
pub ghost struct EngineView {
    pub state: AnalysisState,
    pub config: ConfigView,
    pub finding: FindingView,
}

impl View for Engine {
    type V = EngineView;

    closed spec fn view(&self) -> EngineView {
        EngineView { state: self.state, config: self.config@, finding: self.finding@ }
    }
}

/// Whether a path contains a search term, ignoring letter case.
pub open spec fn path_matches_term(path: Seq<char>, term: Seq<char>) -> bool {
    has_infix(unicode_lowercase(path), unicode_lowercase(term))
}

/// A path is found by a term exactly when the path, lower-cased, contains
/// the term, lower-cased.
pub proof fn search_compares_lower_cased(path: Seq<char>, term: Seq<char>)
    ensures
        path_matches_term(path, term) == has_infix(unicode_lowercase(path), unicode_lowercase(term)),
{
}

/// Search ignores letter case: two terms with the same lower-case form find
/// the same files of any list, in the same order, and two paths with the
/// same lower-case form are found by the same terms.
pub proof fn search_ignores_case(files: Seq<Seq<char>>, t1: Seq<char>, t2: Seq<char>, p1: Seq<char>, p2: Seq<char>)
    requires
        unicode_lowercase(t1) == unicode_lowercase(t2),
    ensures
        files.filter(|p: Seq<char>| path_matches_term(p, t1)) == files.filter(|p: Seq<char>| path_matches_term(p, t2)),
        unicode_lowercase(p1) == unicode_lowercase(p2) ==> path_matches_term(p1, t1) == path_matches_term(p2, t2),
{
    let f1 = |p: Seq<char>| path_matches_term(p, t1);
    let f2 = |p: Seq<char>| path_matches_term(p, t2);
    assert(f1 =~= f2);
}


/// The files a query on `profile_name` covers: all files met for `Todos`,
/// else the files recorded under that profile.
pub open spec fn files_in_scope(f: FindingView, profile_name: Seq<char>) -> Seq<Seq<char>> {
    if profile_name == "Todos"@ {
        f.files
    } else {
        files_of_profile(f.files_by_profile, profile_name)
    }
}

impl Default for Engine {
    fn default() -> (r: Self)
        ensures
            r@.state == AnalysisState::Idle,
            r@.config == (ConfigView { profiles: Seq::empty(), paths: Seq::empty() }),
            r@.finding == empty_findings(),
    {
        Engine { state: AnalysisState::Idle, config: Config::default(), finding: FindingContainer::new() }
    }
}

impl Engine {
    /// Sets what the next analysis looks for and where; everything else stays.
    pub fn initialize(&mut self, profiles: Vec<Profile>, paths: Vec<String>)
        ensures
            final(self)@ == (EngineView {
                config: ConfigView { profiles: profile_views(profiles@), paths: strings_view(paths@) },
                ..old(self)@
            }),
    {
        self.config = Config::new(profiles, paths);
    }

    pub fn state(&self) -> (r: AnalysisState)
        ensures
            r == self@.state,
    {
        self.state
    }

    pub fn config(&self) -> (r: &Config)
        ensures
            r@ == self@.config,
    {
        &self.config
    }

    pub fn finding(&self) -> (r: &FindingContainer)
        ensures
            r@ == self@.finding,
    {
        &self.finding
    }

    /// Moves the analysis to a state; everything else stays.
    pub fn update_state(&mut self, state: AnalysisState)
        ensures
            final(self)@ == (EngineView { state, ..old(self)@ }),
    {
        self.state = state;
    }

    /// Takes in the outcome of the walkers of a full analysis: their files in
    /// walker order, their counters summed, the index of files by profile;
    /// the analysis is then done.
    pub fn finish_analysis(&mut self, walkers: &[Walker], index: ProfileIndex)
        requires
            walked_total(walker_views(walkers@)) <= usize::MAX,
            walked_analyzed(walker_views(walkers@)) <= usize::MAX,
        ensures
            final(self)@ == (EngineView {
                state: AnalysisState::Done,
                finding: FindingView {
                    files: walked_files(walker_views(walkers@)),
                    total_files: walked_total(walker_views(walkers@)) as usize,
                    analyzed_files_num: walked_analyzed(walker_views(walkers@)) as usize,
                    files_by_profile: index@,
                    ..old(self)@.finding
                },
                ..old(self)@
            }),
    {
        let (files, total, analyzed) = gather(walkers);
        self.finding.set_files(files);
        self.finding.set_total_files(total);
        self.finding.set_analyzed_files_num(analyzed);
        self.finding.set_files_by_profile(index);
        self.state = AnalysisState::Done;
    }

    /// Takes in the outcome of a plain walk: the walkers' files and the
    /// number of files met; the files are then to be analyzed.
    pub fn finish_walk(&mut self, walkers: &[Walker])
        requires
            walked_total(walker_views(walkers@)) <= usize::MAX,
            walked_analyzed(walker_views(walkers@)) <= usize::MAX,
        ensures
            final(self)@ == (EngineView {
                state: AnalysisState::Analyzing,
                finding: FindingView {
                    files: walked_files(walker_views(walkers@)),
                    total_files: walked_total(walker_views(walkers@)) as usize,
                    ..old(self)@.finding
                },
                ..old(self)@
            }),
    {
        let (files, total, _analyzed) = gather(walkers);
        self.finding.set_files(files);
        self.finding.set_total_files(total);
        self.state = AnalysisState::Analyzing;
    }

    /// Every file met, each under the profile name `General`.
    pub fn get_findings(&self) -> (r: Result<Vec<Finding>, String>)
        ensures
            r matches Ok(fs) && fs@.len() == self@.finding.files.len() && forall|i: int| 0 <= i < fs@.len() ==> (
                #[trigger] fs@[i]).file_path@ == self@.finding.files[i] && fs@[i].profile_name@ == "General"@,
    {
        let files = self.finding.files();
        let mut r: Vec<Finding> = Vec::new();
        let mut i: usize = 0;
        while i < files.len()
            invariant
                0 <= i <= files.len(),
                strings_view(files@) == self@.finding.files,
                r@.len() == i,
                forall|j: int| 0 <= j < i ==> (#[trigger] r@[j]).file_path@ == self@.finding.files[j] && r@[j].profile_name@
                    == "General"@,
            decreases files.len() - i,
        {
            assert(self@.finding.files[i as int] == files@[i as int]@);
            r.push(Finding { file_path: files[i].clone(), profile_name: owned("General") });
            i += 1;
        }
        Ok(r)
    }

    /// Forgets what was found; the analysis is idle again.
    pub fn reset(&mut self)
        ensures
            final(self)@ == (EngineView { state: AnalysisState::Idle, finding: empty_findings(), ..old(self)@ }),
    {
        self.finding = FindingContainer::new();
        self.state = AnalysisState::Idle;
    }

    /// Copies of the paths of every file met.
    pub fn get_analyzed_files(&self) -> (r: Vec<String>)
        ensures
            strings_view(r@) == self@.finding.files,
    {
        clone_strings(self.finding.files())
    }

    /// The files recorded under a profile; `Todos` gives every file met.
    pub fn get_files_by_profile(&self, profile_name: &str) -> (r: Vec<String>)
        ensures
            strings_view(r@) == files_in_scope(self@.finding, profile_name@),
    {
        if str_equal(profile_name, "Todos") {
            return self.get_analyzed_files();
        }
        self.finding.get_files_for_profile(profile_name)
    }

    /// The files of a profile (`Todos`: every file met) whose path contains
    /// `search_term`, ignoring letter case, in order.
    pub fn search_files_in_profile(&self, profile_name: &str, search_term: &str) -> (r: Vec<String>)
        ensures
            strings_view(r@) == files_in_scope(self@.finding, profile_name@).filter(
                |p: Seq<char>| path_matches_term(p, search_term@),
            ),
            forall|p: Seq<char>| #[trigger] strings_view(r@).contains(p) <==> (files_in_scope(
                self@.finding,
                profile_name@,
            ).contains(p) && has_infix(unicode_lowercase(p), unicode_lowercase(search_term@))),
    {
        let files = self.get_files_by_profile(profile_name);
        let term = str_to_lowercase(search_term);
        let ghost fs = strings_view(files@);
        let ghost pred = |p: Seq<char>| path_matches_term(p, search_term@);
        let mut r: Vec<String> = Vec::new();
        let mut i: usize = 0;
        while i < files.len()
            invariant
                0 <= i <= files.len(),
                fs == strings_view(files@),
                term@ == unicode_lowercase(search_term@),
                pred == (|p: Seq<char>| path_matches_term(p, search_term@)),
                strings_view(r@) == fs.take(i as int).filter(pred),
            decreases files.len() - i,
        {
            let lower = str_to_lowercase(files[i].as_str());
            let ghost before = r@;
            reveal(Seq::filter);
            assert(fs.take(i + 1).drop_last() == fs.take(i as int));
            assert(fs.take(i + 1).last() == files@[i as int]@);
            if contains(lower.as_str(), term.as_str()) {
                r.push(files[i].clone());
                assert(strings_view(r@) =~= strings_view(before).push(files@[i as int]@));
            }
            i += 1;
        }
        assert(fs.take(files.len() as int) == fs);
        assert forall|p: Seq<char>| #[trigger] strings_view(r@).contains(p) <==> (fs.contains(p) && has_infix(
            unicode_lowercase(p),
            unicode_lowercase(search_term@),
        )) by {
            crate::text::lemma_filter_contains_iff(fs, pred, p);
        }
        r
    }

    /// How many files each profile has, in the order of the index.
    pub fn get_profile_statistics(&self) -> (r: Vec<(String, usize)>)
        ensures
            r@.map_values(|e: (String, usize)| (e.0@, e.1 as nat)) == self@.finding.files_by_profile.map_values(
                |e: (Seq<char>, Seq<Seq<char>>)| (e.0, e.1.len()),
            ),
    {
        self.finding.files_by_profile().statistics()
    }
}

/// The walkers' files in walker order, and their counters summed.
fn gather(walkers: &[Walker]) -> (r: (Vec<String>, usize, usize))
    requires
        walked_total(walker_views(walkers@)) <= usize::MAX,
        walked_analyzed(walker_views(walkers@)) <= usize::MAX,
    ensures
        strings_view(r.0@) == walked_files(walker_views(walkers@)),
        r.1 == walked_total(walker_views(walkers@)),
        r.2 == walked_analyzed(walker_views(walkers@)),
{
    let ghost ws = walker_views(walkers@);
    let mut files: Vec<String> = Vec::new();
    let mut total: usize = 0;
    let mut analyzed: usize = 0;
    let mut i: usize = 0;
    while i < walkers.len()
        invariant
            0 <= i <= walkers.len(),
            ws == walker_views(walkers@),
            walked_total(ws) <= usize::MAX,
            walked_analyzed(ws) <= usize::MAX,
            strings_view(files@) == walked_files(ws.take(i as int)),
            total == walked_total(ws.take(i as int)),
            analyzed == walked_analyzed(ws.take(i as int)),
        decreases walkers.len() - i,
    {
        assert(ws.take(i + 1).drop_last() == ws.take(i as int));
        assert(ws.take(i + 1).last() == walkers@[i as int]@);
        proof {
            lemma_walked_monotone(ws, i + 1);
        }
        let w = &walkers[i];
        let wf = w.files();
        let mut j: usize = 0;
        let ghost start = strings_view(files@);
        while j < wf.len()
            invariant
                0 <= j <= wf.len(),
                strings_view(files@) == start + strings_view(wf@).take(j as int),
            decreases wf.len() - j,
        {
            let ghost before = files@;
            files.push(wf[j].clone());
            assert(strings_view(files@) =~= strings_view(before).push(wf@[j as int]@));
            assert(strings_view(wf@).take(j + 1) =~= strings_view(wf@).take(j as int).push(wf@[j as int]@));
            j += 1;
        }
        assert(strings_view(wf@).take(wf.len() as int) == strings_view(wf@));
        total = total + w.total_files();
        analyzed = analyzed + w.analyzed_files();
        i += 1;
    }
    assert(ws.take(walkers.len() as int) == ws);
    (files, total, analyzed)
}

} // verus!
