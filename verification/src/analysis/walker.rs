//! Walking a folder: counting the files met, and handing them on in batches
//! with the profiles they match and the reason they are suspicious.
use super::suspicion::{is_file_suspicious, suspicion_of, suspicion_view, Kind, Suspicion, SuspicionReason};
use crate::profiling::profile::{profile_matches, profile_views, Profile, ProfileView};
use crate::text::{clone_strings, strings_view};
use vstd::prelude::*;

verus! {

/// One entry met while walking: its path, whether it is a file, the names of
/// the profiles it matches and why it is suspicious, if it is.
#[derive(Debug)]
pub struct WalkEntry {
    pub path: String,
    pub is_file: bool,
    pub matched_profiles: Vec<String>,
    pub suspicion_reason: Option<SuspicionReason>,
}

/// The contents of a [`WalkEntry`].
pub ghost struct WalkEntryView {
    pub path: Seq<char>,
    pub is_file: bool,
    pub matched_profiles: Seq<Seq<char>>,
    pub suspicion: Option<Suspicion>,
}

impl View for WalkEntry {
    type V = WalkEntryView;

    open spec fn view(&self) -> WalkEntryView {
        WalkEntryView {
            path: self.path@,
            is_file: self.is_file,
            matched_profiles: strings_view(self.matched_profiles@),
            suspicion: suspicion_view(self.suspicion_reason),
        }
    }
}

/// The contents of a sequence of entries.
pub open spec fn entry_views(es: Seq<WalkEntry>) -> Seq<WalkEntryView> {
    es.map_values(|e: WalkEntry| e@)
}

impl Clone for WalkEntry {
    fn clone(&self) -> (r: Self)
        ensures
            r@ == self@,
    {
        WalkEntry {
            path: self.path.clone(),
            is_file: self.is_file,
            matched_profiles: clone_strings(&self.matched_profiles),
            suspicion_reason: match &self.suspicion_reason {
                Some(s) => Some(s.clone()),
                None => None,
            },
        }
    }
}

/// The names of the profiles among `profiles` that select the file, in order.
pub open spec fn matching_profile_names(profiles: Seq<ProfileView>, path: Seq<char>, media_type: Option<Seq<char>>) -> Seq<Seq<char>>
    decreases profiles.len(),
{
    if profiles.len() == 0 {
        Seq::empty()
    } else {
        let before = matching_profile_names(profiles.drop_last(), path, media_type);
        if profile_matches(profiles.last(), path, media_type) {
            before.push(profiles.last().name)
        } else {
            before
        }
    }
}

/// `n` is the name of one of the profiles that select the file.
pub open spec fn name_of_selecting_profile(ps: Seq<ProfileView>, path: Seq<char>, mt: Option<Seq<char>>, n: Seq<char>) -> bool {
    exists|i: int| 0 <= i < ps.len() && profile_matches(ps[i], path, mt) && #[trigger] ps[i].name == n
}

proof fn lemma_selecting_named(ps: Seq<ProfileView>, path: Seq<char>, mt: Option<Seq<char>>, i: int)
    requires
        0 <= i < ps.len(),
        profile_matches(ps[i], path, mt),
    ensures
        matching_profile_names(ps, path, mt).contains(ps[i].name),
    decreases ps.len(),
{
    let before = ps.drop_last();
    let r = matching_profile_names(ps, path, mt);
    let rb = matching_profile_names(before, path, mt);
    if i < ps.len() - 1 {
        assert(before[i] == ps[i]);
        lemma_selecting_named(before, path, mt, i);
        let k = choose|k: int| 0 <= k < rb.len() && rb[k] == ps[i].name;
        if profile_matches(ps.last(), path, mt) {
            assert(r == rb.push(ps.last().name));
            assert(r[k] == rb[k]);
        } else {
            assert(r == rb);
        }
    } else {
        assert(ps[i] == ps.last());
        assert(r == rb.push(ps.last().name));
        assert(r[rb.len() as int] == ps.last().name);
    }
}

proof fn lemma_named_selecting(ps: Seq<ProfileView>, path: Seq<char>, mt: Option<Seq<char>>, k: int) -> (i: int)
    requires
        0 <= k < matching_profile_names(ps, path, mt).len(),
    ensures
        0 <= i < ps.len(),
        profile_matches(ps[i], path, mt),
        ps[i].name == matching_profile_names(ps, path, mt)[k],
    decreases ps.len(),
{
    let before = ps.drop_last();
    let r = matching_profile_names(ps, path, mt);
    let rb = matching_profile_names(before, path, mt);
    if profile_matches(ps.last(), path, mt) {
        assert(r == rb.push(ps.last().name));
        if k < rb.len() {
            let i = lemma_named_selecting(before, path, mt, k);
            assert(ps[i] == before[i]);
            i
        } else {
            ps.len() - 1
        }
    } else {
        assert(r == rb);
        let i = lemma_named_selecting(before, path, mt, k);
        assert(ps[i] == before[i]);
        i
    }
}

/// Every profile that selects the file has its name among the matching
/// names, and every name there is that of a profile that selects it.
pub proof fn matching_names_are_the_selecting_profiles(ps: Seq<ProfileView>, path: Seq<char>, mt: Option<Seq<char>>)
    ensures
        forall|i: int| 0 <= i < ps.len() && profile_matches(ps[i], path, mt)
            ==> #[trigger] matching_profile_names(ps, path, mt).contains(ps[i].name),
        forall|k: int| 0 <= k < matching_profile_names(ps, path, mt).len()
            ==> name_of_selecting_profile(ps, path, mt, #[trigger] matching_profile_names(ps, path, mt)[k]),
{
    assert forall|i: int| 0 <= i < ps.len() && profile_matches(ps[i], path, mt)
        implies #[trigger] matching_profile_names(ps, path, mt).contains(ps[i].name) by {
        lemma_selecting_named(ps, path, mt, i);
    }
    assert forall|k: int| 0 <= k < matching_profile_names(ps, path, mt).len()
        implies name_of_selecting_profile(ps, path, mt, #[trigger] matching_profile_names(ps, path, mt)[k]) by {
        let i = lemma_named_selecting(ps, path, mt, k);
        assert(0 <= i < ps.len() && profile_matches(ps[i], path, mt) && ps[i].name
            == matching_profile_names(ps, path, mt)[k]);
    }
}

/// The entry a walked path becomes: a file carries the names of the
/// profiles that select it (none when no profiles are given) and its
/// suspicion; anything else carries neither.
pub open spec fn walk_entry_of(
    path: Seq<char>,
    is_file: bool,
    detected: Option<Kind>,
    media_type: Option<Seq<char>>,
    profiles: Option<Seq<ProfileView>>,
) -> WalkEntryView {
    if is_file {
        WalkEntryView {
            path,
            is_file: true,
            matched_profiles: match profiles {
                Some(ps) => matching_profile_names(ps, path, media_type),
                None => Seq::empty(),
            },
            suspicion: suspicion_of(path, detected),
        }
    } else {
        WalkEntryView { path, is_file: false, matched_profiles: Seq::empty(), suspicion: None }
    }
}

/// The names of the profiles that select the file.
pub fn matching_profiles(profiles: &[Profile], path: &str, media_type: Option<&str>) -> (r: Vec<String>)
    ensures
        strings_view(r@) == matching_profile_names(profile_views(profiles@), path@, match media_type {
            Some(m) => Some(m@),
            None => None,
        }),
{
    let ghost ps = profile_views(profiles@);
    let ghost mt = match media_type {
        Some(m) => Some(m@),
        None => None,
    };
    let mut r: Vec<String> = Vec::new();
    let mut i: usize = 0;
    while i < profiles.len()
        invariant
            0 <= i <= profiles.len(),
            ps == profile_views(profiles@),
            mt == (match media_type {
                Some(m) => Some(m@),
                None => None,
            }),
            strings_view(r@) == matching_profile_names(ps.take(i as int), path@, mt),
        decreases profiles.len() - i,
    {
        assert(ps.take(i + 1).drop_last() == ps.take(i as int));
        assert(ps.take(i + 1).last() == profiles@[i as int]@);
        if profiles[i].matches(path, media_type) {
            let ghost before = r@;
            r.push(profiles[i].name().clone());
            assert(strings_view(r@) =~= strings_view(before).push(profiles@[i as int]@.name));
        }
        i += 1;
    }
    assert(ps.take(profiles.len() as int) == ps);
    r
}

/// The entry a walked path becomes; `detected` and `media_type` are the kind
/// and media type sniffed from a file's content, `None` when it could not
/// be read.
pub fn walk_entry(
    path: String,
    is_file: bool,
    detected: Option<Kind>,
    media_type: Option<&str>,
    profiles: Option<&[Profile]>,
) -> (r: WalkEntry)
    ensures
        r@ == walk_entry_of(path@, is_file, detected, match media_type {
            Some(m) => Some(m@),
            None => None,
        }, match profiles {
            Some(ps) => Some(profile_views(ps@)),
            None => None,
        }),
{
    if is_file {
        let suspicion_reason = is_file_suspicious(path.as_str(), detected);
        let matched_profiles = match profiles {
            Some(ps) => matching_profiles(ps, path.as_str(), media_type),
            None => Vec::new(),
        };
        proof {
            if profiles is None {
                assert(strings_view(matched_profiles@) =~= Seq::<Seq<char>>::empty());
            }
        }
        WalkEntry { path, is_file: true, matched_profiles, suspicion_reason }
    } else {
        let r = WalkEntry { path, is_file: false, matched_profiles: Vec::new(), suspicion_reason: None };
        assert(strings_view(r.matched_profiles@) =~= Seq::<Seq<char>>::empty());
        r
    }
}

/// How many of `es` satisfy `p`.
pub open spec fn count_where(es: Seq<WalkEntryView>, p: spec_fn(WalkEntryView) -> bool) -> nat
    decreases es.len(),
{
    if es.len() == 0 {
        0
    } else {
        count_where(es.drop_last(), p) + if p(es.last()) { 1nat } else { 0nat }
    }
}

/// Entries that are files.
pub open spec fn is_file_entry() -> spec_fn(WalkEntryView) -> bool {
    |e: WalkEntryView| e.is_file
}

/// Entries that are files matched by some profile.
pub open spec fn is_matched_entry() -> spec_fn(WalkEntryView) -> bool {
    |e: WalkEntryView| e.is_file && e.matched_profiles.len() > 0
}

/// Entries that are suspicious.
pub open spec fn is_suspicious_entry() -> spec_fn(WalkEntryView) -> bool {
    |e: WalkEntryView| e.suspicion is Some
}

proof fn lemma_count_bound(es: Seq<WalkEntryView>, p: spec_fn(WalkEntryView) -> bool)
    ensures
        count_where(es, p) <= es.len(),
    decreases es.len(),
{
    if es.len() > 0 {
        lemma_count_bound(es.drop_last(), p);
    }
}

/// Entries met while walking, handed on together once there are
/// `batch_size` of them; `total_processed` counts every entry ever added.
#[derive(Debug)]
pub struct WalkBatch {
    pub entries: Vec<WalkEntry>,
    pub batch_size: usize,
    pub total_processed: usize,
}

impl WalkBatch {
    pub fn new(batch_size: usize) -> (r: Self)
        ensures
            r.entries@.len() == 0,
            r.batch_size == batch_size,
            r.total_processed == 0,
    {
        WalkBatch { entries: Vec::new(), batch_size, total_processed: 0 }
    }

    /// Appends an entry and counts it.
    pub fn add_entry(&mut self, path: String, is_file: bool, matched_profiles: Vec<String>, suspicion_reason: Option<SuspicionReason>)
        requires
            old(self).total_processed < usize::MAX,
        ensures
            entry_views(final(self).entries@) == entry_views(old(self).entries@).push(WalkEntryView {
                path: path@,
                is_file,
                matched_profiles: strings_view(matched_profiles@),
                suspicion: suspicion_view(suspicion_reason),
            }),
            final(self).batch_size == old(self).batch_size,
            final(self).total_processed == old(self).total_processed + 1,
    {
        let ghost before = entry_views(self.entries@);
        self.entries.push(WalkEntry { path, is_file, matched_profiles, suspicion_reason });
        assert(entry_views(self.entries@) =~= before.push(self.entries@.last()@));
        self.total_processed += 1;
    }

    /// The batch holds `batch_size` entries or more.
    pub fn is_full(&self) -> (r: bool)
        ensures
            r == (self.entries@.len() >= self.batch_size),
    {
        self.entries.len() >= self.batch_size
    }

    pub fn is_empty(&self) -> (r: bool)
        ensures
            r == (self.entries@.len() == 0),
    {
        self.entries.is_empty()
    }

    /// Drops the entries; the count of entries processed stays.
    pub fn clear(&mut self)
        ensures
            final(self).entries@.len() == 0,
            final(self).batch_size == old(self).batch_size,
            final(self).total_processed == old(self).total_processed,
    {
        self.entries.clear();
    }

    /// How many entries are files.
    pub fn files_count(&self) -> (r: usize)
        ensures
            r == count_where(entry_views(self.entries@), is_file_entry()),
    {
        self.count(0)
    }

    /// How many entries are files matched by some profile.
    pub fn matched_files_count(&self) -> (r: usize)
        ensures
            r == count_where(entry_views(self.entries@), is_matched_entry()),
    {
        self.count(1)
    }

    /// How many entries are suspicious.
    pub fn suspicious_files_count(&self) -> (r: usize)
        ensures
            r == count_where(entry_views(self.entries@), is_suspicious_entry()),
    {
        self.count(2)
    }

    fn count(&self, which: u8) -> (r: usize)
        requires
            which <= 2,
        ensures
            r == count_where(entry_views(self.entries@), if which == 0 {
                is_file_entry()
            } else if which == 1 {
                is_matched_entry()
            } else {
                is_suspicious_entry()
            }),
    {
        let ghost p = if which == 0 {
            is_file_entry()
        } else if which == 1 {
            is_matched_entry()
        } else {
            is_suspicious_entry()
        };
        let ghost es = entry_views(self.entries@);
        let mut n: usize = 0;
        let mut i: usize = 0;
        while i < self.entries.len()
            invariant
                0 <= i <= self.entries.len(),
                es == entry_views(self.entries@),
                which <= 2,
                p == (if which == 0 {
                    is_file_entry()
                } else if which == 1 {
                    is_matched_entry()
                } else {
                    is_suspicious_entry()
                }),
                n == count_where(es.take(i as int), p),
            decreases self.entries.len() - i,
        {
            assert(es.take(i + 1).drop_last() == es.take(i as int));
            assert(es.take(i + 1).last() == self.entries@[i as int]@);
            proof {
                lemma_count_bound(es.take(i as int), p);
            }
            let e = &self.entries[i];
            let hit = if which == 0 {
                e.is_file
            } else if which == 1 {
                e.is_file && !e.matched_profiles.is_empty()
            } else {
                e.suspicion_reason.is_some()
            };
            assert(hit == p(es[i as int]));
            if hit {
                n += 1;
            }
            i += 1;
        }
        assert(es.take(self.entries.len() as int) == es);
        n
    }

    /// A copy of the batch.
    pub fn clone_optimized(&self) -> (r: Self)
        ensures
            entry_views(r.entries@) == entry_views(self.entries@),
            r.batch_size == self.batch_size,
            r.total_processed == self.total_processed,
    {
        let mut entries: Vec<WalkEntry> = Vec::new();
        let mut i: usize = 0;
        while i < self.entries.len()
            invariant
                0 <= i <= self.entries.len(),
                entry_views(entries@) == entry_views(self.entries@.take(i as int)),
            decreases self.entries.len() - i,
        {
            let ghost before = entries@;
            entries.push(self.entries[i].clone());
            assert(entry_views(entries@) =~= entry_views(before).push(self.entries@[i as int]@));
            assert(entry_views(self.entries@.take(i + 1)) =~= entry_views(self.entries@.take(i as int)).push(
                self.entries@[i as int]@,
            ));
            i += 1;
        }
        assert(self.entries@.take(self.entries.len() as int) == self.entries@);
        WalkBatch { entries, batch_size: self.batch_size, total_processed: self.total_processed }
    }
}

/// A folder being walked: the files found in it and two counters, of the
/// files met and of the files whose type could be read.
#[derive(Debug)]
pub struct Walker {
    path: String,
    files: Vec<String>,
    total_files: usize,
    analyzed_files: usize,
}

/// The contents of a [`Walker`].
pub ghost struct WalkerView {
    pub path: Seq<char>,
    pub files: Seq<Seq<char>>,
    pub total_files: usize,
    pub analyzed_files: usize,
}

impl View for Walker {
    type V = WalkerView;

    closed spec fn view(&self) -> WalkerView {
        WalkerView {
            path: self.path@,
            files: strings_view(self.files@),
            total_files: self.total_files,
            analyzed_files: self.analyzed_files,
        }
    }
}

impl Walker {
    /// A walker of `path` that has found nothing yet.
    pub fn new(path: String) -> (r: Walker)
        ensures
            r@ == (WalkerView { path: path@, files: Seq::empty(), total_files: 0, analyzed_files: 0 }),
    {
        let r = Walker { path, files: Vec::new(), total_files: 0, analyzed_files: 0 };
        assert(r@.files =~= Seq::<Seq<char>>::empty());
        r
    }

    /// The folder walked.
    pub fn path(&self) -> (r: &str)
        ensures
            r@ == self@.path,
    {
        self.path.as_str()
    }

    pub fn files(&self) -> (r: &[String])
        ensures
            strings_view(r@) == self@.files,
    {
        self.files.as_slice()
    }

    pub fn total_files(&self) -> (r: usize)
        ensures
            r == self@.total_files,
    {
        self.total_files
    }

    pub fn analyzed_files(&self) -> (r: usize)
        ensures
            r == self@.analyzed_files,
    {
        self.analyzed_files
    }

    /// Counts a file whose type was read, and keeps its path.
    pub fn record_file(&mut self, path: String)
        requires
            old(self)@.total_files < usize::MAX,
            old(self)@.analyzed_files < usize::MAX,
        ensures
            final(self)@ == (WalkerView {
                files: old(self)@.files.push(path@),
                total_files: (old(self)@.total_files + 1) as usize,
                analyzed_files: (old(self)@.analyzed_files + 1) as usize,
                ..old(self)@
            }),
    {
        let ghost before = strings_view(self.files@);
        self.total_files += 1;
        self.files.push(path);
        assert(strings_view(self.files@) =~= before.push(self.files@.last()@));
        self.analyzed_files += 1;
    }

    /// Counts an entry whose type could not be read as a file met.
    pub fn record_unreadable(&mut self)
        requires
            old(self)@.total_files < usize::MAX,
        ensures
            final(self)@ == (WalkerView { total_files: (old(self)@.total_files + 1) as usize, ..old(self)@ }),
    {
        self.total_files += 1;
    }

    /// Takes one walked entry into the batch: a file is also counted and
    /// kept. When the batch is then full, it is handed back and emptied.
    pub fn step(&mut self, batch: &mut WalkBatch, entry: WalkEntry) -> (r: Option<WalkBatch>)
        requires
            old(self)@.total_files < usize::MAX,
            old(self)@.analyzed_files < usize::MAX,
            old(batch).total_processed < usize::MAX,
        ensures
            final(self)@ == if entry@.is_file {
                WalkerView {
                    files: old(self)@.files.push(entry@.path),
                    total_files: (old(self)@.total_files + 1) as usize,
                    analyzed_files: (old(self)@.analyzed_files + 1) as usize,
                    ..old(self)@
                }
            } else {
                old(self)@
            },
            final(batch).batch_size == old(batch).batch_size,
            final(batch).total_processed == old(batch).total_processed + 1,
            ({
                let all = entry_views(old(batch).entries@).push(entry@);
                if all.len() >= old(batch).batch_size {
                    &&& r matches Some(b) && entry_views(b.entries@) == all
                        && b.batch_size == old(batch).batch_size
                        && b.total_processed == old(batch).total_processed + 1
                    &&& final(batch).entries@.len() == 0
                } else {
                    &&& r is None
                    &&& entry_views(final(batch).entries@) == all
                }
            }),
    {
        if entry.is_file {
            self.record_file(entry.path.clone());
        }
        let WalkEntry { path, is_file, matched_profiles, suspicion_reason } = entry;
        batch.add_entry(path, is_file, matched_profiles, suspicion_reason);
        if batch.is_full() {
            let b = batch.clone_optimized();
            batch.clear();
            Some(b)
        } else {
            None
        }
    }
}

} // verus!
