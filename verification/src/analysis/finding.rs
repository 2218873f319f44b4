//! What an analysis finds: the files met, the files each profile selected
//! and the suspicious files.
use super::suspicion::{suspicion_view, Suspicion, SuspicionReason};
use crate::app_core::file::{FileEntry, FileEntryView};
use crate::text::{clone_strings, str_equal, strings_view};
use vstd::prelude::*;

verus! {

/// A file found by an analysis and the profile it was found under.
#[derive(Debug)]
pub struct Finding {
    pub file_path: String,
    pub profile_name: String,
}

/// Position of the first entry with key `key`, if any.
pub open spec fn key_position<V>(t: Seq<(Seq<char>, V)>, key: Seq<char>) -> Option<int>
    decreases t.len(),
{
    if t.len() == 0 {
        None
    } else {
        match key_position(t.drop_last(), key) {
            Some(i) => Some(i),
            None => if t.last().0 == key {
                Some(t.len() - 1)
            } else {
                None
            },
        }
    }
}

/// What [`key_position`] finds is an entry with the key, and no earlier one is.
pub proof fn key_position_is_first<V>(t: Seq<(Seq<char>, V)>, key: Seq<char>)
    ensures
        match key_position(t, key) {
            Some(i) => 0 <= i < t.len() && t[i].0 == key && forall|j: int| 0 <= j < i ==> #[trigger] t[j].0 != key,
            None => forall|j: int| 0 <= j < t.len() ==> #[trigger] t[j].0 != key,
        },
    decreases t.len(),
{
    if t.len() > 0 {
        key_position_is_first(t.drop_last(), key);
        match key_position(t.drop_last(), key) {
            Some(i) => {
                assert forall|j: int| 0 <= j < i implies #[trigger] t[j].0 != key by {
                    assert(t[j] == t.drop_last()[j]);
                }
            },
            None => {
                assert forall|j: int| 0 <= j < t.len() - 1 implies #[trigger] t[j].0 != key by {
                    assert(t[j] == t.drop_last()[j]);
                }
            },
        }
    }
}

proof fn lemma_key_position_of<V>(t: Seq<(Seq<char>, V)>, key: Seq<char>, i: int)
    requires
        0 <= i <= t.len(),
        i < t.len() ==> t[i].0 == key,
        forall|j: int| 0 <= j < i ==> #[trigger] t[j].0 != key,
    ensures
        key_position(t, key) == if i < t.len() { Some(i) } else { None::<int> },
    decreases t.len(),
{
    if t.len() > 0 {
        let u = t.drop_last();
        if i < t.len() - 1 {
            assert forall|j: int| 0 <= j < i implies #[trigger] u[j].0 != key by {
                assert(u[j] == t[j]);
            }
            assert(u[i] == t[i]);
            lemma_key_position_of(u, key, i);
        } else {
            assert forall|j: int| 0 <= j < u.len() implies #[trigger] u[j].0 != key by {
                assert(u[j] == t[j]);
            }
            lemma_key_position_of(u, key, u.len() as int);
            if i == t.len() {
                assert(t.last() == t[t.len() - 1]);
            }
        }
    }
}

/// Files found, grouped by the name of the profile that selected them; the
/// groups are kept in the order their profiles first selected a file.
pub struct ProfileIndex {
    entries: Vec<(String, Vec<String>)>,
}

/// The contents of a group list.
pub open spec fn group_views(t: Seq<(String, Vec<String>)>) -> Seq<(Seq<char>, Seq<Seq<char>>)> {
    t.map_values(|e: (String, Vec<String>)| (e.0@, strings_view(e.1@)))
}

impl View for ProfileIndex {
    type V = Seq<(Seq<char>, Seq<Seq<char>>)>;

    closed spec fn view(&self) -> Seq<(Seq<char>, Seq<Seq<char>>)> {
        group_views(self.entries@)
    }
}

/// The files recorded under a profile, in the order recorded.
pub open spec fn files_of_profile(t: Seq<(Seq<char>, Seq<Seq<char>>)>, name: Seq<char>) -> Seq<Seq<char>> {
    match key_position(t, name) {
        Some(i) => t[i].1,
        None => Seq::empty(),
    }
}

/// The groups after recording `path` under the profile `name`.
pub open spec fn index_add(t: Seq<(Seq<char>, Seq<Seq<char>>)>, name: Seq<char>, path: Seq<char>) -> Seq<(Seq<char>, Seq<Seq<char>>)> {
    match key_position(t, name) {
        Some(i) => t.update(i, (t[i].0, t[i].1.push(path))),
        None => t.push((name, seq![path])),
    }
}

/// Recording a file under a profile appends it to that profile's files and
/// leaves the files of every other profile as they were.
pub proof fn index_add_then_files(t: Seq<(Seq<char>, Seq<Seq<char>>)>, name: Seq<char>, path: Seq<char>, other: Seq<char>)
    ensures
        files_of_profile(index_add(t, name, path), name) == files_of_profile(t, name).push(path),
        other != name ==> files_of_profile(index_add(t, name, path), other) == files_of_profile(t, other),
{
    key_position_is_first(t, name);
    key_position_is_first(t, other);
    let u = index_add(t, name, path);
    match key_position(t, name) {
        Some(i) => {
            assert forall|j: int| 0 <= j < i implies #[trigger] u[j].0 != name by {
                assert(u[j] == t[j]);
            }
            lemma_key_position_of(u, name, i);
        },
        None => {
            assert forall|j: int| 0 <= j < t.len() implies #[trigger] u[j].0 != name by {
                assert(u[j] == t[j]);
            }
            lemma_key_position_of(u, name, t.len() as int);
        },
    }
    if other != name {
        match key_position(t, other) {
            Some(k) => {
                assert forall|j: int| 0 <= j < k implies #[trigger] u[j].0 != other by {
                    if j < t.len() {
                        assert(u[j].0 == t[j].0);
                    }
                }
                assert(u[k].0 == t[k].0);
                lemma_key_position_of(u, other, k);
            },
            None => {
                assert forall|j: int| 0 <= j < u.len() implies #[trigger] u[j].0 != other by {
                    if j < t.len() {
                        assert(u[j].0 == t[j].0);
                    }
                }
                lemma_key_position_of(u, other, u.len() as int);
            },
        }
    }
}

impl ProfileIndex {
    /// No file recorded.
    pub fn new() -> (r: Self)
        ensures
            r@ == Seq::<(Seq<char>, Seq<Seq<char>>)>::empty(),
    {
        let r = ProfileIndex { entries: Vec::new() };
        assert(r@ =~= Seq::<(Seq<char>, Seq<Seq<char>>)>::empty());
        r
    }

    fn position(&self, name: &str) -> (r: Option<usize>)
        ensures
            match r {
                Some(i) => key_position(self@, name@) == Some(i as int) && i < self@.len(),
                None => key_position(self@, name@) is None,
            },
    {
        let ghost t = self@;
        let mut i: usize = 0;
        while i < self.entries.len()
            invariant
                0 <= i <= self.entries.len(),
                t == self@,
                t.len() == self.entries.len(),
                forall|j: int| 0 <= j < i ==> #[trigger] t[j].0 != name@,
            decreases self.entries.len() - i,
        {
            assert(t[i as int].0 == self.entries@[i as int].0@);
            if str_equal(self.entries[i].0.as_str(), name) {
                proof {
                    lemma_key_position_of(t, name@, i as int);
                }
                return Some(i);
            }
            i += 1;
        }
        proof {
            lemma_key_position_of(t, name@, t.len() as int);
        }
        None
    }

    /// Records `file_path` under the profile `profile_name`.
    pub fn add_file_to_profile(&mut self, profile_name: String, file_path: String)
        ensures
            final(self)@ == index_add(old(self)@, profile_name@, file_path@),
    {
        match self.position(profile_name.as_str()) {
            Some(i) => {
                let ghost t = self@;
                let ghost e0 = self.entries@;
                let (name, mut files) = self.entries.remove(i);
                assert(name@ == t[i as int].0 && strings_view(files@) == t[i as int].1);
                let ghost before = files@;
                files.push(file_path);
                assert(strings_view(files@) =~= strings_view(before).push(files@.last()@));
                let ghost x = (name, files);
                self.entries.insert(i, (name, files));
                assert(self.entries@ =~= e0.update(i as int, x));
                assert(group_views(e0.update(i as int, x)) =~= t.update(i as int, (x.0@, strings_view(x.1@))));
            },
            None => {
                let ghost t = self@;
                let files = vec![file_path];
                assert(strings_view(files@) =~= seq![files@[0]@]);
                self.entries.push((profile_name, files));
                assert(self@ =~= t.push((self.entries@.last().0@, strings_view(self.entries@.last().1@))));
            },
        }
    }

    /// Copies of the files recorded under a profile (none for an unknown profile).
    pub fn get_files_for_profile(&self, profile_name: &str) -> (r: Vec<String>)
        ensures
            strings_view(r@) == files_of_profile(self@, profile_name@),
    {
        match self.position(profile_name) {
            Some(i) => clone_strings(&self.entries[i].1),
            None => {
                let r: Vec<String> = Vec::new();
                assert(strings_view(r@) =~= Seq::<Seq<char>>::empty());
                r
            },
        }
    }

    /// The profiles with files recorded, in the order they were first recorded.
    pub fn get_all_profile_names(&self) -> (r: Vec<String>)
        ensures
            strings_view(r@) == self@.map_values(|e: (Seq<char>, Seq<Seq<char>>)| e.0),
    {
        let mut r: Vec<String> = Vec::new();
        let mut i: usize = 0;
        while i < self.entries.len()
            invariant
                0 <= i <= self.entries.len(),
                self@.len() == self.entries.len(),
                strings_view(r@) == self@.take(i as int).map_values(|e: (Seq<char>, Seq<Seq<char>>)| e.0),
            decreases self.entries.len() - i,
        {
            let ghost before = r@;
            r.push(self.entries[i].0.clone());
            assert(strings_view(r@) =~= strings_view(before).push(self@[i as int].0));
            assert(self@.take(i + 1).map_values(|e: (Seq<char>, Seq<Seq<char>>)| e.0) =~= self@.take(i as int).map_values(
                |e: (Seq<char>, Seq<Seq<char>>)| e.0,
            ).push(self@[i as int].0));
            i += 1;
        }
        assert(self@.take(self.entries.len() as int) == self@);
        r
    }

    /// How many files each profile has, in the order of the groups.
    pub fn statistics(&self) -> (r: Vec<(String, usize)>)
        ensures
            r@.map_values(|e: (String, usize)| (e.0@, e.1 as nat)) == self@.map_values(
                |e: (Seq<char>, Seq<Seq<char>>)| (e.0, e.1.len()),
            ),
    {
        let mut r: Vec<(String, usize)> = Vec::new();
        let mut i: usize = 0;
        while i < self.entries.len()
            invariant
                0 <= i <= self.entries.len(),
                self@.len() == self.entries.len(),
                r@.map_values(|e: (String, usize)| (e.0@, e.1 as nat)) == self@.take(i as int).map_values(
                    |e: (Seq<char>, Seq<Seq<char>>)| (e.0, e.1.len()),
                ),
            decreases self.entries.len() - i,
        {
            let ghost before = r@;
            let n = self.entries[i].1.len();
            assert(strings_view(self.entries@[i as int].1@).len() == n);
            r.push((self.entries[i].0.clone(), n));
            assert(r@.map_values(|e: (String, usize)| (e.0@, e.1 as nat)) =~= before.map_values(
                |e: (String, usize)| (e.0@, e.1 as nat),
            ).push((self@[i as int].0, self@[i as int].1.len())));
            assert(self@.take(i + 1).map_values(|e: (Seq<char>, Seq<Seq<char>>)| (e.0, e.1.len())) =~= self@.take(
                i as int,
            ).map_values(|e: (Seq<char>, Seq<Seq<char>>)| (e.0, e.1.len())).push((self@[i as int].0, self@[i as int].1.len())));
            i += 1;
        }
        assert(self@.take(self.entries.len() as int) == self@);
        r
    }

    /// Forgets every recorded file.
    pub fn clear_profile_index(&mut self)
        ensures
            final(self)@ == Seq::<(Seq<char>, Seq<Seq<char>>)>::empty(),
    {
        self.entries.clear();
        assert(self@ =~= Seq::<(Seq<char>, Seq<Seq<char>>)>::empty());
    }
}

/// The contents of a sequence of file entries.
pub open spec fn file_entry_views(fs: Seq<FileEntry>) -> Seq<FileEntryView> {
    fs.map_values(|f: FileEntry| f@)
}

/// The contents of suspicious files and their reasons.
pub open spec fn suspicious_views(s: Seq<(String, SuspicionReason)>) -> Seq<(Seq<char>, Suspicion)> {
    s.map_values(|e: (String, SuspicionReason)| (e.0@, e.1@))
}

/// Everything an analysis found.
pub struct FindingContainer {
    files: Vec<String>,
    analyzed_files: Vec<FileEntry>,
    matched_files: Vec<FileEntry>,
    files_by_profile: ProfileIndex,
    suspicious_files: Vec<(String, SuspicionReason)>,
    analyzed_files_num: usize,
    total_files: usize,
}

/// The contents of a [`FindingContainer`].
pub ghost struct FindingView {
    pub files: Seq<Seq<char>>,
    pub analyzed_files: Seq<FileEntryView>,
    pub matched_files: Seq<FileEntryView>,
    pub files_by_profile: Seq<(Seq<char>, Seq<Seq<char>>)>,
    pub suspicious_files: Seq<(Seq<char>, Suspicion)>,
    pub analyzed_files_num: usize,
    pub total_files: usize,
}

impl View for FindingContainer {
    type V = FindingView;

    closed spec fn view(&self) -> FindingView {
        FindingView {
            files: strings_view(self.files@),
            analyzed_files: file_entry_views(self.analyzed_files@),
            matched_files: file_entry_views(self.matched_files@),
            files_by_profile: self.files_by_profile@,
            suspicious_files: suspicious_views(self.suspicious_files@),
            analyzed_files_num: self.analyzed_files_num,
            total_files: self.total_files,
        }
    }
}

/// Nothing found.
pub open spec fn empty_findings() -> FindingView {
    FindingView {
        files: Seq::empty(),
        analyzed_files: Seq::empty(),
        matched_files: Seq::empty(),
        files_by_profile: Seq::empty(),
        suspicious_files: Seq::empty(),
        analyzed_files_num: 0,
        total_files: 0,
    }
}

impl FindingContainer {
    /// Nothing found yet.
    pub fn new() -> (r: FindingContainer)
        ensures
            r@ == empty_findings(),
    {
        let r = FindingContainer {
            files: Vec::new(),
            analyzed_files: Vec::new(),
            matched_files: Vec::new(),
            files_by_profile: ProfileIndex::new(),
            suspicious_files: Vec::new(),
            analyzed_files_num: 0,
            total_files: 0,
        };
        assert(r@.files =~= Seq::<Seq<char>>::empty());
        assert(r@.analyzed_files =~= Seq::<FileEntryView>::empty());
        assert(r@.matched_files =~= Seq::<FileEntryView>::empty());
        assert(r@.suspicious_files =~= Seq::<(Seq<char>, Suspicion)>::empty());
        r
    }

    pub fn files(&self) -> (r: &Vec<String>)
        ensures
            strings_view(r@) == self@.files,
    {
        &self.files
    }

    pub fn suspicious_files(&self) -> (r: &Vec<(String, SuspicionReason)>)
        ensures
            suspicious_views(r@) == self@.suspicious_files,
    {
        &self.suspicious_files
    }

    pub fn analyzed_files(&self) -> (r: &Vec<FileEntry>)
        ensures
            file_entry_views(r@) == self@.analyzed_files,
    {
        &self.analyzed_files
    }

    pub fn matched_files(&self) -> (r: &Vec<FileEntry>)
        ensures
            file_entry_views(r@) == self@.matched_files,
    {
        &self.matched_files
    }

    pub fn analyzed_files_num(&self) -> (r: usize)
        ensures
            r == self@.analyzed_files_num,
    {
        self.analyzed_files_num
    }

    pub fn total_files(&self) -> (r: usize)
        ensures
            r == self@.total_files,
    {
        self.total_files
    }

    pub fn set_files(&mut self, files: Vec<String>)
        ensures
            final(self)@ == (FindingView { files: strings_view(files@), ..old(self)@ }),
    {
        self.files = files;
    }

    pub fn set_analyzed_files(&mut self, files: Vec<FileEntry>)
        ensures
            final(self)@ == (FindingView { analyzed_files: file_entry_views(files@), ..old(self)@ }),
    {
        self.analyzed_files = files;
    }

    pub fn set_matched_files(&mut self, files: Vec<FileEntry>)
        ensures
            final(self)@ == (FindingView { matched_files: file_entry_views(files@), ..old(self)@ }),
    {
        self.matched_files = files;
    }

    pub fn set_suspicious_files(&mut self, files: Vec<(String, SuspicionReason)>)
        ensures
            final(self)@ == (FindingView { suspicious_files: suspicious_views(files@), ..old(self)@ }),
    {
        self.suspicious_files = files;
    }

    pub fn set_analyzed_files_num(&mut self, num: usize)
        ensures
            final(self)@ == (FindingView { analyzed_files_num: num, ..old(self)@ }),
    {
        self.analyzed_files_num = num;
    }

    pub fn set_total_files(&mut self, num: usize)
        ensures
            final(self)@ == (FindingView { total_files: num, ..old(self)@ }),
    {
        self.total_files = num;
    }

    pub fn files_by_profile(&self) -> (r: &ProfileIndex)
        ensures
            r@ == self@.files_by_profile,
    {
        &self.files_by_profile
    }

    pub fn set_files_by_profile(&mut self, files_by_profile: ProfileIndex)
        ensures
            final(self)@ == (FindingView { files_by_profile: files_by_profile@, ..old(self)@ }),
    {
        self.files_by_profile = files_by_profile;
    }

    /// Records `file_path` under the profile `profile_name`.
    pub fn add_file_to_profile(&mut self, profile_name: String, file_path: String)
        ensures
            final(self)@ == (FindingView {
                files_by_profile: index_add(old(self)@.files_by_profile, profile_name@, file_path@),
                ..old(self)@
            }),
    {
        self.files_by_profile.add_file_to_profile(profile_name, file_path);
    }

    /// Copies of the files recorded under a profile (none for an unknown profile).
    pub fn get_files_for_profile(&self, profile_name: &str) -> (r: Vec<String>)
        ensures
            strings_view(r@) == files_of_profile(self@.files_by_profile, profile_name@),
    {
        self.files_by_profile.get_files_for_profile(profile_name)
    }

    /// The profiles with files recorded, in the order they were first recorded.
    pub fn get_all_profile_names(&self) -> (r: Vec<String>)
        ensures
            strings_view(r@) == self@.files_by_profile.map_values(|e: (Seq<char>, Seq<Seq<char>>)| e.0),
    {
        self.files_by_profile.get_all_profile_names()
    }

    /// Forgets the files recorded under every profile.
    pub fn clear_profile_index(&mut self)
        ensures
            final(self)@ == (FindingView { files_by_profile: Seq::empty(), ..old(self)@ }),
    {
        self.files_by_profile.clear_profile_index();
    }
}

} // verus!
