use super::filesystem::{filesystem_named, Filesystem};
use crate::text::{chars_of, ends_with_chars, find_char, first_index, has_suffix, last_index, rfind_char, string_from_range};
use vstd::prelude::*;

verus! {

/// A Windows volume: its GUID path, filesystem, sizes, drive letters and the
/// folders it is mounted on.
#[derive(Debug)]
pub struct Volume {
    guid: String,
    filesystem: Filesystem,
    size: u64,
    free_space: u64,
    drive_letters: Vec<char>,
    mount_points: Vec<String>,
}

/// The contents of a [`Volume`].
pub ghost struct VolumeView {
    pub guid: Seq<char>,
    pub filesystem: Filesystem,
    pub size: u64,
    pub free_space: u64,
    pub drive_letters: Seq<char>,
    pub mount_points: Seq<Seq<char>>,
}

impl View for Volume {
    type V = VolumeView;

    closed spec fn view(&self) -> VolumeView {
        VolumeView {
            guid: self.guid@,
            filesystem: self.filesystem,
            size: self.size,
            free_space: self.free_space,
            drive_letters: self.drive_letters@,
            mount_points: self.mount_points.deep_view(),
        }
    }
}

/// A path names a drive root such as `C:\`.
pub open spec fn is_drive_path(p: Seq<char>) -> bool {
    has_suffix(p, seq![':', '\\'])
}

/// The drive letters among a volume's paths: the first character of every
/// drive root, in order.
pub open spec fn drive_letters_of(paths: Seq<Seq<char>>) -> Seq<char> {
    paths.filter(drive_path()).map_values(|p: Seq<char>| p[0])
}

/// [`is_drive_path`] as a spec closure.
pub open spec fn drive_path() -> spec_fn(Seq<char>) -> bool {
    |p: Seq<char>| is_drive_path(p)
}

/// The negation of [`is_drive_path`] as a spec closure.
pub open spec fn mount_path() -> spec_fn(Seq<char>) -> bool {
    |p: Seq<char>| !is_drive_path(p)
}

/// The mount points among a volume's paths: every path that is not a drive root.
pub open spec fn mount_points_of(paths: Seq<Seq<char>>) -> Seq<Seq<char>> {
    paths.filter(mount_path())
}

/// Where the identifier inside a volume GUID path starts: just after the first
/// `{`, or after the first character when there is none.
pub open spec fn guid_identifier_start(g: Seq<char>) -> int {
    match first_index(g, '{') {
        Some(i) => i + 1,
        None => 1,
    }
}

/// Where the identifier inside a volume GUID path ends: at the last `}`, or at
/// the end when there is none.
pub open spec fn guid_identifier_end(g: Seq<char>) -> int {
    match last_index(g, '}') {
        Some(i) => i,
        None => g.len() as int,
    }
}

/// The identifier can be cut out of `g`: the start is a character boundary and
/// does not lie after the end.
pub open spec fn guid_identifier_defined(g: Seq<char>) -> bool {
    &&& (g.contains('{') || (g.len() > 0 && (g[0] as u32) < 0x80))
    &&& guid_identifier_start(g) <= guid_identifier_end(g)
}

impl Clone for Volume {
    fn clone(&self) -> (r: Self)
        ensures
            r@ == self@,
    {
        let mount_points = self.mount_points.clone();
        proof {
            broadcast use vstd::std_specs::vec::vec_clone_deep_view_proof;
            assert(mount_points.deep_view() =~= self.mount_points.deep_view());
        }
        let drive_letters = self.drive_letters.clone();
        assert(drive_letters@ =~= self.drive_letters@);
        Volume {
            guid: self.guid.clone(),
            filesystem: self.filesystem,
            size: self.size,
            free_space: self.free_space,
            drive_letters,
            mount_points,
        }
    }
}

/// The contents of an optional volume.
pub open spec fn volume_view(v: Option<Volume>) -> Option<VolumeView> {
    match v {
        Some(v) => Some(v@),
        None => None,
    }
}

impl Volume {
    /// Splits `paths` into drive letters (paths ending in `:\`) and mount points
    /// (all other paths), keeping their order.
    pub fn new(guid: String, filesystem: Option<String>, size: u64, free_space: u64, paths: Vec<String>) -> (r: Self)
        ensures
            r@ == (VolumeView {
                guid: guid@,
                filesystem: match filesystem {
                    Some(fs) => filesystem_named(fs@),
                    None => Filesystem::UNKNOWN,
                },
                size,
                free_space,
                drive_letters: drive_letters_of(paths.deep_view()),
                mount_points: mount_points_of(paths.deep_view()),
            }),
    {
        let ghost pv = paths.deep_view();
        let ghost drive = drive_path();
        let ghost other = mount_path();
        let suffix: Vec<char> = vec![':', '\\'];
        assert(suffix@ == seq![':', '\\']);
        let mut drive_letters: Vec<char> = Vec::new();
        let mut mount_points: Vec<String> = Vec::new();
        let mut i: usize = 0;
        while i < paths.len()
            invariant
                0 <= i <= paths.len(),
                pv == paths.deep_view(),
                drive == drive_path(),
                other == mount_path(),
                suffix@ == seq![':', '\\'],
                drive_letters@ == pv.take(i as int).filter(drive).map_values(|p: Seq<char>| p[0]),
                mount_points.deep_view() == pv.take(i as int).filter(other),
            decreases paths.len() - i,
        {
            let cs = chars_of(paths[i].as_str());
            assert(pv[i as int] == cs@);
            let ghost prev = pv.take(i as int);
            let ghost next = pv.take(i + 1);
            assert(next.drop_last() == prev);
            assert(next.last() == cs@);
            reveal(Seq::filter);
            let ghost old_mounts = mount_points.deep_view();
            if ends_with_chars(&cs, &suffix) {
                drive_letters.push(cs[0]);
                assert(is_drive_path(cs@));
                assert(drive(next.last()));
                assert(next.filter(drive) == prev.filter(drive).push(cs@));
                assert(next.filter(other) == prev.filter(other));
                assert(next.filter(drive).map_values(|p: Seq<char>| p[0]) =~= prev.filter(drive).map_values(|p: Seq<char>| p[0]).push(cs@[0]));
            } else {
                let c = paths[i].clone();
                mount_points.push(c);
                assert(next.filter(drive) == prev.filter(drive));
                assert(next.filter(other) == prev.filter(other).push(cs@));
                assert(mount_points.deep_view() =~= old_mounts.push(cs@));
            }
            i += 1;
        }
        assert(pv.take(paths.len() as int) == pv);
        Self {
            guid,
            filesystem: Filesystem::from_option(filesystem),
            size,
            free_space,
            drive_letters,
            mount_points,
        }
    }

    #[inline]
    pub fn guid(&self) -> (r: &str)
        ensures
            r@ == self@.guid,
    {
        self.guid.as_str()
    }

    #[inline]
    pub fn filesystem(&self) -> (r: &Filesystem)
        ensures
            *r == self@.filesystem,
    {
        &self.filesystem
    }

    #[inline]
    pub fn size(&self) -> (r: u64)
        ensures
            r == self@.size,
    {
        self.size
    }

    #[inline]
    pub fn free_space(&self) -> (r: u64)
        ensures
            r == self@.free_space,
    {
        self.free_space
    }

    #[inline]
    pub fn drive_letters(&self) -> (r: &[char])
        ensures
            r@ == self@.drive_letters,
    {
        self.drive_letters.as_slice()
    }

    #[inline]
    pub fn mount_points(&self) -> (r: &[String])
        ensures
            r.deep_view() == self@.mount_points,
    {
        self.mount_points.as_slice()
    }

    /// The text between the first `{` and the last `}` of the GUID path.
    pub fn guid_identifier(&self) -> (r: String)
        requires
            guid_identifier_defined(self@.guid),
        ensures
            r@ == self@.guid.subrange(guid_identifier_start(self@.guid), guid_identifier_end(self@.guid)),
    {
        let cs = chars_of(self.guid.as_str());
        let start = match find_char(&cs, '{') {
            Some(i) => i + 1,
            None => 1,
        };
        let end = match rfind_char(&cs, '}') {
            Some(i) => i,
            None => cs.len(),
        };
        string_from_range(&cs, start, end)
    }

    /// The volume is reachable through a drive letter or a mount point.
    pub fn is_mounted(&self) -> (r: bool)
        ensures
            r == (self@.drive_letters.len() > 0 || self@.mount_points.len() > 0),
    {
        !self.drive_letters.is_empty() || !self.mount_points.is_empty()
    }
}

proof fn lemma_filter_split_len(s: Seq<Seq<char>>)
    ensures
        s.filter(drive_path()).len() + s.filter(mount_path()).len() == s.len(),
    decreases s.len(),
{
    reveal(Seq::filter);
    if s.len() > 0 {
        lemma_filter_split_len(s.drop_last());
    }
}

/// A volume built from a list of paths is mounted exactly when the list is not
/// empty: every path becomes either a drive letter or a mount point.
pub proof fn new_volume_mounted_iff_paths(paths: Seq<Seq<char>>)
    ensures
        (drive_letters_of(paths).len() > 0 || mount_points_of(paths).len() > 0) <==> paths.len() > 0,
{
    lemma_filter_split_len(paths);
}

} // verus!
