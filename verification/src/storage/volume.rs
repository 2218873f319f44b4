//! Volumes as the Linux storage layer sees them: a device with a filesystem,
//! its sizes and the folders it is mounted on.
use super::filesystem::{filesystem_named, Filesystem};
use crate::foruster_core::volume::{guid_identifier_defined, guid_identifier_end, guid_identifier_start};
use crate::text::{chars_of, find_char, path_equal, paths_equal, rfind_char, string_from_range};
use vstd::prelude::*;

verus! {

/// A mounted (or mountable) volume.
#[derive(Debug)]
pub struct Volume {
    guid: String,
    filesystem: Filesystem,
    size: u64,
    free_space: u64,
    mount_points: Vec<String>,
}

/// The contents of a [`Volume`].
pub ghost struct VolumeView {
    pub guid: Seq<char>,
    pub filesystem: Filesystem,
    pub size: u64,
    pub free_space: u64,
    pub mount_points: Seq<Seq<char>>,
}

impl View for Volume {
    type V = VolumeView;

    closed spec fn view(&self) -> VolumeView {
        VolumeView {
            guid: self.guid@,
            filesystem: self.filesystem,
            size: self.size,
            free_space: self.free_space,
            mount_points: self.mount_points.deep_view(),
        }
    }
}

/// The contents of an optional volume.
pub open spec fn volume_view(v: Option<Volume>) -> Option<VolumeView> {
    match v {
        Some(v) => Some(v@),
        None => None,
    }
}

/// Some mount point of `mount_points` is the same path as `path`.
pub open spec fn has_mount_point(mount_points: Seq<Seq<char>>, path: Seq<char>) -> bool {
    exists|i: int| 0 <= i < mount_points.len() && path_equal(#[trigger] mount_points[i], path)
}

/// The mount points after adding `path`: unchanged when the same path is
/// already there, else `path` appended.
pub open spec fn with_mount_point(mount_points: Seq<Seq<char>>, path: Seq<char>) -> Seq<Seq<char>> {
    if has_mount_point(mount_points, path) {
        mount_points
    } else {
        mount_points.push(path)
    }
}

impl Clone for Volume {
    fn clone(&self) -> (r: Self)
        ensures
            r@ == self@,
    {
        let mount_points = self.mount_points.clone();
        proof {
            broadcast use vstd::std_specs::vec::vec_clone_deep_view_proof;
            assert(mount_points.deep_view() =~= self.mount_points.deep_view());
        }
        Volume {
            guid: self.guid.clone(),
            filesystem: self.filesystem,
            size: self.size,
            free_space: self.free_space,
            mount_points,
        }
    }
}

impl Volume {
    /// A volume mounted on `paths`, in that order; the filesystem is read from
    /// its name without regard to ASCII case.
    pub fn new(guid: String, filesystem: Option<String>, size: u64, free_space: u64, paths: Vec<String>) -> (r: Self)
        ensures
            r@ == (VolumeView {
                guid: guid@,
                filesystem: match filesystem {
                    Some(fs) => filesystem_named(fs@),
                    None => Filesystem::Unknown,
                },
                size,
                free_space,
                mount_points: paths.deep_view(),
            }),
    {
        Self { guid, filesystem: Filesystem::from_option(filesystem), size, free_space, mount_points: paths }
    }

    #[inline]
    pub fn guid(&self) -> (r: &str)
        ensures
            r@ == self@.guid,
    {
        self.guid.as_str()
    }

    #[inline]
    pub fn filesystem(&self) -> (r: &Filesystem)
        ensures
            *r == self@.filesystem,
    {
        &self.filesystem
    }

    #[inline]
    pub fn size(&self) -> (r: u64)
        ensures
            r == self@.size,
    {
        self.size
    }

    #[inline]
    pub fn free_space(&self) -> (r: u64)
        ensures
            r == self@.free_space,
    {
        self.free_space
    }

    #[inline]
    pub fn mount_points(&self) -> (r: &[String])
        ensures
            r.deep_view() == self@.mount_points,
    {
        self.mount_points.as_slice()
    }

    /// The text between the first `{` and the last `}` of the GUID.
    pub fn guid_identifier(&self) -> (r: String)
        requires
            guid_identifier_defined(self@.guid),
        ensures
            r@ == self@.guid.subrange(guid_identifier_start(self@.guid), guid_identifier_end(self@.guid)),
    {
        let cs = chars_of(self.guid.as_str());
        let start = match find_char(&cs, '{') {
            Some(i) => i + 1,
            None => 1,
        };
        let end = match rfind_char(&cs, '}') {
            Some(i) => i,
            None => cs.len(),
        };
        string_from_range(&cs, start, end)
    }

    /// The volume is mounted somewhere.
    pub fn is_mounted(&self) -> (r: bool)
        ensures
            r == (self@.mount_points.len() > 0),
    {
        !self.mount_points.is_empty()
    }

    /// Adds a mount point unless the same path is already one; everything else
    /// stays as it is.
    pub fn add_mount_point(&mut self, path: String)
        ensures
            final(self)@ == (VolumeView {
                mount_points: with_mount_point(old(self)@.mount_points, path@),
                ..old(self)@
            }),
    {
        let ghost before = self.mount_points.deep_view();
        let mut i: usize = 0;
        while i < self.mount_points.len()
            invariant
                0 <= i <= self.mount_points.len(),
                before == self.mount_points.deep_view(),
                forall|j: int| 0 <= j < i ==> !path_equal(#[trigger] before[j], path@),
            decreases self.mount_points.len() - i,
        {
            if paths_equal(self.mount_points[i].as_str(), path.as_str()) {
                assert(path_equal(before[i as int], path@));
                return;
            }
            i += 1;
        }
        self.mount_points.push(path);
        assert(self.mount_points.deep_view() =~= before.push(path@));
    }
}

/// Adding the same mount point twice leaves the volume as adding it once.
pub proof fn add_mount_point_idempotent(mount_points: Seq<Seq<char>>, path: Seq<char>)
    ensures
        with_mount_point(with_mount_point(mount_points, path), path) == with_mount_point(mount_points, path),
{
    let once = with_mount_point(mount_points, path);
    if !has_mount_point(mount_points, path) {
        assert(once[mount_points.len() as int] == path);
        assert(path_equal(once[mount_points.len() as int], path));
    }
}

/// Adding a mount point keeps every mount point the volume had, in order, and
/// afterwards the volume is mounted on that path.
pub proof fn add_mount_point_keeps_and_holds(mount_points: Seq<Seq<char>>, path: Seq<char>)
    ensures
        with_mount_point(mount_points, path).take(mount_points.len() as int) == mount_points,
        has_mount_point(with_mount_point(mount_points, path), path),
{
    let once = with_mount_point(mount_points, path);
    if !has_mount_point(mount_points, path) {
        assert(once.take(mount_points.len() as int) =~= mount_points);
        assert(path_equal(once[mount_points.len() as int], path));
    } else {
        assert(once.take(mount_points.len() as int) =~= mount_points);
    }
}

} // verus!
