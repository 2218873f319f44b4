//! Building a volume from what Windows reports of it.
use super::utils::{before_nul, nul_separated, decode_units, utf16_decode, utf16_to_multiple_strings, utf16_to_string};
use crate::foruster_core::filesystem::{filesystem_named, Filesystem};
use crate::foruster_core::volume::{drive_letters_of, mount_points_of, Volume, VolumeView};
use vstd::prelude::*;

verus! {

/// The volume Windows reports: its GUID path from its GUID buffer without
/// the buffer's last unit, its filesystem name (when the name buffer was
/// filled and decodes), its sizes, and the paths in the first
/// `paths_length` units of its path-names buffer. `None` when the GUID path
/// does not decode.
pub open spec fn reported_volume(
    guid: Seq<u16>,
    filesystem: Option<Seq<u16>>,
    total_bytes: u64,
    free_bytes: u64,
    path_names: Seq<u16>,
    paths_length: nat,
) -> Option<VolumeView> {
    match utf16_decode(before_nul(guid.drop_last())) {
        Some(g) => {
            let paths = nul_separated(path_names.take(paths_length as int)).filter_map(decode_units());
            Some(VolumeView {
                guid: g,
                filesystem: match filesystem {
                    Some(f) => match utf16_decode(before_nul(f)) {
                        Some(name) => filesystem_named(name),
                        None => Filesystem::UNKNOWN,
                    },
                    None => Filesystem::UNKNOWN,
                },
                size: total_bytes,
                free_space: free_bytes,
                drive_letters: drive_letters_of(paths),
                mount_points: mount_points_of(paths),
            })
        },
        None => None,
    }
}

/// Builds a volume from what Windows reports of it; `filesystem` is the
/// filesystem-name buffer when the system filled it.
pub fn volume_from_reports(
    guid: &[u16],
    filesystem: Option<&[u16]>,
    total_bytes: u64,
    free_bytes: u64,
    path_names: &[u16],
    paths_length: usize,
) -> (r: Option<Volume>)
    requires
        guid@.len() > 0,
        paths_length <= path_names@.len(),
    ensures
        match r {
            Some(v) => reported_volume(
                guid@,
                match filesystem {
                    Some(f) => Some(f@),
                    None => None,
                },
                total_bytes,
                free_bytes,
                path_names@,
                paths_length as nat,
            ) == Some(v@),
            None => reported_volume(
                guid@,
                match filesystem {
                    Some(f) => Some(f@),
                    None => None,
                },
                total_bytes,
                free_bytes,
                path_names@,
                paths_length as nat,
            ) is None,
        },
{
    let mut trimmed: Vec<u16> = Vec::new();
    let last = guid.len() - 1;
    let mut i: usize = 0;
    while i < last
        invariant
            last == guid@.len() - 1,
            0 <= i <= last,
            trimmed@ == guid@.take(i as int),
        decreases guid.len() - i,
    {
        trimmed.push(guid[i]);
        assert(guid@.take(i + 1) == guid@.take(i as int).push(guid@[i as int]));
        i += 1;
    }
    assert(trimmed@ =~= guid@.drop_last());
    let guid_string = match utf16_to_string(trimmed.as_slice()) {
        Ok(s) => s,
        Err(_) => {
            return None;
        },
    };
    let fs_name = match filesystem {
        Some(f) => match utf16_to_string(f) {
            Ok(s) => Some(s),
            Err(_) => None,
        },
        None => None,
    };
    let paths = utf16_to_multiple_strings(path_names, paths_length);
    Some(Volume::new(guid_string, fs_name, total_bytes, free_bytes, paths))
}

} // verus!
