//! Reading the kernel's mount tables: which devices are mounted where, and
//! how much room is left on them.
use super::volume::{with_mount_point, Volume, VolumeView};
use crate::text::{
    contains, has_infix, has_prefix, str_equal, starts_with, strings_view, string_from_range, chars_of,
};
use crate::tokens::{parse_u64, parsed_u64, split_lines, split_whitespace, text_fields, text_lines};
use vstd::prelude::*;

verus! {

/// The kernel's virtual filesystems, which hold no volume.
pub open spec fn is_virtual_filesystem_name(s: Seq<char>) -> bool {
    ||| s == "tmpfs"@
    ||| s == "proc"@
    ||| s == "sysfs"@
    ||| s == "devtmpfs"@
    ||| s == "cgroup"@
    ||| s == "cgroup2"@
    ||| s == "debugfs"@
    ||| s == "tracefs"@
    ||| s == "securityfs"@
    ||| s == "pstore"@
    ||| s == "bpf"@
    ||| s == "autofs"@
    ||| s == "mqueue"@
    ||| s == "hugetlbfs"@
}

/// Whether `filesystem` is one of the kernel's virtual filesystems.
pub fn is_virtual_filesystem(filesystem: &str) -> (r: bool)
    ensures
        r == is_virtual_filesystem_name(filesystem@),
{
    str_equal(filesystem, "tmpfs") || str_equal(filesystem, "proc") || str_equal(filesystem, "sysfs")
        || str_equal(filesystem, "devtmpfs") || str_equal(filesystem, "cgroup")
        || str_equal(filesystem, "cgroup2") || str_equal(filesystem, "debugfs")
        || str_equal(filesystem, "tracefs") || str_equal(filesystem, "securityfs")
        || str_equal(filesystem, "pstore") || str_equal(filesystem, "bpf")
        || str_equal(filesystem, "autofs") || str_equal(filesystem, "mqueue")
        || str_equal(filesystem, "hugetlbfs")
}

/// One line of the mount table that names a real device.
#[derive(Debug)]
pub struct MountEntry {
    pub mount_point: String,
    pub filesystem: String,
    pub device: String,
}

/// The contents of a [`MountEntry`]: mount point, filesystem and device.
pub open spec fn mount_entry_view(e: MountEntry) -> (Seq<char>, Seq<char>, Seq<char>) {
    (e.mount_point@, e.filesystem@, e.device@)
}

/// A mount-table line, split into fields, that names a real device: it has at
/// least ten fields, its filesystem (the ninth) is not virtual and its device
/// (the tenth) is not a loop device.
pub open spec fn is_device_line(fields: Seq<Seq<char>>) -> bool {
    &&& fields.len() >= 10
    &&& !is_virtual_filesystem_name(fields[8])
    &&& !has_prefix(fields[9], "/dev/loop"@)
}

/// The mount point, filesystem and device of the lines of a mount table that
/// name real devices, in order.
pub open spec fn device_mounts(lines: Seq<Seq<char>>) -> Seq<(Seq<char>, Seq<char>, Seq<char>)>
    decreases lines.len(),
{
    if lines.len() == 0 {
        Seq::empty()
    } else {
        let before = device_mounts(lines.drop_last());
        let fields = text_fields(lines.last());
        if is_device_line(fields) {
            before.push((fields[4], fields[8], fields[9]))
        } else {
            before
        }
    }
}

/// The devices that `/proc/self/mountinfo` shows mounted, in order.
pub fn mount_entries(mountinfo: &str) -> (r: Vec<MountEntry>)
    ensures
        r@.map_values(|e: MountEntry| mount_entry_view(e)) == device_mounts(text_lines(mountinfo@)),
{
    let lines = split_lines(mountinfo);
    let ghost ls = strings_view(lines@);
    let mut r: Vec<MountEntry> = Vec::new();
    let mut i: usize = 0;
    while i < lines.len()
        invariant
            0 <= i <= lines.len(),
            ls == strings_view(lines@),
            ls == text_lines(mountinfo@),
            r@.map_values(|e: MountEntry| mount_entry_view(e)) == device_mounts(ls.take(i as int)),
        decreases lines.len() - i,
    {
        let fields = split_whitespace(lines[i].as_str());
        assert(ls.take(i + 1).drop_last() == ls.take(i as int));
        assert(ls.take(i + 1).last() == lines@[i as int]@);
        if fields.len() >= 10 && !is_virtual_filesystem(fields[8].as_str()) && !starts_with(fields[9].as_str(), "/dev/loop") {
            let ghost before = r@.map_values(|e: MountEntry| mount_entry_view(e));
            assert(strings_view(fields@)[8] == fields@[8]@);
            assert(strings_view(fields@)[9] == fields@[9]@);
            assert(strings_view(fields@)[4] == fields@[4]@);
            r.push(MountEntry {
                mount_point: fields[4].clone(),
                filesystem: fields[8].clone(),
                device: fields[9].clone(),
            });
            assert(r@.map_values(|e: MountEntry| mount_entry_view(e)) =~= before.push(
                (fields@[4]@, fields@[8]@, fields@[9]@),
            ));
        } else {
            proof {
                if fields.len() >= 10 {
                    assert(strings_view(fields@)[8] == fields@[8]@);
                    assert(strings_view(fields@)[9] == fields@[9]@);
                }
            }
        }
        i += 1;
    }
    assert(ls.take(lines.len() as int) == ls);
    r
}

/// The mount point that `/proc/mounts` gives for `device`: the second field of
/// the first line with at least two fields whose first field is `device`.
pub open spec fn mount_point_in(lines: Seq<Seq<char>>, device: Seq<char>) -> Option<Seq<char>>
    decreases lines.len(),
{
    if lines.len() == 0 {
        None
    } else {
        let fields = text_fields(lines[0]);
        if fields.len() >= 2 && fields[0] == device {
            Some(fields[1])
        } else {
            mount_point_in(lines.drop_first(), device)
        }
    }
}

/// Where `/proc/mounts` says `device` is mounted, by its first line for it.
pub fn mount_point_of_device(mounts: &str, device: &str) -> (r: Option<String>)
    ensures
        r.deep_view() == mount_point_in(text_lines(mounts@), device@),
{
    let lines = split_lines(mounts);
    let ghost ls = strings_view(lines@);
    assert(ls.skip(0) == ls);
    let mut i: usize = 0;
    while i < lines.len()
        invariant
            0 <= i <= lines.len(),
            ls == strings_view(lines@),
            ls == text_lines(mounts@),
            mount_point_in(ls, device@) == mount_point_in(ls.skip(i as int), device@),
        decreases lines.len() - i,
    {
        let fields = split_whitespace(lines[i].as_str());
        let ghost rest = ls.skip(i as int);
        assert(rest[0] == lines@[i as int]@);
        assert(rest.drop_first() == ls.skip(i + 1));
        if fields.len() >= 2 && str_equal(fields[0].as_str(), device) {
            assert(strings_view(fields@)[0] == fields@[0]@);
            assert(strings_view(fields@)[1] == fields@[1]@);
            return Some(fields[1].clone());
        }
        proof {
            if fields.len() >= 2 {
                assert(strings_view(fields@)[0] == fields@[0]@);
            }
        }
        i += 1;
    }
    None
}

/// The number after the first `bavail=` field of a line that is followed by
/// a field holding a number, looking from field `from` on.
pub open spec fn bavail_from(fields: Seq<Seq<char>>, from: int) -> Option<u64>
    decreases fields.len() - from,
{
    if from < 0 || from >= fields.len() {
        None
    } else if fields[from] == "bavail="@ && from + 1 < fields.len() && parsed_u64(fields[from + 1]) is Some {
        parsed_u64(fields[from + 1])
    } else {
        bavail_from(fields, from + 1)
    }
}

/// `n * m` as a `u64` multiplication wraps around.
pub open spec fn wrapped_product(n: u64, m: u64) -> u64 {
    ((n as nat * m as nat) % 0x1_0000_0000_0000_0000) as u64
}

/// The free space that `/proc/self/mountstats` reports for a mount point: on
/// the first line that mentions the mount point and `statfs:` and has a
/// `bavail=` field followed by a number, that number of 4096-byte blocks.
pub open spec fn mountstats_available(lines: Seq<Seq<char>>, mount_point: Seq<char>) -> Option<u64>
    decreases lines.len(),
{
    if lines.len() == 0 {
        None
    } else {
        let line = lines[0];
        let found = if has_infix(line, mount_point) && has_infix(line, "statfs:"@) {
            bavail_from(text_fields(line), 0)
        } else {
            None
        };
        match found {
            Some(n) => Some(wrapped_product(n, 4096)),
            None => mountstats_available(lines.drop_first(), mount_point),
        }
    }
}

/// The first number after a `bavail=` field, from field `from` on.
fn find_bavail(fields: &Vec<String>, from: usize) -> (r: Option<u64>)
    requires
        from <= fields.len(),
    ensures
        r == bavail_from(strings_view(fields@), from as int),
    decreases fields.len() - from,
{
    let ghost fv = strings_view(fields@);
    if from >= fields.len() {
        return None;
    }
    assert(fv[from as int] == fields@[from as int]@);
    if str_equal(fields[from].as_str(), "bavail=") && from + 1 < fields.len() {
        assert(fv[from + 1] == fields@[from + 1]@);
        match parse_u64(fields[from + 1].as_str()) {
            Some(n) => {
                return Some(n);
            },
            None => {},
        }
    }
    find_bavail(fields, from + 1)
}

/// The free space in bytes that `/proc/self/mountstats` reports for a mount point.
pub fn read_mountstats(mountstats: &str, mount_point: &str) -> (r: Option<u64>)
    ensures
        r == mountstats_available(text_lines(mountstats@), mount_point@),
{
    let lines = split_lines(mountstats);
    let ghost ls = strings_view(lines@);
    assert(ls.skip(0) == ls);
    let mut i: usize = 0;
    while i < lines.len()
        invariant
            0 <= i <= lines.len(),
            ls == strings_view(lines@),
            ls == text_lines(mountstats@),
            mountstats_available(ls, mount_point@) == mountstats_available(ls.skip(i as int), mount_point@),
        decreases lines.len() - i,
    {
        let ghost rest = ls.skip(i as int);
        assert(rest[0] == lines@[i as int]@);
        assert(rest.drop_first() == ls.skip(i + 1));
        let line = lines[i].as_str();
        if contains(line, mount_point) && contains(line, "statfs:") {
            let fields = split_whitespace(line);
            match find_bavail(&fields, 0) {
                Some(n) => {
                    return Some(n.wrapping_mul(4096));
                },
                None => {},
            }
        }
        i += 1;
    }
    None
}

} // verus!
