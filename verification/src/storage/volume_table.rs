//! The volumes found on the mounted devices, each under its device name, and
//! the rules that size them.
use super::driver::volume_entries;
use super::filesystem::{filesystem_named, Filesystem};
use super::mounts::{mount_entry_view, wrapped_product, MountEntry};
use super::volume::{with_mount_point, Volume, VolumeView};
use crate::text::{
    chars_of, append_str, ends_with, has_prefix, has_suffix, last_index, owned, str_equal, string_from_range,
    trailing_count, trim, trim_end_by, trimmed, unicode_numeric, char_is_numeric, rfind_char, starts_with,
};
use crate::tokens::{parse_u64, parsed_u64};
use vstd::prelude::*;

verus! {

/// Position of the first entry for `device`, if any.
pub open spec fn device_position(t: Seq<(Seq<char>, VolumeView)>, device: Seq<char>) -> Option<int>
    decreases t.len(),
{
    if t.len() == 0 {
        None
    } else {
        match device_position(t.drop_last(), device) {
            Some(i) => Some(i),
            None => if t.last().0 == device {
                Some(t.len() - 1)
            } else {
                None
            },
        }
    }
}

/// The table after storing `volume` under `device`: the first entry for that
/// device replaced, or a new entry at the end.
pub open spec fn table_insert(t: Seq<(Seq<char>, VolumeView)>, device: Seq<char>, volume: VolumeView) -> Seq<(Seq<char>, VolumeView)> {
    match device_position(t, device) {
        Some(i) => t.update(i, (device, volume)),
        None => t.push((device, volume)),
    }
}

/// The table after adding a mount point to the volume of `device`; unchanged
/// when there is no entry for that device.
pub open spec fn table_add_mount_point(t: Seq<(Seq<char>, VolumeView)>, device: Seq<char>, mount_point: Seq<char>) -> Seq<(Seq<char>, VolumeView)> {
    match device_position(t, device) {
        Some(i) => t.update(i, (t[i].0, VolumeView {
            mount_points: with_mount_point(t[i].1.mount_points, mount_point),
            ..t[i].1
        })),
        None => t,
    }
}

/// What [`device_position`] finds is an entry for the device, and no earlier one is.
pub proof fn device_position_is_first(t: Seq<(Seq<char>, VolumeView)>, device: Seq<char>)
    ensures
        match device_position(t, device) {
            Some(i) => 0 <= i < t.len() && t[i].0 == device && forall|j: int| 0 <= j < i ==> #[trigger] t[j].0 != device,
            None => forall|j: int| 0 <= j < t.len() ==> #[trigger] t[j].0 != device,
        },
    decreases t.len(),
{
    if t.len() > 0 {
        device_position_is_first(t.drop_last(), device);
        match device_position(t.drop_last(), device) {
            Some(i) => {
                assert forall|j: int| 0 <= j < i implies #[trigger] t[j].0 != device by {
                    assert(t[j] == t.drop_last()[j]);
                }
            },
            None => {
                assert forall|j: int| 0 <= j < t.len() - 1 implies #[trigger] t[j].0 != device by {
                    assert(t[j] == t.drop_last()[j]);
                }
            },
        }
    }
}

proof fn lemma_position_of_first(t: Seq<(Seq<char>, VolumeView)>, device: Seq<char>, i: int)
    requires
        0 <= i < t.len(),
        t[i].0 == device,
        forall|j: int| 0 <= j < i ==> #[trigger] t[j].0 != device,
    ensures
        device_position(t, device) == Some(i),
    decreases t.len(),
{
    if i < t.len() - 1 {
        let u = t.drop_last();
        assert forall|j: int| 0 <= j < i implies #[trigger] u[j].0 != device by {
            assert(u[j] == t[j]);
        }
        lemma_position_of_first(u, device, i);
    } else {
        let u = t.drop_last();
        assert forall|j: int| 0 <= j < u.len() implies #[trigger] u[j].0 != device by {
            assert(u[j] == t[j]);
        }
        lemma_no_position(u, device);
    }
}

proof fn lemma_no_position(t: Seq<(Seq<char>, VolumeView)>, device: Seq<char>)
    requires
        forall|j: int| 0 <= j < t.len() ==> #[trigger] t[j].0 != device,
    ensures
        device_position(t, device) is None,
    decreases t.len(),
{
    if t.len() > 0 {
        let u = t.drop_last();
        assert forall|j: int| 0 <= j < u.len() implies #[trigger] u[j].0 != device by {
            assert(u[j] == t[j]);
        }
        lemma_no_position(u, device);
        assert(t.last() == t[t.len() - 1]);
    }
}

/// After storing a volume under a device, looking that device up gives that
/// volume; the entries of every other device are kept.
pub proof fn table_insert_then_lookup(t: Seq<(Seq<char>, VolumeView)>, device: Seq<char>, volume: VolumeView)
    ensures
        match device_position(table_insert(t, device, volume), device) {
            Some(i) => table_insert(t, device, volume)[i] == (device, volume),
            None => false,
        },
        forall|j: int| 0 <= j < t.len() && t[j].0 != device ==> #[trigger] table_insert(t, device, volume)[j] == t[j],
{
    device_position_is_first(t, device);
    let u = table_insert(t, device, volume);
    match device_position(t, device) {
        Some(i) => {
            assert forall|j: int| 0 <= j < i implies #[trigger] u[j].0 != device by {
                assert(u[j] == t[j]);
            }
            lemma_position_of_first(u, device, i);
        },
        None => {
            assert forall|j: int| 0 <= j < t.len() implies #[trigger] u[j].0 != device by {
                assert(u[j] == t[j]);
            }
            lemma_position_of_first(u, device, t.len() as int);
        },
    }
}

/// The volumes found so far, each under the device it is on, in the order found.
pub struct VolumeTable {
    entries: Vec<(String, Volume)>,
}

impl View for VolumeTable {
    type V = Seq<(Seq<char>, VolumeView)>;

    closed spec fn view(&self) -> Seq<(Seq<char>, VolumeView)> {
        volume_entries(self.entries@)
    }
}

impl VolumeTable {
    /// An empty table.
    pub fn new() -> (r: Self)
        ensures
            r@ == Seq::<(Seq<char>, VolumeView)>::empty(),
    {
        let r = VolumeTable { entries: Vec::new() };
        assert(r@ =~= Seq::<(Seq<char>, VolumeView)>::empty());
        r
    }

    /// Position of the first entry for `device`, if any.
    pub fn find(&self, device: &str) -> (r: Option<usize>)
        ensures
            match r {
                Some(i) => device_position(self@, device@) == Some(i as int),
                None => device_position(self@, device@) is None,
            },
            r matches Some(i) ==> i < self@.len() && self@[i as int].0 == device@,
    {
        let ghost t = self@;
        let mut i: usize = 0;
        while i < self.entries.len()
            invariant
                0 <= i <= self.entries.len(),
                t == self@,
                t.len() == self.entries.len(),
                device_position(t.take(i as int), device@) is None,
            decreases self.entries.len() - i,
        {
            assert(t.take(i + 1).drop_last() == t.take(i as int));
            assert(t[i as int].0 == self.entries@[i as int].0@);
            if str_equal(self.entries[i].0.as_str(), device) {
                proof {
                    device_position_is_first(t.take(i as int), device@);
                    assert forall|j: int| 0 <= j < i implies #[trigger] t[j].0 != device@ by {
                        assert(t.take(i as int)[j] == t[j]);
                    }
                    lemma_position_of_first(t, device@, i as int);
                }
                return Some(i);
            }
            i += 1;
        }
        assert(t.take(i as int) == t);
        None
    }

    /// Adds a mount point to the volume of `device`; tells whether the table
    /// has an entry for that device.
    pub fn add_mount_point(&mut self, device: &str, mount_point: String) -> (found: bool)
        ensures
            found == (device_position(old(self)@, device@) is Some),
            final(self)@ == table_add_mount_point(old(self)@, device@, mount_point@),
    {
        match self.find(device) {
            Some(i) => {
                let ghost t = self@;
                let ghost e0 = self.entries@;
                let (d, mut v) = self.entries.remove(i);
                assert(d@ == t[i as int].0 && v@ == t[i as int].1);
                v.add_mount_point(mount_point);
                let ghost x = (d, v);
                self.entries.insert(i, (d, v));
                assert(self.entries@ =~= e0.update(i as int, x));
                assert(volume_entries(e0.update(i as int, x)) =~= t.update(i as int, (x.0@, x.1@)));
                assert((x.0@, x.1@) == (t[i as int].0, VolumeView {
                    mount_points: with_mount_point(t[i as int].1.mount_points, mount_point@),
                    ..t[i as int].1
                }));
                assert(self@ == table_add_mount_point(t, device@, mount_point@));
                true
            },
            None => false,
        }
    }

    /// Stores `volume` under `device`, replacing the volume already there.
    pub fn insert(&mut self, device: String, volume: Volume)
        ensures
            final(self)@ == table_insert(old(self)@, device@, volume@),
    {
        match self.find(device.as_str()) {
            Some(i) => {
                let ghost t = self@;
                let ghost e0 = self.entries@;
                let ghost x = (device, volume);
                self.entries.set(i, (device, volume));
                assert(self.entries@ =~= e0.update(i as int, x));
                assert(volume_entries(e0.update(i as int, x)) =~= t.update(i as int, (x.0@, x.1@)));
            },
            None => {
                let ghost t = self@;
                self.entries.push((device, volume));
                assert(self@ =~= table_insert(t, device@, volume@));
            },
        }
    }

    /// The entries, in the order they were found.
    pub fn entries(&self) -> (r: &[(String, Volume)])
        ensures
            volume_entries(r@) == self@,
    {
        self.entries.as_slice()
    }

    /// The entries, in the order they were found.
    pub fn into_entries(self) -> (r: Vec<(String, Volume)>)
        ensures
            volume_entries(r@) == self@,
    {
        self.entries
    }
}

/// The size of a device and the room left on it, in bytes.
#[derive(Debug, Clone, Copy)]
pub struct DiskUsage {
    pub total: u64,
    pub available: u64,
}

/// The table after a mount of `entry` was read: the mount point added to its
/// device's volume, or, for a device seen for the first time whose usage is
/// known, a new volume mounted there.
pub open spec fn table_after_mount(
    t: Seq<(Seq<char>, VolumeView)>,
    entry: (Seq<char>, Seq<char>, Seq<char>),
    guid: Seq<char>,
    usage: Option<DiskUsage>,
) -> Seq<(Seq<char>, VolumeView)> {
    let (mount_point, filesystem, device) = entry;
    if device_position(t, device) is Some {
        table_add_mount_point(t, device, mount_point)
    } else {
        match usage {
            Some(u) => table_insert(t, device, VolumeView {
                guid,
                filesystem: filesystem_named(filesystem),
                size: u.total,
                free_space: u.available,
                mount_points: seq![mount_point],
            }),
            None => t,
        }
    }
}

/// Records one mount of the mount table; `guid` and `usage` are what was
/// found for its device.
pub fn record_mount(table: &mut VolumeTable, entry: &MountEntry, guid: String, usage: Option<DiskUsage>)
    ensures
        final(table)@ == table_after_mount(old(table)@, mount_entry_view(*entry), guid@, usage),
{
    if table.add_mount_point(entry.device.as_str(), entry.mount_point.clone()) {
        return;
    }
    match usage {
        Some(u) => {
            let paths = vec![entry.mount_point.clone()];
            let volume = Volume::new(guid, Some(entry.filesystem.clone()), u.total, u.available, paths);
            assert(paths@.len() == 1);
            assert(volume@.mount_points =~= seq![entry.mount_point@]);
            table.insert(entry.device.clone(), volume);
        },
        None => {},
    }
}

/// A device path without its `/dev/` prefix (`str::strip_prefix`).
pub open spec fn device_short_name(device: Seq<char>) -> Seq<char> {
    if has_prefix(device, "/dev/"@) {
        device.subrange(5, device.len() as int)
    } else {
        device
    }
}

/// The numeric-character predicate as a spec closure.
pub open spec fn numeric() -> spec_fn(char) -> bool {
    |c: char| unicode_numeric(c)
}

/// The whole-disk name of a partition's device name: for NVMe devices the
/// text before the last `p`, for the others the name without trailing digits.
pub open spec fn base_device_name(name: Seq<char>) -> Seq<char> {
    if has_prefix(name, "nvme"@) {
        match last_index(name, 'p') {
            Some(p) => name.subrange(0, p),
            None => name,
        }
    } else {
        trim_end_by(name, numeric())
    }
}

/// A device path without its `/dev/` prefix.
pub fn device_name(device: &str) -> (r: String)
    ensures
        r@ == device_short_name(device@),
{
    let cs = chars_of(device);
    if starts_with(device, "/dev/") {
        proof {
            reveal_strlit("/dev/");
        }
        string_from_range(&cs, 5, cs.len())
    } else {
        assert(cs@.subrange(0, cs@.len() as int) == cs@);
        string_from_range(&cs, 0, cs.len())
    }
}

/// The whole-disk name of a partition's device name (`sda1` gives `sda`,
/// `nvme0n1p1` gives `nvme0n1`).
pub fn base_device(name: &str) -> (r: String)
    ensures
        r@ == base_device_name(name@),
{
    let cs = chars_of(name);
    if starts_with(name, "nvme") {
        match rfind_char(&cs, 'p') {
            Some(p) => string_from_range(&cs, 0, p),
            None => {
                assert(cs@.subrange(0, cs@.len() as int) == cs@);
                string_from_range(&cs, 0, cs.len())
            },
        }
    } else {
        let ghost num = numeric();
        let mut end: usize = cs.len();
        while end > 0 && char_is_numeric(cs[end - 1])
            invariant
                end <= cs.len(),
                cs@ == name@,
                num == numeric(),
                forall|j: int| end <= j < cs.len() ==> unicode_numeric(#[trigger] cs@[j]),
            decreases end,
        {
            end -= 1;
        }
        proof {
            lemma_trailing_count_at(cs@, num, end as int);
        }
        string_from_range(&cs, 0, end)
    }
}

proof fn lemma_trailing_count_at(s: Seq<char>, p: spec_fn(char) -> bool, k: int)
    requires
        0 <= k <= s.len(),
        forall|j: int| k <= j < s.len() ==> p(#[trigger] s[j]),
        k == 0 || !p(s[k - 1]),
    ensures
        trailing_count(s, p) == s.len() - k,
    decreases s.len() - k,
{
    if k < s.len() {
        let t = s.drop_last();
        assert forall|j: int| k <= j < t.len() implies p(#[trigger] t[j]) by {
            assert(t[j] == s[j]);
        }
        if k > 0 {
            assert(t[k - 1] == s[k - 1]);
        }
        lemma_trailing_count_at(t, p, k);
        assert(p(s.last()));
    } else if s.len() > 0 {
        assert(s.last() == s[k - 1]);
    }
}

/// A number read from a kernel file: the file's text without surrounding
/// white space, parsed as a `u64`.
pub open spec fn file_number(content: Seq<char>) -> Option<u64> {
    parsed_u64(trimmed(content))
}

/// Parses a number read from a kernel file.
pub fn parse_file_number(content: &str) -> (r: Option<u64>)
    ensures
        r == file_number(content@),
{
    let t = trim(content);
    parse_u64(t.as_str())
}

/// The usage of a device from its size in sectors (the text of its `size`
/// file), the text of its `logical_block_size` file if it could be read, and
/// the free space reported for it if any: `None` when the size is not a
/// number; a block size that is missing or not a number counts as 512; the
/// free space defaults to the whole size.
pub open spec fn usage_of(sectors: Seq<char>, sector_size: Option<Seq<char>>, available: Option<u64>) -> Option<DiskUsage> {
    match file_number(sectors) {
        Some(n) => {
            let block = match sector_size {
                Some(s) => match file_number(s) {
                    Some(b) => b,
                    None => 512,
                },
                None => 512,
            };
            let total = wrapped_product(n, block);
            Some(DiskUsage {
                total,
                available: match available {
                    Some(a) => a,
                    None => total,
                },
            })
        },
        None => None,
    }
}

/// Sizes a device from what the kernel reports of it.
pub fn disk_usage(sectors: &str, sector_size: Option<&str>, available: Option<u64>) -> (r: Option<DiskUsage>)
    ensures
        r == usage_of(sectors@, match sector_size {
            Some(s) => Some(s@),
            None => None,
        }, available),
{
    let n = match parse_file_number(sectors) {
        Some(n) => n,
        None => {
            return None;
        },
    };
    let block: u64 = match sector_size {
        Some(s) => match parse_file_number(s) {
            Some(b) => b,
            None => 512,
        },
        None => 512,
    };
    let total = n.wrapping_mul(block);
    Some(DiskUsage {
        total,
        available: match available {
            Some(a) => a,
            None => total,
        },
    })
}

/// A UUID between braces, the form volume identifiers take.
pub fn braced_uuid(uuid: &str) -> (r: String)
    ensures
        r@ == seq!['{'] + uuid@ + seq!['}'],
{
    let mut s = String::new();
    crate::text::push_char(&mut s, '{');
    let mut s = append_str(s, uuid);
    crate::text::push_char(&mut s, '}');
    s
}

/// Whether a link of `/dev/disk/by-uuid` points at `device`: its target ends
/// with the device's name.
pub fn uuid_link_targets(target: &str, device: &str) -> (r: bool)
    ensures
        r == has_suffix(target@, device_short_name(device@)),
{
    let name = device_name(device);
    ends_with(target, name.as_str())
}

} // verus!
