//! Reading disks and partitions from what `/sys/block` shows of them.
use super::disk::{Disk, DiskView};
use super::driver::number_or_zero;
use super::identification_data::{trimmed_option, IdentificationData, IdentificationView, StorageBusType};
use super::mounts::wrapped_product;
use super::partition::{partition_views, Partition, PartitionView};
use super::volume_table::{file_number, parse_file_number};
use crate::text::{
    chars_of, contains, has_infix, has_prefix, last_index, parse_u32, rfind_char, starts_with,
    starts_with_chars, chars_equal, string_from_range, trim, trimmed,
};
use vstd::prelude::*;

verus! {

/// Entries of `/sys/block` that are not disks: names starting with `.`,
/// `..`, `dm-`, `loop`, `ram`, `zram` or `fd`.
pub open spec fn is_skipped_block_name(name: Seq<char>) -> bool {
    ||| has_prefix(name, "."@)
    ||| has_prefix(name, ".."@)
    ||| has_prefix(name, "dm-"@)
    ||| has_prefix(name, "loop"@)
    ||| has_prefix(name, "ram"@)
    ||| has_prefix(name, "zram"@)
    ||| has_prefix(name, "fd"@)
}

/// Whether an entry of `/sys/block` is left out of the disks.
pub fn is_skipped_block_entry(name: &str) -> (r: bool)
    ensures
        r == is_skipped_block_name(name@),
{
    starts_with(name, ".") || starts_with(name, "..") || starts_with(name, "dm-") || starts_with(name, "loop")
        || starts_with(name, "ram") || starts_with(name, "zram") || starts_with(name, "fd")
}

/// The value of a sysfs attribute: its text without surrounding white
/// space, or nothing when the file could not be read or holds only white space.
pub open spec fn attribute_value(content: Option<Seq<char>>) -> Option<Seq<char>> {
    match content {
        Some(c) => if trimmed(c).len() == 0 {
            None
        } else {
            Some(trimmed(c))
        },
        None => None,
    }
}

/// The value of a sysfs attribute read from its file's text.
pub fn disk_field(content: Option<String>) -> (r: Option<String>)
    ensures
        r.deep_view() == attribute_value(content.deep_view()),
{
    match content {
        Some(c) => {
            let t = trim(c.as_str());
            if t.as_str().is_empty() {
                None
            } else {
                Some(t)
            }
        },
        None => None,
    }
}

/// The bus a disk is attached through, read from the target of its
/// `device` link: NVMe, then ATA or SCSI (reported as SATA), then USB.
pub open spec fn bus_type_of_link(target: Option<Seq<char>>) -> StorageBusType {
    match target {
        Some(t) => if has_infix(t, "nvme"@) {
            StorageBusType::Nvme
        } else if has_infix(t, "ata"@) || has_infix(t, "scsi"@) {
            StorageBusType::Sata
        } else if has_infix(t, "usb"@) {
            StorageBusType::Usb
        } else {
            StorageBusType::Unknown
        },
        None => StorageBusType::Unknown,
    }
}

/// The bus a disk is attached through, from the target of its `device` link
/// when it could be read.
pub fn detect_bus_type(target: Option<&str>) -> (r: StorageBusType)
    ensures
        r == bus_type_of_link(match target {
            Some(t) => Some(t@),
            None => None,
        }),
{
    match target {
        Some(t) => if contains(t, "nvme") {
            StorageBusType::Nvme
        } else if contains(t, "ata") || contains(t, "scsi") {
            StorageBusType::Sata
        } else if contains(t, "usb") {
            StorageBusType::Usb
        } else {
            StorageBusType::Unknown
        },
        None => StorageBusType::Unknown,
    }
}

/// `s` without every leading repetition of `p` (`str::trim_start_matches`).
pub open spec fn strip_repeated_prefix(s: Seq<char>, p: Seq<char>) -> Seq<char>
    decreases s.len(),
{
    if p.len() > 0 && has_prefix(s, p) {
        strip_repeated_prefix(s.subrange(p.len() as int, s.len() as int), p)
    } else {
        s
    }
}

/// An entry of a disk's directory that stands for one of its partitions:
/// its name starts with the disk's name and is longer.
pub open spec fn is_partition_entry(disk: Seq<char>, entry: Seq<char>) -> bool {
    has_prefix(entry, disk) && entry != disk
}

/// The number of the partition an entry stands for: after the last `p` for
/// NVMe disks, after the disk's name for the others; zero when that text is
/// not a number.
pub open spec fn partition_entry_number(disk: Seq<char>, entry: Seq<char>) -> u32 {
    if has_prefix(disk, "nvme"@) {
        match last_index(entry, 'p') {
            Some(p) => number_or_zero(entry.subrange(p + 1, entry.len() as int)),
            None => 0,
        }
    } else {
        number_or_zero(strip_repeated_prefix(entry, disk))
    }
}

/// The number of the partition a directory entry of a disk stands for.
pub fn partition_number(disk: &str, entry: &str) -> (r: u32)
    ensures
        r == partition_entry_number(disk@, entry@),
{
    let cs = chars_of(entry);
    if starts_with(disk, "nvme") {
        match rfind_char(&cs, 'p') {
            Some(p) => {
                let digits = string_from_range(&cs, p + 1, cs.len());
                match parse_u32(digits.as_str()) {
                    Some(n) => n,
                    None => 0,
                }
            },
            None => 0,
        }
    } else {
        let ds = chars_of(disk);
        let mut start: usize = 0;
        assert(cs@.subrange(0, cs@.len() as int) == cs@);
        while ds.len() > 0 && ds.len() <= cs.len() - start && prefix_at(&cs, start, &ds)
            invariant
                cs@ == entry@,
                ds@ == disk@,
                start <= cs.len(),
                strip_repeated_prefix(entry@, disk@) == strip_repeated_prefix(cs@.subrange(start as int, cs@.len() as int), disk@),
            decreases cs.len() - start,
        {
            let ghost rest = cs@.subrange(start as int, cs@.len() as int);
            assert(rest.subrange(0, ds@.len() as int) == cs@.subrange(start as int, start + ds@.len()));
            assert(rest.subrange(ds@.len() as int, rest.len() as int) == cs@.subrange(start + ds@.len(), cs@.len() as int));
            start = start + ds.len();
        }
        proof {
            let rest = cs@.subrange(start as int, cs@.len() as int);
            if ds@.len() > 0 && has_prefix(rest, ds@) {
                assert(rest.subrange(0, ds@.len() as int) == cs@.subrange(start as int, start + ds@.len()));
            }
        }
        let digits = string_from_range(&cs, start, cs.len());
        match parse_u32(digits.as_str()) {
            Some(n) => n,
            None => 0,
        }
    }
}

/// Whether `p` occurs in `cs` at `at`.
fn prefix_at(cs: &Vec<char>, at: usize, p: &Vec<char>) -> (r: bool)
    requires
        at + p.len() <= cs.len(),
    ensures
        r == (cs@.subrange(at as int, at + p.len()) == p@),
{
    let mut i: usize = 0;
    while i < p.len()
        invariant
            0 <= i <= p.len(),
            at + p.len() <= cs.len(),
            forall|j: int| 0 <= j < i ==> cs@[at + j] == p@[j],
        decreases p.len() - i,
    {
        if cs[at + i] != p[i] {
            assert(cs@.subrange(at as int, at + p.len())[i as int] != p@[i as int]);
            return false;
        }
        i += 1;
    }
    assert(cs@.subrange(at as int, at + p.len()) =~= p@);
    true
}

/// A directory entry of a disk as read: its name and the texts of its
/// `start` and `size` files, when they could be read.
#[derive(Debug)]
pub struct PartitionEntry {
    pub name: String,
    pub start: Option<String>,
    pub size: Option<String>,
}

/// The contents of a [`PartitionEntry`].
pub open spec fn partition_entry_view(e: PartitionEntry) -> (Seq<char>, Option<Seq<char>>, Option<Seq<char>>) {
    (e.name@, e.start.deep_view(), e.size.deep_view())
}

/// The partition a directory entry of `disk` stands for: an entry of a
/// partition with a non-zero number whose start and size (in 512-byte
/// sectors) are numbers; it holds no volume yet.
pub open spec fn entry_partition(disk: Seq<char>, e: (Seq<char>, Option<Seq<char>>, Option<Seq<char>>)) -> Option<PartitionView> {
    let n = partition_entry_number(disk, e.0);
    if is_partition_entry(disk, e.0) && n > 0 {
        match (e.1, e.2) {
            (Some(st), Some(sz)) => match (file_number(st), file_number(sz)) {
                (Some(a), Some(b)) => Some(PartitionView {
                    number: n,
                    starting_offset: wrapped_product(a, 512),
                    size: wrapped_product(b, 512),
                    volume: None,
                }),
                _ => None,
            },
            _ => None,
        }
    } else {
        None
    }
}

/// The partitions the directory entries of `disk` stand for, in entry order.
pub open spec fn entry_partitions(disk: Seq<char>, es: Seq<(Seq<char>, Option<Seq<char>>, Option<Seq<char>>)>) -> Seq<PartitionView>
    decreases es.len(),
{
    if es.len() == 0 {
        Seq::empty()
    } else {
        let before = entry_partitions(disk, es.drop_last());
        match entry_partition(disk, es.last()) {
            Some(p) => before.push(p),
            None => before,
        }
    }
}

/// `sorted` with `p` put after the last element numbered at most `p`'s number.
pub open spec fn insert_by_number(sorted: Seq<PartitionView>, p: PartitionView) -> Seq<PartitionView>
    decreases sorted.len(),
{
    if sorted.len() == 0 {
        seq![p]
    } else if sorted.last().number <= p.number {
        sorted.push(p)
    } else {
        insert_by_number(sorted.drop_last(), p).push(sorted.last())
    }
}

/// `ps` stably sorted by partition number.
pub open spec fn sorted_by_number(ps: Seq<PartitionView>) -> Seq<PartitionView>
    decreases ps.len(),
{
    if ps.len() == 0 {
        Seq::empty()
    } else {
        insert_by_number(sorted_by_number(ps.drop_last()), ps.last())
    }
}

proof fn lemma_insert_by_number_at(s: Seq<PartitionView>, p: PartitionView, k: int)
    requires
        0 <= k <= s.len(),
        forall|j: int| k <= j < s.len() ==> #[trigger] s[j].number > p.number,
        k == 0 || s[k - 1].number <= p.number,
    ensures
        insert_by_number(s, p) == s.insert(k, p),
    decreases s.len(),
{
    if s.len() == 0 {
        assert(s.insert(k, p) =~= seq![p]);
    } else if s.last().number <= p.number {
        assert(k == s.len());
        assert(s.insert(k, p) =~= s.push(p));
    } else {
        let t = s.drop_last();
        assert forall|j: int| k <= j < t.len() implies #[trigger] t[j].number > p.number by {
            assert(t[j] == s[j]);
        }
        if k > 0 {
            assert(t[k - 1] == s[k - 1]);
        }
        lemma_insert_by_number_at(t, p, k);
        assert(s.insert(k, p) =~= t.insert(k, p).push(s.last()));
    }
}

/// Partition numbers never decrease along `ps`.
pub open spec fn numbers_sorted(ps: Seq<PartitionView>) -> bool {
    forall|i: int, j: int| 0 <= i <= j < ps.len() ==> #[trigger] ps[i].number <= #[trigger] ps[j].number
}

proof fn lemma_insert_bounded(s: Seq<PartitionView>, p: PartitionView, bound: u32)
    requires
        forall|j: int| 0 <= j < s.len() ==> #[trigger] s[j].number <= bound,
        p.number <= bound,
    ensures
        forall|j: int| 0 <= j < insert_by_number(s, p).len() ==> #[trigger] insert_by_number(s, p)[j].number <= bound,
    decreases s.len(),
{
    if s.len() > 0 && s.last().number > p.number {
        let t = s.drop_last();
        assert forall|j: int| 0 <= j < t.len() implies #[trigger] t[j].number <= bound by {
            assert(t[j] == s[j]);
        }
        lemma_insert_bounded(t, p, bound);
    }
}

proof fn lemma_insert_keeps_order(s: Seq<PartitionView>, p: PartitionView)
    requires
        numbers_sorted(s),
    ensures
        numbers_sorted(insert_by_number(s, p)),
        insert_by_number(s, p).to_multiset() == s.to_multiset().insert(p),
    decreases s.len(),
{
    broadcast use vstd::seq_lib::group_to_multiset_ensures;
    if s.len() == 0 {
        assert(insert_by_number(s, p) == Seq::<PartitionView>::empty().push(p));
    } else if s.last().number <= p.number {
        assert(s.drop_last().push(s.last()) == s);
    } else {
        let t = s.drop_last();
        assert(numbers_sorted(t)) by {
            assert forall|i: int, j: int| 0 <= i <= j < t.len() implies #[trigger] t[i].number <= #[trigger] t[j].number by {
                assert(t[i] == s[i] && t[j] == s[j]);
            }
        }
        lemma_insert_keeps_order(t, p);
        let bound = s.last().number;
        assert forall|j: int| 0 <= j < t.len() implies #[trigger] t[j].number <= bound by {
            assert(t[j] == s[j]);
            assert(s[j].number <= s[s.len() - 1].number);
        }
        lemma_insert_bounded(t, p, bound);
        let r = insert_by_number(t, p);
        assert(insert_by_number(s, p) == r.push(s.last()));
        assert forall|i: int, j: int| 0 <= i <= j < r.push(s.last()).len() implies
            #[trigger] r.push(s.last())[i].number <= #[trigger] r.push(s.last())[j].number by {
            if j == r.len() {
                if i < r.len() {
                    assert(r.push(s.last())[i] == r[i]);
                }
            } else {
                assert(r.push(s.last())[i] == r[i] && r.push(s.last())[j] == r[j]);
            }
        }
        assert(t.push(s.last()) == s);
        assert(r.push(s.last()).to_multiset() =~= s.to_multiset().insert(p));
    }
}

/// Sorting by number yields partitions in order of number, and the same
/// partitions as given.
pub proof fn sorted_by_number_sorts(ps: Seq<PartitionView>)
    ensures
        numbers_sorted(sorted_by_number(ps)),
        sorted_by_number(ps).to_multiset() == ps.to_multiset(),
    decreases ps.len(),
{
    broadcast use vstd::seq_lib::group_to_multiset_ensures;
    if ps.len() > 0 {
        sorted_by_number_sorts(ps.drop_last());
        lemma_insert_keeps_order(sorted_by_number(ps.drop_last()), ps.last());
        assert(ps.drop_last().push(ps.last()) == ps);
    }
}

/// Sorts partitions by number, keeping the order of equal numbers.
pub fn sort_by_number(parts: Vec<Partition>) -> (r: Vec<Partition>)
    ensures
        partition_views(r@) == sorted_by_number(partition_views(parts@)),
{
    let ghost ps = partition_views(parts@);
    let mut parts = parts;
    let mut rev: Vec<Partition> = Vec::new();
    while parts.len() > 0
        invariant
            ps.len() == parts.len() + rev.len(),
            forall|j: int| 0 <= j < parts.len() ==> #[trigger] parts@[j]@ == ps[j],
            forall|j: int| 0 <= j < rev.len() ==> #[trigger] rev@[j]@ == ps[ps.len() - 1 - j],
        decreases parts.len(),
    {
        let p = parts.pop().unwrap();
        rev.push(p);
    }
    let mut sorted: Vec<Partition> = Vec::new();
    let mut i: usize = 0;
    while rev.len() > 0
        invariant
            ps.len() == i + rev.len(),
            ps.len() <= usize::MAX,
            forall|j: int| 0 <= j < rev.len() ==> #[trigger] rev@[j]@ == ps[ps.len() - 1 - j],
            partition_views(sorted@) == sorted_by_number(ps.take(i as int)),
        decreases rev.len(),
    {
        let p = rev.pop().unwrap();
        assert(p@ == ps[i as int]);
        let mut k: usize = sorted.len();
        while k > 0 && sorted[k - 1].number() > p.number()
            invariant
                k <= sorted.len(),
                forall|j: int| k <= j < sorted.len() ==> #[trigger] sorted@[j]@.number > p@.number,
            decreases k,
        {
            k -= 1;
        }
        proof {
            let sv = partition_views(sorted@);
            assert forall|j: int| k <= j < sv.len() implies #[trigger] sv[j].number > p@.number by {
                assert(sv[j] == sorted@[j]@);
            }
            if k > 0 {
                assert(sv[k - 1] == sorted@[k - 1]@);
            }
            lemma_insert_by_number_at(sv, p@, k as int);
            assert(ps.take(i + 1).drop_last() == ps.take(i as int));
            assert(ps.take(i + 1).last() == p@);
        }
        let ghost sv0 = partition_views(sorted@);
        sorted.insert(k, p);
        assert(partition_views(sorted@) =~= sv0.insert(k as int, p@));
        i += 1;
    }
    assert(ps.take(ps.len() as int) == ps);
    sorted
}

/// The partitions of `disk` read from its directory entries, sorted by number.
pub fn partitions_for_disk(disk: &str, entries: Vec<PartitionEntry>) -> (r: Vec<Partition>)
    ensures
        partition_views(r@) == sorted_by_number(
            entry_partitions(disk@, entries@.map_values(|e: PartitionEntry| partition_entry_view(e))),
        ),
{
    let ghost es = entries@.map_values(|e: PartitionEntry| partition_entry_view(e));
    let mut found: Vec<Partition> = Vec::new();
    let mut i: usize = 0;
    while i < entries.len()
        invariant
            0 <= i <= entries.len(),
            es == entries@.map_values(|e: PartitionEntry| partition_entry_view(e)),
            partition_views(found@) == entry_partitions(disk@, es.take(i as int)),
        decreases entries.len() - i,
    {
        let e = &entries[i];
        assert(es.take(i + 1).drop_last() == es.take(i as int));
        assert(es.take(i + 1).last() == partition_entry_view(entries@[i as int]));
        let ghost before = partition_views(found@);
        let n = partition_number(disk, e.name.as_str());
        if starts_with(e.name.as_str(), disk) && !crate::text::str_equal(e.name.as_str(), disk) && n > 0 {
            match (&e.start, &e.size) {
                (Some(st), Some(sz)) => match (parse_file_number(st.as_str()), parse_file_number(sz.as_str())) {
                    (Some(a), Some(b)) => {
                        let p = Partition::new(n, a.wrapping_mul(512), b.wrapping_mul(512), None);
                        found.push(p);
                        assert(partition_views(found@) =~= before.push(p@));
                    },
                    _ => {},
                },
                _ => {},
            }
        }
        i += 1;
    }
    assert(es.take(entries.len() as int) == es);
    sort_by_number(found)
}

/// A disk's size in bytes from the text of its `size` file (in 512-byte
/// sectors); zero when it is missing or not a number.
pub open spec fn disk_size_of(size_field: Option<Seq<char>>) -> u64 {
    match size_field {
        Some(s) => match crate::tokens::parsed_u64(s) {
            Some(n) => wrapped_product(n, 512),
            None => 0,
        },
        None => 0,
    }
}

/// Everything `/sys/block` shows of one disk, as read.
#[derive(Debug)]
pub struct BlockDevice {
    pub name: String,
    pub model: Option<String>,
    pub vendor: Option<String>,
    pub serial: Option<String>,
    pub firmware_rev: Option<String>,
    pub size: Option<String>,
    pub device_link: Option<String>,
    pub entries: Vec<PartitionEntry>,
}

/// The disk that a block device stands for: its kernel name as id, its
/// identification attributes (never removable), its size and its partitions.
pub open spec fn disk_of_block_device(b: BlockDevice) -> DiskView {
    DiskView {
        id: b.name@,
        identification: IdentificationView {
            vendor: trimmed_option(attribute_value(b.vendor.deep_view())),
            model: trimmed_option(attribute_value(b.model.deep_view())),
            serial_number: attribute_value(b.serial.deep_view()),
            product_revision: attribute_value(b.firmware_rev.deep_view()),
            bus_type: bus_type_of_link(b.device_link.deep_view()),
            removable: false,
        },
        total_size: disk_size_of(attribute_value(b.size.deep_view())),
        partitions: sorted_by_number(
            entry_partitions(b.name@, b.entries@.map_values(|e: PartitionEntry| partition_entry_view(e))),
        ),
    }
}

/// Builds a disk from what `/sys/block` shows of it.
pub fn disk_from_block_device(b: BlockDevice) -> (r: Disk)
    ensures
        r@ == disk_of_block_device(b),
{
    let ghost b0 = b;
    let model = disk_field(b.model);
    let vendor = disk_field(b.vendor);
    let serial = disk_field(b.serial);
    let firmware_rev = disk_field(b.firmware_rev);
    let size_field = disk_field(b.size);
    let size: u64 = match &size_field {
        Some(s) => match crate::tokens::parse_u64(s.as_str()) {
            Some(n) => n.wrapping_mul(512),
            None => 0,
        },
        None => 0,
    };
    let bus_type = match &b.device_link {
        Some(t) => detect_bus_type(Some(t.as_str())),
        None => detect_bus_type(None),
    };
    let identification_data = IdentificationData::new(vendor, model, serial, firmware_rev, bus_type, false);
    let partitions = partitions_for_disk(b.name.as_str(), b.entries);
    Disk::new(b.name, identification_data, partitions, size)
}

} // verus!
