//! Puts the mounted volumes found by the kernel on the partitions of the disks.
use super::disk::{disk_views, Disk, DiskView};
use super::partition::{partition_views, PartitionView};
use super::volume::{Volume, VolumeView};
use crate::text::{
    char_is_alphabetic, chars_of, has_prefix, last_index, parse_u32, parsed_u32, rfind_char,
    starts_with, string_from_range, trim_start_by, unicode_alphabetic, leading_count,
};
use vstd::prelude::*;

verus! {

/// `anyhow::Error`, the error type of the storage layer's reports.
#[verifier::external_type_specification]
#[verifier::external_body]
pub struct ExAnyhowError(anyhow::Error);

/// The number of a parsed text, or zero when it is not a `u32`.
pub open spec fn number_or_zero(s: Seq<char>) -> u32 {
    match parsed_u32(s) {
        Some(n) => n,
        None => 0,
    }
}

/// The alphabetic-character predicate as a spec closure.
pub open spec fn alphabetic() -> spec_fn(char) -> bool {
    |c: char| unicode_alphabetic(c)
}

/// The partition number a volume's device name ends in: after the last `p`
/// for NVMe devices, after the leading letters for the others; zero when that
/// text is not a number.
pub open spec fn device_partition_number(device: Seq<char>) -> u32 {
    if has_prefix(device, "/dev/nvme"@) {
        match last_index(device, 'p') {
            Some(p) => number_or_zero(device.subrange(p + 1, device.len() as int)),
            None => number_or_zero(device),
        }
    } else {
        number_or_zero(trim_start_by(device, alphabetic()))
    }
}

/// The volume a partition numbered `number` ends up with after the volumes
/// `vols` were tried in order: the last one whose device number is `number`,
/// or `current` when none is.
pub open spec fn linked_volume(vols: Seq<(Seq<char>, VolumeView)>, number: u32, current: Option<VolumeView>) -> Option<VolumeView>
    decreases vols.len(),
{
    if vols.len() == 0 {
        current
    } else {
        let (device, v) = vols.last();
        let n = device_partition_number(device);
        if n != 0 && n == number {
            Some(v)
        } else {
            linked_volume(vols.drop_last(), number, current)
        }
    }
}

/// A disk after linking: each partition holds the volume [`linked_volume`] gives it.
pub open spec fn linked_disk(d: DiskView, vols: Seq<(Seq<char>, VolumeView)>) -> DiskView {
    DiskView {
        partitions: d.partitions.map_values(|p: PartitionView| PartitionView {
            volume: linked_volume(vols, p.number, p.volume),
            ..p
        }),
        ..d
    }
}

/// The contents of the (device, volume) pairs.
pub open spec fn volume_entries(vols: Seq<(String, Volume)>) -> Seq<(Seq<char>, VolumeView)> {
    vols.map_values(|e: (String, Volume)| (e.0@, e.1@))
}

/// The leading alphabetic characters of `cs`, counted.
fn count_leading_alphabetic(cs: &Vec<char>) -> (r: usize)
    ensures
        r == leading_count(cs@, alphabetic()),
        r <= cs.len(),
{
    let ghost p = alphabetic();
    let mut i: usize = 0;
    while i < cs.len() && char_is_alphabetic(cs[i])
        invariant
            0 <= i <= cs.len(),
            p == alphabetic(),
            forall|j: int| 0 <= j < i ==> unicode_alphabetic(#[trigger] cs@[j]),
        decreases cs.len() - i,
    {
        i += 1;
    }
    proof {
        lemma_leading_count_at(cs@, p, i as int);
    }
    i
}

proof fn lemma_leading_count_at(s: Seq<char>, p: spec_fn(char) -> bool, k: int)
    requires
        0 <= k <= s.len(),
        forall|j: int| 0 <= j < k ==> p(#[trigger] s[j]),
        k == s.len() || !p(s[k]),
    ensures
        leading_count(s, p) == k,
    decreases k,
{
    if k > 0 {
        let t = s.drop_first();
        assert forall|j: int| 0 <= j < k - 1 implies p(#[trigger] t[j]) by {
            assert(t[j] == s[j + 1]);
        }
        if k < s.len() {
            assert(t[k - 1] == s[k]);
        }
        lemma_leading_count_at(t, p, k - 1);
        assert(p(s[0]));
    } else if s.len() > 0 {
        assert(!p(s[0]));
    }
}

/// The partition number a volume's device name ends in (zero when there is none).
pub fn device_number(device: &str) -> (r: u32)
    ensures
        r == device_partition_number(device@),
{
    let cs = chars_of(device);
    let digits = if starts_with(device, "/dev/nvme") {
        match rfind_char(&cs, 'p') {
            Some(p) => string_from_range(&cs, p + 1, cs.len()),
            None => string_from_range(&cs, 0, cs.len()),
        }
    } else {
        let k = count_leading_alphabetic(&cs);
        string_from_range(&cs, k, cs.len())
    };
    assert(cs@.subrange(0, cs@.len() as int) == cs@);
    match parse_u32(digits.as_str()) {
        Some(n) => n,
        None => 0,
    }
}

/// Links the volumes to the partitions of one disk.
fn link_disk(disk: &mut Disk, volumes: &[(String, Volume)], numbers: &Vec<u32>)
    requires
        numbers.len() == volumes.len(),
        forall|j: int| 0 <= j < volumes.len() ==> numbers@[j] == device_partition_number(#[trigger] volumes@[j].0@),
    ensures
        final(disk)@ == linked_disk(old(disk)@, volume_entries(volumes@)),
{
    let ghost vs = volume_entries(volumes@);
    let ghost d0 = disk@;
    let parts = disk.partitions_mut();
    let ghost p0 = partition_views(parts@);
    let mut j: usize = 0;
    while j < volumes.len()
        invariant
            0 <= j <= volumes.len(),
            numbers.len() == volumes.len(),
            forall|q: int| 0 <= q < volumes.len() ==> numbers@[q] == device_partition_number(#[trigger] volumes@[q].0@),
            vs == volume_entries(volumes@),
            parts@.len() == p0.len(),
            forall|k: int| 0 <= k < parts@.len() ==> #[trigger] parts@[k]@ == (PartitionView {
                volume: linked_volume(vs.take(j as int), p0[k].number, p0[k].volume),
                ..p0[k]
            }),
        decreases volumes.len() - j,
    {
        let n = numbers[j];
        assert(vs.take(j + 1).drop_last() == vs.take(j as int));
        assert(vs.take(j + 1).last() == (volumes@[j as int].0@, volumes@[j as int].1@));
        let mut k: usize = 0;
        while k < parts.len()
            invariant
                0 <= k <= parts.len(),
                0 <= j < volumes.len(),
                n == device_partition_number(volumes@[j as int].0@),
                vs == volume_entries(volumes@),
                vs.take(j + 1).drop_last() == vs.take(j as int),
                vs.take(j + 1).last() == (volumes@[j as int].0@, volumes@[j as int].1@),
                parts@.len() == p0.len(),
                forall|q: int| 0 <= q < k ==> #[trigger] parts@[q]@ == (PartitionView {
                    volume: linked_volume(vs.take(j + 1), p0[q].number, p0[q].volume),
                    ..p0[q]
                }),
                forall|q: int| k <= q < parts@.len() ==> #[trigger] parts@[q]@ == (PartitionView {
                    volume: linked_volume(vs.take(j as int), p0[q].number, p0[q].volume),
                    ..p0[q]
                }),
            decreases parts.len() - k,
        {
            if n != 0 && n == parts[k].number() {
                let v = volumes[j].1.clone();
                parts[k].set_volume(Some(v));
            }
            k += 1;
        }
        j += 1;
    }
    assert(vs.take(volumes.len() as int) == vs);
    assert(partition_views(parts@) =~= d0.partitions.map_values(|p: PartitionView| PartitionView {
        volume: linked_volume(vs, p.number, p.volume),
        ..p
    }));
}

/// Puts each volume on the partitions whose number its device name ends in,
/// on every disk; `volumes` are the (device, volume) pairs in the order they
/// are tried, and a later pair wins. Never fails.
pub fn link_volumes_to_partitions(disks: &mut [Disk], volumes: &[(String, Volume)]) -> (r: Result<(), anyhow::Error>)
    ensures
        r is Ok,
        disk_views(final(disks)@) == disk_views(old(disks)@).map_values(
            |d: DiskView| linked_disk(d, volume_entries(volumes@)),
        ),
{
    let mut numbers: Vec<u32> = Vec::new();
    let mut q: usize = 0;
    while q < volumes.len()
        invariant
            0 <= q <= volumes.len(),
            numbers.len() == q,
            forall|j: int| 0 <= j < q ==> numbers@[j] == device_partition_number(#[trigger] volumes@[j].0@),
        decreases volumes.len() - q,
    {
        numbers.push(device_number(volumes[q].0.as_str()));
        q += 1;
    }
    let ghost ds = disk_views(disks@);
    let mut i: usize = 0;
    while i < disks.len()
        invariant
            0 <= i <= disks.len(),
            disks@.len() == ds.len(),
            numbers.len() == volumes.len(),
            forall|j: int| 0 <= j < volumes.len() ==> numbers@[j] == device_partition_number(#[trigger] volumes@[j].0@),
            forall|k: int| 0 <= k < i ==> #[trigger] disks@[k]@ == linked_disk(ds[k], volume_entries(volumes@)),
            forall|k: int| i <= k < disks@.len() ==> #[trigger] disks@[k]@ == ds[k],
        decreases disks.len() - i,
    {
        link_disk(&mut disks[i], volumes, &numbers);
        i += 1;
    }
    assert(disk_views(disks@) =~= ds.map_values(|d: DiskView| linked_disk(d, volume_entries(volumes@))));
    Ok(())
}

proof fn lemma_linked_volume_twice(vols: Seq<(Seq<char>, VolumeView)>, number: u32, current: Option<VolumeView>)
    ensures
        linked_volume(vols, number, linked_volume(vols, number, current)) == linked_volume(vols, number, current),
    decreases vols.len(),
{
    if vols.len() > 0 {
        lemma_linked_volume_twice(vols.drop_last(), number, current);
    }
}

/// Linking the same volumes a second time changes nothing.
pub proof fn linking_is_idempotent(d: DiskView, vols: Seq<(Seq<char>, VolumeView)>)
    ensures
        linked_disk(linked_disk(d, vols), vols) == linked_disk(d, vols),
{
    let once = linked_disk(d, vols);
    let twice = linked_disk(once, vols);
    assert forall|k: int| 0 <= k < d.partitions.len() implies #[trigger] twice.partitions[k] == once.partitions[k] by {
        let p = d.partitions[k];
        lemma_linked_volume_twice(vols, p.number, p.volume);
    }
    assert(twice.partitions =~= once.partitions);
}

} // verus!
