use crate::foruster_core::disk::{disk_views, Disk, DiskView};
use crate::foruster_core::partition::PartitionView;
use crate::foruster_core::volume::{Volume, VolumeView};
use crate::text::{chars_of, string_from_range};
use vstd::prelude::*;

verus! {

/// One stretch of a volume on a disk: the disk's number and the byte offset
/// where the stretch starts.
#[derive(Debug, Clone, Copy, PartialEq, Eq, Structural)]
pub struct DiskExtent {
    pub disk_number: u32,
    pub starting_offset: i64,
}

/// The index of the last disk in `ds` with number `n`, if any.
pub open spec fn last_disk_numbered(ds: Seq<DiskView>, n: u32) -> Option<int> {
    if exists|k: int| 0 <= k < ds.len() && ds[k].number == n {
        Some(choose|k: int| 0 <= k < ds.len() && ds[k].number == n && forall|j: int| k < j < ds.len() ==> ds[j].number != n)
    } else {
        None
    }
}

/// Puts volume `v` on every partition that starts at `offset`.
pub open spec fn attach_volume(ps: Seq<PartitionView>, offset: u64, v: VolumeView) -> Seq<PartitionView> {
    ps.map_values(|p: PartitionView| if p.starting_offset == offset { PartitionView { volume: Some(v), ..p } } else { p })
}

/// The effect of one extent of volume `v`: the last disk with the extent's
/// number gets `v` on the partitions that start at the extent's offset.
pub open spec fn apply_extent(ds: Seq<DiskView>, e: DiskExtent, v: VolumeView) -> Seq<DiskView> {
    match last_disk_numbered(ds, e.disk_number) {
        Some(k) => ds.update(k, DiskView { partitions: attach_volume(ds[k].partitions, e.starting_offset as u64, v), ..ds[k] }),
        None => ds,
    }
}

/// The effect of all extents of volume `v`, taken in order.
pub open spec fn apply_extents(ds: Seq<DiskView>, es: Seq<DiskExtent>, v: VolumeView) -> Seq<DiskView>
    decreases es.len(),
{
    if es.len() == 0 {
        ds
    } else {
        apply_extent(apply_extents(ds, es.drop_last(), v), es.last(), v)
    }
}

/// The effect of linking every volume, in order, through its extents; volumes
/// with an empty GUID path are passed over.
pub open spec fn link_all(ds: Seq<DiskView>, vs: Seq<VolumeView>, es: Seq<Seq<DiskExtent>>) -> Seq<DiskView>
    decreases vs.len(),
{
    if vs.len() == 0 || es.len() < vs.len() {
        ds
    } else {
        let before = link_all(ds, vs.drop_last(), es.take(vs.len() - 1));
        if vs.last().guid.len() == 0 {
            before
        } else {
            apply_extents(before, es[vs.len() - 1], vs.last())
        }
    }
}

/// The device path that opens a volume: its GUID path without the trailing
/// character, or `None` for an empty GUID path.
pub fn volume_device_path(volume: &Volume) -> (r: Option<String>)
    requires
        volume@.guid.len() > 0 ==> (volume@.guid.last() as u32) < 0x80,
    ensures
        volume@.guid.len() == 0 ==> r is None,
        volume@.guid.len() > 0 ==> (r matches Some(p) && p@ == volume@.guid.drop_last()),
{
    let cs = chars_of(volume.guid());
    if cs.len() == 0 {
        None
    } else {
        Some(string_from_range(&cs, 0, cs.len() - 1))
    }
}

/// Applies one extent of `volume` to `disks`.
fn link_extent(volume: &Volume, extent: DiskExtent, disks: &mut [Disk])
    ensures
        disk_views(final(disks)@) == apply_extent(disk_views(old(disks)@), extent, volume@),
{
    let ghost ds = disk_views(disks@);
    let mut k = disks.len();
    while k > 0
        invariant
            k <= disks.len(),
            ds == disk_views(disks@),
            forall|j: int| k <= j < disks.len() ==> disks@[j]@.number != extent.disk_number,
        ensures
            k <= disks.len(),
            ds == disk_views(disks@),
            forall|j: int| k <= j < disks.len() ==> disks@[j]@.number != extent.disk_number,
            k == 0 || disks@[k - 1]@.number == extent.disk_number,
        decreases k,
    {
        if disks[k - 1].number() == extent.disk_number {
            break;
        }
        k -= 1;
    }
    if k == 0 {
        assert(forall|j: int| 0 <= j < ds.len() ==> ds[j] == disks@[j]@);
        assert(last_disk_numbered(ds, extent.disk_number) is None);
        return;
    }
    assert(forall|j: int| 0 <= j < ds.len() ==> ds[j] == disks@[j]@);
    let idx = k - 1;
    proof {
        let w = choose|w: int| 0 <= w < ds.len() && ds[w].number == extent.disk_number && forall|j: int| w < j < ds.len() ==> ds[j].number != extent.disk_number;
        assert(ds[idx as int].number == extent.disk_number);
        if w < idx {
            assert(ds[idx as int].number != extent.disk_number);
        }
        if w > idx {
            assert(disks@[w]@.number != extent.disk_number);
        }
        assert(w == idx);
    }
    let offset = extent.starting_offset as u64;
    let ghost old_disk = disks@[idx as int]@;
    let parts = disks[idx].partitions_mut();
    let mut j: usize = 0;
    while j < parts.len()
        invariant
            0 <= j <= parts.len(),
            parts@.len() == old_disk.partitions.len(),
            forall|i: int| 0 <= i < j ==> #[trigger] parts@[i]@ == attach_volume(old_disk.partitions, offset, volume@)[i],
            forall|i: int| j <= i < parts@.len() ==> #[trigger] parts@[i]@ == old_disk.partitions[i],
        decreases parts.len() - j,
    {
        if parts[j].starting_offset() == offset {
            parts[j].set_volume(Some(volume.clone()));
        }
        j += 1;
    }
    assert(crate::foruster_core::partition::partition_views(parts@) =~= attach_volume(old_disk.partitions, offset, volume@));
    assert(disk_views(disks@) =~= apply_extent(ds, extent, volume@));
}

/// Applies every extent of `volume`, in order, to `disks`.
pub fn link_volume_extents(volume: &Volume, extents: &[DiskExtent], disks: &mut [Disk])
    ensures
        disk_views(final(disks)@) == apply_extents(disk_views(old(disks)@), extents@, volume@),
{
    let ghost ds = disk_views(disks@);
    let mut i: usize = 0;
    while i < extents.len()
        invariant
            0 <= i <= extents.len(),
            disk_views(disks@) == apply_extents(ds, extents@.take(i as int), volume@),
        decreases extents.len() - i,
    {
        link_extent(volume, extents[i], disks);
        assert(extents@.take(i + 1).drop_last() == extents@.take(i as int));
        i += 1;
    }
    assert(extents@.take(extents.len() as int) == extents@);
}

/// Puts every volume on the partitions where its extents start: for each
/// volume with a non-empty GUID path, `extents[i]` are the extents the system
/// reported for `volumes[i]`.
pub fn link_volume_to_partition(volumes: &[Volume], disks: &mut [Disk], extents: &[Vec<DiskExtent>])
    requires
        extents.len() == volumes.len(),
    ensures
        disk_views(final(disks)@) == link_all(
            disk_views(old(disks)@),
            volumes@.map_values(|v: Volume| v@),
            extents@.map_values(|e: Vec<DiskExtent>| e@),
        ),
{
    let ghost ds = disk_views(disks@);
    let ghost vs = volumes@.map_values(|v: Volume| v@);
    let ghost es = extents@.map_values(|e: Vec<DiskExtent>| e@);
    let mut i: usize = 0;
    while i < volumes.len()
        invariant
            0 <= i <= volumes.len(),
            extents.len() == volumes.len(),
            vs == volumes@.map_values(|v: Volume| v@),
            es == extents@.map_values(|e: Vec<DiskExtent>| e@),
            disk_views(disks@) == link_all(ds, vs.take(i as int), es.take(i as int)),
        decreases volumes.len() - i,
    {
        let ghost before = disk_views(disks@);
        assert(vs.take(i + 1).drop_last() == vs.take(i as int));
        assert(es.take(i + 1).take(i as int) == es.take(i as int));
        assert(vs.take(i + 1).last() == volumes@[i as int]@);
        assert(es.take(i + 1)[i as int] == extents@[i as int]@);
        if !volumes[i].guid().is_empty() {
            link_volume_extents(&volumes[i], extents[i].as_slice(), disks);
        }
        i += 1;
    }
    assert(vs.take(volumes.len() as int) == vs);
    assert(es.take(volumes.len() as int) == es);
}

} // verus!
