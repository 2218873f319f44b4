//! The disks of the machine as last read, and which volume a folder is on.
use crate::storage::disk::{disk_views, Disk, DiskView};
use crate::storage::partition::PartitionView;
use crate::storage::volume::{Volume, VolumeView};
use crate::text::{owned, path_has_base, path_starts_with};
use vstd::prelude::*;

verus! {

/// The disks as last read.
pub struct StorageAPI {
    cached_disks: Vec<Disk>,
}

impl View for StorageAPI {
    type V = Seq<DiskView>;

    closed spec fn view(&self) -> Seq<DiskView> {
        disk_views(self.cached_disks@)
    }
}

/// The volumes on partitions, in partition order.
pub open spec fn partition_volumes(ps: Seq<PartitionView>) -> Seq<VolumeView>
    decreases ps.len(),
{
    if ps.len() == 0 {
        Seq::empty()
    } else {
        partition_volumes(ps.drop_last()) + match ps.last().volume {
            Some(v) => seq![v],
            None => Seq::empty(),
        }
    }
}

/// The volumes on disks, disk after disk.
pub open spec fn disk_volumes(ds: Seq<DiskView>) -> Seq<VolumeView>
    decreases ds.len(),
{
    if ds.len() == 0 {
        Seq::empty()
    } else {
        disk_volumes(ds.drop_last()) + partition_volumes(ds.last().partitions)
    }
}

/// Some mount point of the volume is a base of `path`, component by component.
pub open spec fn volume_holds(v: VolumeView, path: Seq<char>) -> bool {
    exists|i: int| 0 <= i < v.mount_points.len() && path_has_base(path, #[trigger] v.mount_points[i])
}

/// The GUID of the first volume that holds `path`, if any.
pub open spec fn volume_holding(vs: Seq<VolumeView>, path: Seq<char>) -> Option<Seq<char>>
    decreases vs.len(),
{
    if vs.len() == 0 {
        None
    } else if volume_holds(vs[0], path) {
        Some(vs[0].guid)
    } else {
        volume_holding(vs.drop_first(), path)
    }
}

fn volumes_of(disks: &[Disk]) -> (r: Vec<&Volume>)
    ensures
        r@.map_values(|v: &Volume| v@) == disk_volumes(disk_views(disks@)),
{
    let ghost ds = disk_views(disks@);
    let mut r: Vec<&Volume> = Vec::new();
    let mut i: usize = 0;
    while i < disks.len()
        invariant
            0 <= i <= disks.len(),
            ds == disk_views(disks@),
            r@.map_values(|v: &Volume| v@) == disk_volumes(ds.take(i as int)),
        decreases disks.len() - i,
    {
        let parts = disks[i].partitions();
        let ghost start = r@.map_values(|v: &Volume| v@);
        let ghost ps = crate::storage::partition::partition_views(parts@);
        let mut k: usize = 0;
        while k < parts.len()
            invariant
                0 <= k <= parts.len(),
                ps == crate::storage::partition::partition_views(parts@),
                r@.map_values(|v: &Volume| v@) == start + partition_volumes(ps.take(k as int)),
            decreases parts.len() - k,
        {
            assert(ps.take(k + 1).drop_last() == ps.take(k as int));
            assert(ps.take(k + 1).last() == parts@[k as int]@);
            let ghost before = r@;
            match parts[k].volume() {
                Some(v) => {
                    r.push(v);
                    assert(r@.map_values(|v: &Volume| v@) =~= before.map_values(|v: &Volume| v@).push(v@));
                    assert(start + partition_volumes(ps.take(k + 1)) =~= start + partition_volumes(ps.take(k as int)) + seq![v@]);
                },
                None => {
                    assert(start + partition_volumes(ps.take(k + 1)) =~= start + partition_volumes(ps.take(k as int)));
                },
            }
            k += 1;
        }
        assert(ps.take(parts.len() as int) == ps);
        assert(ds.take(i + 1).drop_last() == ds.take(i as int));
        assert(ds.take(i + 1).last() == disks@[i as int]@);
        i += 1;
    }
    assert(ds.take(disks.len() as int) == ds);
    r
}

fn holds(v: &Volume, path: &str) -> (r: bool)
    ensures
        r == volume_holds(v@, path@),
{
    let mps = v.mount_points();
    let mut i: usize = 0;
    while i < mps.len()
        invariant
            0 <= i <= mps.len(),
            mps.deep_view() == v@.mount_points,
            forall|j: int| 0 <= j < i ==> !path_has_base(path@, #[trigger] v@.mount_points[j]),
        decreases mps.len() - i,
    {
        assert(v@.mount_points[i as int] == mps@[i as int]@);
        if path_starts_with(path, mps[i].as_str()) {
            return true;
        }
        i += 1;
    }
    false
}

impl StorageAPI {
    /// No disks read yet.
    pub fn new() -> (r: StorageAPI)
        ensures
            r@ == Seq::<DiskView>::empty(),
    {
        let r = StorageAPI { cached_disks: Vec::new() };
        assert(r@ =~= Seq::<DiskView>::empty());
        r
    }

    /// Keeps the disks just read.
    pub fn set_disks(&mut self, disks: Vec<Disk>)
        ensures
            final(self)@ == disk_views(disks@),
    {
        self.cached_disks = disks;
    }

    pub fn get_disks(&self) -> (r: &Vec<Disk>)
        ensures
            disk_views(r@) == self@,
    {
        &self.cached_disks
    }

    /// The GUID of the first volume, disk after disk and partition after
    /// partition, mounted on a folder that `path` lies in.
    pub fn get_volume_id(&self, path: String) -> (r: Option<String>)
        ensures
            r.deep_view() == volume_holding(disk_volumes(self@), path@),
    {
        let volumes = volumes_of(self.cached_disks.as_slice());
        let ghost vs = volumes@.map_values(|v: &Volume| v@);
        assert(vs.skip(0) == vs);
        let mut i: usize = 0;
        while i < volumes.len()
            invariant
                0 <= i <= volumes.len(),
                vs == volumes@.map_values(|v: &Volume| v@),
                vs == disk_volumes(self@),
                volume_holding(vs, path@) == volume_holding(vs.skip(i as int), path@),
            decreases volumes.len() - i,
        {
            let ghost rest = vs.skip(i as int);
            assert(rest[0] == volumes@[i as int]@);
            assert(rest.drop_first() == vs.skip(i + 1));
            if holds(volumes[i], path.as_str()) {
                return Some(owned(volumes[i].guid()));
            }
            i += 1;
        }
        None
    }
}

} // verus!
