//! The storage devices of a Linux machine, put together from what the kernel
//! reports of its block devices and of its mounted volumes.
use super::disk::{disk_views, Disk, DiskView};
use super::driver::{link_volumes_to_partitions, linked_disk};
use super::sysfs::{disk_from_block_device, disk_of_block_device, BlockDevice};
use super::volume_table::VolumeTable;
use vstd::prelude::*;

verus! {

/// The disks the block devices stand for, each with the volumes of `volumes`
/// put on its partitions.
pub open spec fn linked_devices(blocks: Seq<BlockDevice>, volumes: Seq<(Seq<char>, super::volume::VolumeView)>) -> Seq<DiskView> {
    blocks.map_values(|b: BlockDevice| linked_disk(disk_of_block_device(b), volumes))
}

/// Every disk of `blocks`, in order, with the mounted volumes of `volumes`
/// linked to its partitions. Never fails.
pub fn storage_devices(blocks: Vec<BlockDevice>, volumes: &VolumeTable) -> (r: Result<Vec<Disk>, anyhow::Error>)
    ensures
        r matches Ok(ds) && disk_views(ds@) == linked_devices(blocks@, volumes@),
{
    let ghost bs = blocks@;
    let mut disks: Vec<Disk> = Vec::new();
    let mut rest = blocks;
    while rest.len() > 0
        invariant
            disks.len() + rest.len() == bs.len(),
            rest@ == bs.subrange(disks.len() as int, bs.len() as int),
            forall|k: int| 0 <= k < disks.len() ==> #[trigger] disks@[k]@ == disk_of_block_device(bs[k]),
        decreases rest.len(),
    {
        let b = rest.remove(0);
        disks.push(disk_from_block_device(b));
        assert(rest@ =~= bs.subrange(disks.len() as int, bs.len() as int));
    }
    let ghost before = disk_views(disks@);
    assert(before =~= bs.map_values(|b: BlockDevice| disk_of_block_device(b)));
    let linked = link_volumes_to_partitions(disks.as_mut_slice(), volumes.entries());
    match linked {
        Ok(()) => {
            assert(disk_views(disks@) =~= linked_devices(bs, volumes@));
            Ok(disks)
        },
        Err(e) => Err(e),
    }
}

} // verus!
