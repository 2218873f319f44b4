//! Disks as the Linux storage layer finds them.
use super::identification_data::{display_name, IdentificationData, IdentificationView};
use super::partition::{partition_views, Partition, PartitionView};
use vstd::prelude::*;

verus! {

/// A disk: its kernel name, identification, partitions and size in bytes.
#[derive(Debug)]
pub struct Disk {
    id: String,
    identification_data: IdentificationData,
    partitions: Vec<Partition>,
    total_size: u64,
}

/// The contents of a [`Disk`].
pub ghost struct DiskView {
    pub id: Seq<char>,
    pub identification: IdentificationView,
    pub partitions: Seq<PartitionView>,
    pub total_size: u64,
}

impl View for Disk {
    type V = DiskView;

    closed spec fn view(&self) -> DiskView {
        DiskView {
            id: self.id@,
            identification: self.identification_data@,
            partitions: partition_views(self.partitions@),
            total_size: self.total_size,
        }
    }
}

/// The contents of a sequence of disks.
pub open spec fn disk_views(ds: Seq<Disk>) -> Seq<DiskView> {
    ds.map_values(|d: Disk| d@)
}

impl Disk {
    pub fn new(id: String, identification_data: IdentificationData, partitions: Vec<Partition>, total_size: u64) -> (r: Self)
        ensures
            r@ == (DiskView {
                id: id@,
                identification: identification_data@,
                partitions: partition_views(partitions@),
                total_size,
            }),
    {
        Self { id, identification_data, partitions, total_size }
    }

    pub fn id(&self) -> (r: &String)
        ensures
            r@ == self@.id,
    {
        &self.id
    }

    pub fn identification_data(&self) -> (r: &IdentificationData)
        ensures
            r@ == self@.identification,
    {
        &self.identification_data
    }

    pub fn partitions(&self) -> (r: &[Partition])
        ensures
            partition_views(r@) == self@.partitions,
    {
        self.partitions.as_slice()
    }

    pub fn total_size(&self) -> (r: u64)
        ensures
            r == self@.total_size,
    {
        self.total_size
    }

    /// Lends the partition list for changes; the rest of the disk stays as it is.
    pub fn partitions_mut(&mut self) -> (r: &mut Vec<Partition>)
        ensures
            partition_views(r@) == old(self)@.partitions,
            final(self)@ == (DiskView { partitions: partition_views(final(r)@), ..old(self)@ }),
    {
        &mut self.partitions
    }

    /// Vendor and model separated by a space, whichever is known, or `Unknown`.
    pub fn name(&self) -> (r: String)
        ensures
            r@ == display_name(self@.identification.vendor, self@.identification.model),
    {
        self.identification_data.display_name()
    }

    /// Replaces the partitions and keeps everything else.
    pub fn set_partitions(&mut self, partitions: Vec<Partition>)
        ensures
            final(self)@ == (DiskView { partitions: partition_views(partitions@), ..old(self)@ }),
    {
        self.partitions = partitions;
    }
}

} // verus!
