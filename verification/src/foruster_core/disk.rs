use super::identification_data::IdentificationData;
use super::partition::{partition_views, Partition, PartitionView};
use vstd::prelude::*;

verus! {

/// A physical disk: its number, identification and partitions.
#[derive(Debug)]
pub struct Disk {
    number: u32,
    identification_data: IdentificationData,
    partitions: Vec<Partition>,
}

/// The contents of a [`Disk`].
pub ghost struct DiskView {
    pub number: u32,
    pub identification_data: IdentificationData,
    pub partitions: Seq<PartitionView>,
}

impl View for Disk {
    type V = DiskView;

    closed spec fn view(&self) -> DiskView {
        DiskView {
            number: self.number,
            identification_data: self.identification_data,
            partitions: partition_views(self.partitions@),
        }
    }
}

impl Disk {
    pub fn new(number: u32, identification_data: IdentificationData, partitions: Vec<Partition>) -> (r: Self)
        ensures
            r@ == (DiskView { number, identification_data, partitions: partition_views(partitions@) }),
    {
        Self { number, identification_data, partitions }
    }

    pub fn number(&self) -> (r: u32)
        ensures
            r == self@.number,
    {
        self.number
    }

    pub fn identification_data(&self) -> (r: &IdentificationData)
        ensures
            *r == self@.identification_data,
    {
        &self.identification_data
    }

    pub fn partitions(&self) -> (r: &[Partition])
        ensures
            partition_views(r@) == self@.partitions,
    {
        self.partitions.as_slice()
    }

    /// Lends the partition list for changes; the rest of the disk stays as it is.
    pub fn partitions_mut(&mut self) -> (r: &mut Vec<Partition>)
        ensures
            partition_views(r@) == old(self)@.partitions,
            final(self)@ == (DiskView { partitions: partition_views(final(r)@), ..old(self)@ }),
    {
        &mut self.partitions
    }
}

/// The contents of a sequence of disks.
pub open spec fn disk_views(ds: Seq<Disk>) -> Seq<DiskView> {
    ds.map_values(|d: Disk| d@)
}

} // verus!
