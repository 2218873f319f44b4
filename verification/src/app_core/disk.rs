//! Disks as the application shows them.
use crate::foruster_core::partition::{partition_views, Partition, PartitionView};
use crate::storage::identification_data::{display_name, IdentificationData, IdentificationView};
use vstd::prelude::*;

verus! {

/// A disk: its number, identification, partitions and size in bytes.
#[derive(Debug)]
pub struct Disk {
    number: u32,
    identification_data: IdentificationData,
    partitions: Vec<Partition>,
    total_size: u64,
}

/// The contents of a [`Disk`].
pub ghost struct DiskView {
    pub number: u32,
    pub identification: IdentificationView,
    pub partitions: Seq<PartitionView>,
    pub total_size: u64,
}

impl View for Disk {
    type V = DiskView;

    closed spec fn view(&self) -> DiskView {
        DiskView {
            number: self.number,
            identification: self.identification_data@,
            partitions: partition_views(self.partitions@),
            total_size: self.total_size,
        }
    }
}

impl Disk {
    pub fn new(number: u32, identification_data: IdentificationData, partitions: Vec<Partition>, total_size: u64) -> (r: Self)
        ensures
            r@ == (DiskView {
                number,
                identification: identification_data@,
                partitions: partition_views(partitions@),
                total_size,
            }),
    {
        Self { number, identification_data, partitions, total_size }
    }

    pub fn number(&self) -> (r: u32)
        ensures
            r == self@.number,
    {
        self.number
    }

    pub fn identification_data(&self) -> (r: &IdentificationData)
        ensures
            r@ == self@.identification,
    {
        &self.identification_data
    }

    pub fn partitions(&self) -> (r: &[Partition])
        ensures
            partition_views(r@) == self@.partitions,
    {
        self.partitions.as_slice()
    }

    pub fn total_size(&self) -> (r: u64)
        ensures
            r == self@.total_size,
    {
        self.total_size
    }

    /// Lends the partition list for changes; the rest of the disk stays as it is.
    pub fn partitions_mut(&mut self) -> (r: &mut Vec<Partition>)
        ensures
            partition_views(r@) == old(self)@.partitions,
            final(self)@ == (DiskView { partitions: partition_views(final(r)@), ..old(self)@ }),
    {
        &mut self.partitions
    }

    /// Vendor and model separated by a space, whichever is known, or `Unknown`.
    pub fn name(&self) -> (r: String)
        ensures
            r@ == display_name(self@.identification.vendor, self@.identification.model),
    {
        self.identification_data.display_name()
    }
}

} // verus!
