//! Partitions of a disk and the volume each holds.
use super::volume::{volume_view, Volume, VolumeView};
use vstd::prelude::*;

verus! {

/// A partition: its number on the disk, where it starts, its size and the
/// volume it holds, if any.
#[derive(Debug)]
pub struct Partition {
    number: u32,
    starting_offset: u64,
    size: u64,
    volume: Option<Volume>,
}

/// The contents of a [`Partition`].
pub ghost struct PartitionView {
    pub number: u32,
    pub starting_offset: u64,
    pub size: u64,
    pub volume: Option<VolumeView>,
}

impl View for Partition {
    type V = PartitionView;

    closed spec fn view(&self) -> PartitionView {
        PartitionView {
            number: self.number,
            starting_offset: self.starting_offset,
            size: self.size,
            volume: volume_view(self.volume),
        }
    }
}

/// The contents of a sequence of partitions.
pub open spec fn partition_views(ps: Seq<Partition>) -> Seq<PartitionView> {
    ps.map_values(|p: Partition| p@)
}

impl Clone for Partition {
    fn clone(&self) -> (r: Self)
        ensures
            r@ == self@,
    {
        let volume = match &self.volume {
            Some(v) => Some(v.clone()),
            None => None,
        };
        Partition { number: self.number, starting_offset: self.starting_offset, size: self.size, volume }
    }
}

impl Partition {
    pub fn new(number: u32, starting_offset: u64, size: u64, volume: Option<Volume>) -> (r: Self)
        ensures
            r@ == (PartitionView { number, starting_offset, size, volume: volume_view(volume) }),
    {
        Self { number, starting_offset, size, volume }
    }

    pub fn number(&self) -> (r: u32)
        ensures
            r == self@.number,
    {
        self.number
    }

    pub fn starting_offset(&self) -> (r: u64)
        ensures
            r == self@.starting_offset,
    {
        self.starting_offset
    }

    pub fn size(&self) -> (r: u64)
        ensures
            r == self@.size,
    {
        self.size
    }

    pub fn volume(&self) -> (r: &Option<Volume>)
        ensures
            volume_view(*r) == self@.volume,
    {
        &self.volume
    }

    /// Replaces the volume and keeps everything else.
    pub fn set_volume(&mut self, volume: Option<Volume>)
        ensures
            final(self)@ == (PartitionView { volume: volume_view(volume), ..old(self)@ }),
    {
        self.volume = volume;
    }
}

} // verus!
