use super::volume::{volume_view, Volume, VolumeView};
use vstd::prelude::*;

verus! {

/// A GPT partition attribute flag.
#[derive(Debug, Clone, Copy, PartialEq, Eq, Structural)]
pub enum GPTPartitionAttribute {
    LegacyBiosBootable,
    NoBlockIoProtocol,
    PlatformRequired,
    BasicDataDax,
    BasicDataHidden,
    BasicDataNoDriveLetter,
    BasicDataOffline,
    BasicDataReadOnly,
    BasicDataService,
    BasicDataShadowCopy,
    SpacesNoMetadata,
}

/// The partitioning scheme of a partition and what that scheme records of it.
#[derive(Debug, Clone)]
pub enum PartitionType {
    MBR { bootable: bool, partition_type: u8 },
    GPT { partition_guid: String, partition_name: String, attributes: Vec<GPTPartitionAttribute> },
}

/// A partition of a disk and the volume it holds, if any.
#[derive(Debug, Clone)]
pub struct Partition {
    number: u32,
    starting_offset: u64,
    size: u64,
    volume: Option<Volume>,
    partition_type: PartitionType,
}

/// The contents of a [`Partition`].
pub ghost struct PartitionView {
    pub number: u32,
    pub starting_offset: u64,
    pub size: u64,
    pub volume: Option<VolumeView>,
    pub partition_type: PartitionType,
}

impl View for Partition {
    type V = PartitionView;

    closed spec fn view(&self) -> PartitionView {
        PartitionView {
            number: self.number,
            starting_offset: self.starting_offset,
            size: self.size,
            volume: volume_view(self.volume),
            partition_type: self.partition_type,
        }
    }
}

impl Partition {
    pub fn new(number: u32, starting_offset: u64, size: u64, volume: Option<Volume>, partition_type: PartitionType) -> (r: Self)
        ensures
            r@ == (PartitionView { number, starting_offset, size, volume: volume_view(volume), partition_type }),
    {
        Self { number, starting_offset, size, volume, partition_type }
    }

    pub fn number(&self) -> (r: u32)
        ensures
            r == self@.number,
    {
        self.number
    }

    pub fn starting_offset(&self) -> (r: u64)
        ensures
            r == self@.starting_offset,
    {
        self.starting_offset
    }

    pub fn size(&self) -> (r: u64)
        ensures
            r == self@.size,
    {
        self.size
    }

    pub fn partition_type(&self) -> (r: &PartitionType)
        ensures
            *r == self@.partition_type,
    {
        &self.partition_type
    }

    pub fn volume(&self) -> (r: &Option<Volume>)
        ensures
            volume_view(*r) == self@.volume,
    {
        &self.volume
    }

    /// Replaces the volume and keeps everything else.
    pub fn set_volume(&mut self, volume: Option<Volume>)
        ensures
            final(self)@ == (PartitionView { volume: volume_view(volume), ..old(self)@ }),
    {
        self.volume = volume;
    }
}

/// The contents of a sequence of partitions.
pub open spec fn partition_views(ps: Seq<Partition>) -> Seq<PartitionView> {
    ps.map_values(|p: Partition| p@)
}

} // verus!
