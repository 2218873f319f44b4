use crate::text::owned;
use vstd::prelude::*;

verus! {

/// The bus a storage device is attached through, as Windows reports it.
#[derive(Debug, Clone, Copy, PartialEq, Eq, Structural)]
pub enum StorageBusType {
    Scsi,
    Atapi,
    Ata,
    FireWire1394,
    Ssa,
    Fibre,
    Usb,
    Raid,
    Iscsi,
    Sas,
    Sata,
    Sd,
    Mmc,
    Virtual,
    FileBackedVirtual,
    Spaces,
    Nvme,
    Scm,
    BusTypeMaxReserved,
    Unknown,
}

/// The bus type that a raw bus code stands for; every unlisted code is `Unknown`.
pub open spec fn bus_type_of(value: u8) -> StorageBusType {
    if value == 0x01 {
        StorageBusType::Scsi
    } else if value == 0x02 {
        StorageBusType::Atapi
    } else if value == 0x03 {
        StorageBusType::Ata
    } else if value == 0x04 {
        StorageBusType::FireWire1394
    } else if value == 0x05 {
        StorageBusType::Ssa
    } else if value == 0x06 {
        StorageBusType::Fibre
    } else if value == 0x07 {
        StorageBusType::Usb
    } else if value == 0x08 {
        StorageBusType::Raid
    } else if value == 0x09 {
        StorageBusType::Iscsi
    } else if value == 0x0A {
        StorageBusType::Sas
    } else if value == 0x0B {
        StorageBusType::Sata
    } else if value == 0x0C {
        StorageBusType::Sd
    } else if value == 0x0D {
        StorageBusType::Mmc
    } else if value == 0x0E {
        StorageBusType::Virtual
    } else if value == 0x0F {
        StorageBusType::FileBackedVirtual
    } else if value == 0x10 {
        StorageBusType::Spaces
    } else if value == 0x11 {
        StorageBusType::Nvme
    } else if value == 0x12 {
        StorageBusType::Scm
    } else if value == 0x7F {
        StorageBusType::BusTypeMaxReserved
    } else {
        StorageBusType::Unknown
    }
}

/// The discriminant of each bus type (`Unknown` follows `BusTypeMaxReserved`).
pub open spec fn bus_type_code(b: StorageBusType) -> u8 {
    match b {
        StorageBusType::Scsi => 0x01,
        StorageBusType::Atapi => 0x02,
        StorageBusType::Ata => 0x03,
        StorageBusType::FireWire1394 => 0x04,
        StorageBusType::Ssa => 0x05,
        StorageBusType::Fibre => 0x06,
        StorageBusType::Usb => 0x07,
        StorageBusType::Raid => 0x08,
        StorageBusType::Iscsi => 0x09,
        StorageBusType::Sas => 0x0A,
        StorageBusType::Sata => 0x0B,
        StorageBusType::Sd => 0x0C,
        StorageBusType::Mmc => 0x0D,
        StorageBusType::Virtual => 0x0E,
        StorageBusType::FileBackedVirtual => 0x0F,
        StorageBusType::Spaces => 0x10,
        StorageBusType::Nvme => 0x11,
        StorageBusType::Scm => 0x12,
        StorageBusType::BusTypeMaxReserved => 0x7F,
        StorageBusType::Unknown => 0x80,
    }
}

/// The display name of each bus type.
pub open spec fn bus_type_name(b: StorageBusType) -> Seq<char> {
    match b {
        StorageBusType::Scsi => "SCSI"@,
        StorageBusType::Atapi => "ATAPI"@,
        StorageBusType::Ata => "ATA"@,
        StorageBusType::FireWire1394 => "1394"@,
        StorageBusType::Ssa => "SSA"@,
        StorageBusType::Fibre => "Fibre"@,
        StorageBusType::Usb => "USB"@,
        StorageBusType::Raid => "RAID"@,
        StorageBusType::Iscsi => "iSCSI"@,
        StorageBusType::Sas => "SAS"@,
        StorageBusType::Sata => "SATA"@,
        StorageBusType::Sd => "SD"@,
        StorageBusType::Mmc => "MMC"@,
        StorageBusType::Virtual => "VIRTUAL"@,
        StorageBusType::FileBackedVirtual => "FileBackedVirtual"@,
        StorageBusType::Spaces => "Spaces"@,
        StorageBusType::Nvme => "NVMe"@,
        StorageBusType::Scm => "SCM"@,
        StorageBusType::BusTypeMaxReserved => "BusTypeMaxReserved"@,
        StorageBusType::Unknown => "UNKNOWN"@,
    }
}

impl StorageBusType {
    /// The bus type that a raw bus code stands for.
    pub fn from_code(value: u8) -> (r: StorageBusType)
        ensures
            r == bus_type_of(value),
    {
        if value == 0x01 {
            StorageBusType::Scsi
        } else if value == 0x02 {
            StorageBusType::Atapi
        } else if value == 0x03 {
            StorageBusType::Ata
        } else if value == 0x04 {
            StorageBusType::FireWire1394
        } else if value == 0x05 {
            StorageBusType::Ssa
        } else if value == 0x06 {
            StorageBusType::Fibre
        } else if value == 0x07 {
            StorageBusType::Usb
        } else if value == 0x08 {
            StorageBusType::Raid
        } else if value == 0x09 {
            StorageBusType::Iscsi
        } else if value == 0x0A {
            StorageBusType::Sas
        } else if value == 0x0B {
            StorageBusType::Sata
        } else if value == 0x0C {
            StorageBusType::Sd
        } else if value == 0x0D {
            StorageBusType::Mmc
        } else if value == 0x0E {
            StorageBusType::Virtual
        } else if value == 0x0F {
            StorageBusType::FileBackedVirtual
        } else if value == 0x10 {
            StorageBusType::Spaces
        } else if value == 0x11 {
            StorageBusType::Nvme
        } else if value == 0x12 {
            StorageBusType::Scm
        } else if value == 0x7F {
            StorageBusType::BusTypeMaxReserved
        } else {
            StorageBusType::Unknown
        }
    }

    /// The discriminant of this bus type.
    pub fn code(&self) -> (r: u8)
        ensures
            r == bus_type_code(*self),
    {
        match self {
            StorageBusType::Scsi => 0x01,
            StorageBusType::Atapi => 0x02,
            StorageBusType::Ata => 0x03,
            StorageBusType::FireWire1394 => 0x04,
            StorageBusType::Ssa => 0x05,
            StorageBusType::Fibre => 0x06,
            StorageBusType::Usb => 0x07,
            StorageBusType::Raid => 0x08,
            StorageBusType::Iscsi => 0x09,
            StorageBusType::Sas => 0x0A,
            StorageBusType::Sata => 0x0B,
            StorageBusType::Sd => 0x0C,
            StorageBusType::Mmc => 0x0D,
            StorageBusType::Virtual => 0x0E,
            StorageBusType::FileBackedVirtual => 0x0F,
            StorageBusType::Spaces => 0x10,
            StorageBusType::Nvme => 0x11,
            StorageBusType::Scm => 0x12,
            StorageBusType::BusTypeMaxReserved => 0x7F,
            StorageBusType::Unknown => 0x80,
        }
    }

    /// The display name of this bus type.
    pub fn to_string(&self) -> (r: String)
        ensures
            r@ == bus_type_name(*self),
    {
        match self {
            StorageBusType::Scsi => owned("SCSI"),
            StorageBusType::Atapi => owned("ATAPI"),
            StorageBusType::Ata => owned("ATA"),
            StorageBusType::FireWire1394 => owned("1394"),
            StorageBusType::Ssa => owned("SSA"),
            StorageBusType::Fibre => owned("Fibre"),
            StorageBusType::Usb => owned("USB"),
            StorageBusType::Raid => owned("RAID"),
            StorageBusType::Iscsi => owned("iSCSI"),
            StorageBusType::Sas => owned("SAS"),
            StorageBusType::Sata => owned("SATA"),
            StorageBusType::Sd => owned("SD"),
            StorageBusType::Mmc => owned("MMC"),
            StorageBusType::Virtual => owned("VIRTUAL"),
            StorageBusType::FileBackedVirtual => owned("FileBackedVirtual"),
            StorageBusType::Spaces => owned("Spaces"),
            StorageBusType::Nvme => owned("NVMe"),
            StorageBusType::Scm => owned("SCM"),
            StorageBusType::BusTypeMaxReserved => owned("BusTypeMaxReserved"),
            StorageBusType::Unknown => owned("UNKNOWN"),
        }
    }
}

impl From<u8> for StorageBusType {
    fn from(value: u8) -> (r: StorageBusType) {
        StorageBusType::from_code(value)
    }
}

impl vstd::std_specs::convert::FromSpecImpl<u8> for StorageBusType {
    open spec fn obeys_from_spec() -> bool {
        true
    }

    open spec fn from_spec(value: u8) -> StorageBusType {
        bus_type_of(value)
    }
}

/// Decoding the discriminant of a bus type gives the bus type back, for every
/// bus type, `Unknown` included.
pub proof fn bus_type_code_round_trip(b: StorageBusType)
    ensures
        bus_type_of(bus_type_code(b)) == b,
{
}

/// Every code that names a bus type other than `Unknown` is that bus type's
/// discriminant.
pub proof fn bus_type_of_known_code(value: u8)
    requires
        bus_type_of(value) != StorageBusType::Unknown,
    ensures
        bus_type_code(bus_type_of(value)) == value,
{
}

} // verus!
