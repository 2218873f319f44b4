use crate::text::{owned, str_equal};
use vstd::prelude::*;

verus! {

/// A filesystem type, named exactly as Windows reports it.
#[allow(non_camel_case_types)]
#[derive(Debug, Clone, Copy, PartialEq, Eq, Structural)]
pub enum Filesystem {
    FAT32,
    NTFS,
    EXT4,
    XFS,
    BTRFS,
    ZFS,
    APFS,
    HFS,
    UFS,
    EXFAT,
    FAT16,
    FAT12,
    FAT,
    EXT3,
    EXT2,
    REFS,
    JFS,
    NILFS,
    F2FS,
    UNKNOWN,
}

/// The filesystem whose name is exactly `s`; every other name is `UNKNOWN`.
pub open spec fn filesystem_named(s: Seq<char>) -> Filesystem {
    if s == "FAT32"@ {
        Filesystem::FAT32
    } else if s == "NTFS"@ {
        Filesystem::NTFS
    } else if s == "EXT4"@ {
        Filesystem::EXT4
    } else if s == "XFS"@ {
        Filesystem::XFS
    } else if s == "BTRFS"@ {
        Filesystem::BTRFS
    } else if s == "ZFS"@ {
        Filesystem::ZFS
    } else if s == "APFS"@ {
        Filesystem::APFS
    } else if s == "HFS"@ {
        Filesystem::HFS
    } else if s == "UFS"@ {
        Filesystem::UFS
    } else if s == "EXFAT"@ {
        Filesystem::EXFAT
    } else if s == "FAT16"@ {
        Filesystem::FAT16
    } else if s == "FAT12"@ {
        Filesystem::FAT12
    } else if s == "FAT"@ {
        Filesystem::FAT
    } else if s == "EXT3"@ {
        Filesystem::EXT3
    } else if s == "EXT2"@ {
        Filesystem::EXT2
    } else if s == "REFS"@ {
        Filesystem::REFS
    } else if s == "JFS"@ {
        Filesystem::JFS
    } else if s == "NILFS"@ {
        Filesystem::NILFS
    } else if s == "F2FS"@ {
        Filesystem::F2FS
    } else {
        Filesystem::UNKNOWN
    }
}

/// The display name of each filesystem.
pub open spec fn filesystem_name(f: Filesystem) -> Seq<char> {
    match f {
        Filesystem::FAT32 => "FAT32"@,
        Filesystem::NTFS => "NTFS"@,
        Filesystem::EXT4 => "EXT4"@,
        Filesystem::XFS => "XFS"@,
        Filesystem::BTRFS => "BTRFS"@,
        Filesystem::ZFS => "ZFS"@,
        Filesystem::APFS => "APFS"@,
        Filesystem::HFS => "HFS"@,
        Filesystem::UFS => "UFS"@,
        Filesystem::EXFAT => "EXFAT"@,
        Filesystem::FAT16 => "FAT16"@,
        Filesystem::FAT12 => "FAT12"@,
        Filesystem::FAT => "FAT"@,
        Filesystem::EXT3 => "EXT3"@,
        Filesystem::EXT2 => "EXT2"@,
        Filesystem::REFS => "REFS"@,
        Filesystem::JFS => "JFS"@,
        Filesystem::NILFS => "NILFS"@,
        Filesystem::F2FS => "F2FS"@,
        Filesystem::UNKNOWN => "Unknown"@,
    }
}

impl Filesystem {
    /// The filesystem whose name is exactly `filesystem` (case matters).
    pub fn from_name(filesystem: &str) -> (r: Filesystem)
        ensures
            r == filesystem_named(filesystem@),
    {
        if str_equal(filesystem, "FAT32") {
            Filesystem::FAT32
        } else if str_equal(filesystem, "NTFS") {
            Filesystem::NTFS
        } else if str_equal(filesystem, "EXT4") {
            Filesystem::EXT4
        } else if str_equal(filesystem, "XFS") {
            Filesystem::XFS
        } else if str_equal(filesystem, "BTRFS") {
            Filesystem::BTRFS
        } else if str_equal(filesystem, "ZFS") {
            Filesystem::ZFS
        } else if str_equal(filesystem, "APFS") {
            Filesystem::APFS
        } else if str_equal(filesystem, "HFS") {
            Filesystem::HFS
        } else if str_equal(filesystem, "UFS") {
            Filesystem::UFS
        } else if str_equal(filesystem, "EXFAT") {
            Filesystem::EXFAT
        } else if str_equal(filesystem, "FAT16") {
            Filesystem::FAT16
        } else if str_equal(filesystem, "FAT12") {
            Filesystem::FAT12
        } else if str_equal(filesystem, "FAT") {
            Filesystem::FAT
        } else if str_equal(filesystem, "EXT3") {
            Filesystem::EXT3
        } else if str_equal(filesystem, "EXT2") {
            Filesystem::EXT2
        } else if str_equal(filesystem, "REFS") {
            Filesystem::REFS
        } else if str_equal(filesystem, "JFS") {
            Filesystem::JFS
        } else if str_equal(filesystem, "NILFS") {
            Filesystem::NILFS
        } else if str_equal(filesystem, "F2FS") {
            Filesystem::F2FS
        } else {
            Filesystem::UNKNOWN
        }
    }

    /// The filesystem of an optional name; no name is `UNKNOWN`.
    pub fn from_option(filesystem: Option<String>) -> (r: Filesystem)
        ensures
            r == match filesystem {
                Some(fs) => filesystem_named(fs@),
                None => Filesystem::UNKNOWN,
            },
    {
        match filesystem {
            Some(fs) => Filesystem::from_name(fs.as_str()),
            None => Filesystem::UNKNOWN,
        }
    }

    /// The display name of this filesystem.
    pub fn to_string(&self) -> (r: String)
        ensures
            r@ == filesystem_name(*self),
    {
        match self {
            Filesystem::FAT32 => owned("FAT32"),
            Filesystem::NTFS => owned("NTFS"),
            Filesystem::EXT4 => owned("EXT4"),
            Filesystem::XFS => owned("XFS"),
            Filesystem::BTRFS => owned("BTRFS"),
            Filesystem::ZFS => owned("ZFS"),
            Filesystem::APFS => owned("APFS"),
            Filesystem::HFS => owned("HFS"),
            Filesystem::UFS => owned("UFS"),
            Filesystem::EXFAT => owned("EXFAT"),
            Filesystem::FAT16 => owned("FAT16"),
            Filesystem::FAT12 => owned("FAT12"),
            Filesystem::FAT => owned("FAT"),
            Filesystem::EXT3 => owned("EXT3"),
            Filesystem::EXT2 => owned("EXT2"),
            Filesystem::REFS => owned("REFS"),
            Filesystem::JFS => owned("JFS"),
            Filesystem::NILFS => owned("NILFS"),
            Filesystem::F2FS => owned("F2FS"),
            Filesystem::UNKNOWN => owned("Unknown"),
        }
    }
}

impl From<String> for Filesystem {
    fn from(filesystem: String) -> (r: Filesystem) {
        Filesystem::from_name(filesystem.as_str())
    }
}

impl vstd::std_specs::convert::FromSpecImpl<String> for Filesystem {
    open spec fn obeys_from_spec() -> bool {
        true
    }

    open spec fn from_spec(filesystem: String) -> Filesystem {
        filesystem_named(filesystem@)
    }
}

impl From<Option<String>> for Filesystem {
    fn from(filesystem: Option<String>) -> (r: Filesystem) {
        Filesystem::from_option(filesystem)
    }
}

impl vstd::std_specs::convert::FromSpecImpl<Option<String>> for Filesystem {
    open spec fn obeys_from_spec() -> bool {
        true
    }

    open spec fn from_spec(filesystem: Option<String>) -> Filesystem {
        match filesystem {
            Some(fs) => filesystem_named(fs@),
            None => Filesystem::UNKNOWN,
        }
    }
}

/// Reading back the display name of a filesystem gives that filesystem.
pub proof fn filesystem_name_round_trip(f: Filesystem)
    ensures
        filesystem_named(filesystem_name(f)) == f,
{
    match f {
        Filesystem::FAT32 => {
            reveal_strlit("FAT32");
            reveal_strlit("NTFS");
            assert("FAT32"@.len() != "NTFS"@.len());
            reveal_strlit("EXT4");
            assert("FAT32"@.len() != "EXT4"@.len());
            reveal_strlit("XFS");
            assert("FAT32"@.len() != "XFS"@.len());
            reveal_strlit("BTRFS");
            assert("FAT32"@[0] != "BTRFS"@[0]);
            reveal_strlit("ZFS");
            assert("FAT32"@.len() != "ZFS"@.len());
            reveal_strlit("APFS");
            assert("FAT32"@.len() != "APFS"@.len());
            reveal_strlit("HFS");
            assert("FAT32"@.len() != "HFS"@.len());
            reveal_strlit("UFS");
            assert("FAT32"@.len() != "UFS"@.len());
            reveal_strlit("EXFAT");
            assert("FAT32"@[0] != "EXFAT"@[0]);
            reveal_strlit("FAT16");
            assert("FAT32"@[3] != "FAT16"@[3]);
            reveal_strlit("FAT12");
            assert("FAT32"@[3] != "FAT12"@[3]);
            reveal_strlit("FAT");
            assert("FAT32"@.len() != "FAT"@.len());
            reveal_strlit("EXT3");
            assert("FAT32"@.len() != "EXT3"@.len());
            reveal_strlit("EXT2");
            assert("FAT32"@.len() != "EXT2"@.len());
            reveal_strlit("REFS");
            assert("FAT32"@.len() != "REFS"@.len());
            reveal_strlit("JFS");
            assert("FAT32"@.len() != "JFS"@.len());
            reveal_strlit("NILFS");
            assert("FAT32"@[0] != "NILFS"@[0]);
            reveal_strlit("F2FS");
            assert("FAT32"@.len() != "F2FS"@.len());
        },
        Filesystem::NTFS => {
            reveal_strlit("NTFS");
            reveal_strlit("FAT32");
            assert("NTFS"@.len() != "FAT32"@.len());
            reveal_strlit("EXT4");
            assert("NTFS"@[0] != "EXT4"@[0]);
            reveal_strlit("XFS");
            assert("NTFS"@.len() != "XFS"@.len());
            reveal_strlit("BTRFS");
            assert("NTFS"@.len() != "BTRFS"@.len());
            reveal_strlit("ZFS");
            assert("NTFS"@.len() != "ZFS"@.len());
            reveal_strlit("APFS");
            assert("NTFS"@[0] != "APFS"@[0]);
            reveal_strlit("HFS");
            assert("NTFS"@.len() != "HFS"@.len());
            reveal_strlit("UFS");
            assert("NTFS"@.len() != "UFS"@.len());
            reveal_strlit("EXFAT");
            assert("NTFS"@.len() != "EXFAT"@.len());
            reveal_strlit("FAT16");
            assert("NTFS"@.len() != "FAT16"@.len());
            reveal_strlit("FAT12");
            assert("NTFS"@.len() != "FAT12"@.len());
            reveal_strlit("FAT");
            assert("NTFS"@.len() != "FAT"@.len());
            reveal_strlit("EXT3");
            assert("NTFS"@[0] != "EXT3"@[0]);
            reveal_strlit("EXT2");
            assert("NTFS"@[0] != "EXT2"@[0]);
            reveal_strlit("REFS");
            assert("NTFS"@[0] != "REFS"@[0]);
            reveal_strlit("JFS");
            assert("NTFS"@.len() != "JFS"@.len());
            reveal_strlit("NILFS");
            assert("NTFS"@.len() != "NILFS"@.len());
            reveal_strlit("F2FS");
            assert("NTFS"@[0] != "F2FS"@[0]);
        },
        Filesystem::EXT4 => {
            reveal_strlit("EXT4");
            reveal_strlit("FAT32");
            assert("EXT4"@.len() != "FAT32"@.len());
            reveal_strlit("NTFS");
            assert("EXT4"@[0] != "NTFS"@[0]);
            reveal_strlit("XFS");
            assert("EXT4"@.len() != "XFS"@.len());
            reveal_strlit("BTRFS");
            assert("EXT4"@.len() != "BTRFS"@.len());
            reveal_strlit("ZFS");
            assert("EXT4"@.len() != "ZFS"@.len());
            reveal_strlit("APFS");
            assert("EXT4"@[0] != "APFS"@[0]);
            reveal_strlit("HFS");
            assert("EXT4"@.len() != "HFS"@.len());
            reveal_strlit("UFS");
            assert("EXT4"@.len() != "UFS"@.len());
            reveal_strlit("EXFAT");
            assert("EXT4"@.len() != "EXFAT"@.len());
            reveal_strlit("FAT16");
            assert("EXT4"@.len() != "FAT16"@.len());
            reveal_strlit("FAT12");
            assert("EXT4"@.len() != "FAT12"@.len());
            reveal_strlit("FAT");
            assert("EXT4"@.len() != "FAT"@.len());
            reveal_strlit("EXT3");
            assert("EXT4"@[3] != "EXT3"@[3]);
            reveal_strlit("EXT2");
            assert("EXT4"@[3] != "EXT2"@[3]);
            reveal_strlit("REFS");
            assert("EXT4"@[0] != "REFS"@[0]);
            reveal_strlit("JFS");
            assert("EXT4"@.len() != "JFS"@.len());
            reveal_strlit("NILFS");
            assert("EXT4"@.len() != "NILFS"@.len());
            reveal_strlit("F2FS");
            assert("EXT4"@[0] != "F2FS"@[0]);
        },
        Filesystem::XFS => {
            reveal_strlit("XFS");
            reveal_strlit("FAT32");
            assert("XFS"@.len() != "FAT32"@.len());
            reveal_strlit("NTFS");
            assert("XFS"@.len() != "NTFS"@.len());
            reveal_strlit("EXT4");
            assert("XFS"@.len() != "EXT4"@.len());
            reveal_strlit("BTRFS");
            assert("XFS"@.len() != "BTRFS"@.len());
            reveal_strlit("ZFS");
            assert("XFS"@[0] != "ZFS"@[0]);
            reveal_strlit("APFS");
            assert("XFS"@.len() != "APFS"@.len());
            reveal_strlit("HFS");
            assert("XFS"@[0] != "HFS"@[0]);
            reveal_strlit("UFS");
            assert("XFS"@[0] != "UFS"@[0]);
            reveal_strlit("EXFAT");
            assert("XFS"@.len() != "EXFAT"@.len());
            reveal_strlit("FAT16");
            assert("XFS"@.len() != "FAT16"@.len());
            reveal_strlit("FAT12");
            assert("XFS"@.len() != "FAT12"@.len());
            reveal_strlit("FAT");
            assert("XFS"@[0] != "FAT"@[0]);
            reveal_strlit("EXT3");
            assert("XFS"@.len() != "EXT3"@.len());
            reveal_strlit("EXT2");
            assert("XFS"@.len() != "EXT2"@.len());
            reveal_strlit("REFS");
            assert("XFS"@.len() != "REFS"@.len());
            reveal_strlit("JFS");
            assert("XFS"@[0] != "JFS"@[0]);
            reveal_strlit("NILFS");
            assert("XFS"@.len() != "NILFS"@.len());
            reveal_strlit("F2FS");
            assert("XFS"@.len() != "F2FS"@.len());
        },
        Filesystem::BTRFS => {
            reveal_strlit("BTRFS");
            reveal_strlit("FAT32");
            assert("BTRFS"@[0] != "FAT32"@[0]);
            reveal_strlit("NTFS");
            assert("BTRFS"@.len() != "NTFS"@.len());
            reveal_strlit("EXT4");
            assert("BTRFS"@.len() != "EXT4"@.len());
            reveal_strlit("XFS");
            assert("BTRFS"@.len() != "XFS"@.len());
            reveal_strlit("ZFS");
            assert("BTRFS"@.len() != "ZFS"@.len());
            reveal_strlit("APFS");
            assert("BTRFS"@.len() != "APFS"@.len());
            reveal_strlit("HFS");
            assert("BTRFS"@.len() != "HFS"@.len());
            reveal_strlit("UFS");
            assert("BTRFS"@.len() != "UFS"@.len());
            reveal_strlit("EXFAT");
            assert("BTRFS"@[0] != "EXFAT"@[0]);
            reveal_strlit("FAT16");
            assert("BTRFS"@[0] != "FAT16"@[0]);
            reveal_strlit("FAT12");
            assert("BTRFS"@[0] != "FAT12"@[0]);
            reveal_strlit("FAT");
            assert("BTRFS"@.len() != "FAT"@.len());
            reveal_strlit("EXT3");
            assert("BTRFS"@.len() != "EXT3"@.len());
            reveal_strlit("EXT2");
            assert("BTRFS"@.len() != "EXT2"@.len());
            reveal_strlit("REFS");
            assert("BTRFS"@.len() != "REFS"@.len());
            reveal_strlit("JFS");
            assert("BTRFS"@.len() != "JFS"@.len());
            reveal_strlit("NILFS");
            assert("BTRFS"@[0] != "NILFS"@[0]);
            reveal_strlit("F2FS");
            assert("BTRFS"@.len() != "F2FS"@.len());
        },
        Filesystem::ZFS => {
            reveal_strlit("ZFS");
            reveal_strlit("FAT32");
            assert("ZFS"@.len() != "FAT32"@.len());
            reveal_strlit("NTFS");
            assert("ZFS"@.len() != "NTFS"@.len());
            reveal_strlit("EXT4");
            assert("ZFS"@.len() != "EXT4"@.len());
            reveal_strlit("XFS");
            assert("ZFS"@[0] != "XFS"@[0]);
            reveal_strlit("BTRFS");
            assert("ZFS"@.len() != "BTRFS"@.len());
            reveal_strlit("APFS");
            assert("ZFS"@.len() != "APFS"@.len());
            reveal_strlit("HFS");
            assert("ZFS"@[0] != "HFS"@[0]);
            reveal_strlit("UFS");
            assert("ZFS"@[0] != "UFS"@[0]);
            reveal_strlit("EXFAT");
            assert("ZFS"@.len() != "EXFAT"@.len());
            reveal_strlit("FAT16");
            assert("ZFS"@.len() != "FAT16"@.len());
            reveal_strlit("FAT12");
            assert("ZFS"@.len() != "FAT12"@.len());
            reveal_strlit("FAT");
            assert("ZFS"@[0] != "FAT"@[0]);
            reveal_strlit("EXT3");
            assert("ZFS"@.len() != "EXT3"@.len());
            reveal_strlit("EXT2");
            assert("ZFS"@.len() != "EXT2"@.len());
            reveal_strlit("REFS");
            assert("ZFS"@.len() != "REFS"@.len());
            reveal_strlit("JFS");
            assert("ZFS"@[0] != "JFS"@[0]);
            reveal_strlit("NILFS");
            assert("ZFS"@.len() != "NILFS"@.len());
            reveal_strlit("F2FS");
            assert("ZFS"@.len() != "F2FS"@.len());
        },
        Filesystem::APFS => {
            reveal_strlit("APFS");
            reveal_strlit("FAT32");
            assert("APFS"@.len() != "FAT32"@.len());
            reveal_strlit("NTFS");
            assert("APFS"@[0] != "NTFS"@[0]);
            reveal_strlit("EXT4");
            assert("APFS"@[0] != "EXT4"@[0]);
            reveal_strlit("XFS");
            assert("APFS"@.len() != "XFS"@.len());
            reveal_strlit("BTRFS");
            assert("APFS"@.len() != "BTRFS"@.len());
            reveal_strlit("ZFS");
            assert("APFS"@.len() != "ZFS"@.len());
            reveal_strlit("HFS");
            assert("APFS"@.len() != "HFS"@.len());
            reveal_strlit("UFS");
            assert("APFS"@.len() != "UFS"@.len());
            reveal_strlit("EXFAT");
            assert("APFS"@.len() != "EXFAT"@.len());
            reveal_strlit("FAT16");
            assert("APFS"@.len() != "FAT16"@.len());
            reveal_strlit("FAT12");
            assert("APFS"@.len() != "FAT12"@.len());
            reveal_strlit("FAT");
            assert("APFS"@.len() != "FAT"@.len());
            reveal_strlit("EXT3");
            assert("APFS"@[0] != "EXT3"@[0]);
            reveal_strlit("EXT2");
            assert("APFS"@[0] != "EXT2"@[0]);
            reveal_strlit("REFS");
            assert("APFS"@[0] != "REFS"@[0]);
            reveal_strlit("JFS");
            assert("APFS"@.len() != "JFS"@.len());
            reveal_strlit("NILFS");
            assert("APFS"@.len() != "NILFS"@.len());
            reveal_strlit("F2FS");
            assert("APFS"@[0] != "F2FS"@[0]);
        },
        Filesystem::HFS => {
            reveal_strlit("HFS");
            reveal_strlit("FAT32");
            assert("HFS"@.len() != "FAT32"@.len());
            reveal_strlit("NTFS");
            assert("HFS"@.len() != "NTFS"@.len());
            reveal_strlit("EXT4");
            assert("HFS"@.len() != "EXT4"@.len());
            reveal_strlit("XFS");
            assert("HFS"@[0] != "XFS"@[0]);
            reveal_strlit("BTRFS");
            assert("HFS"@.len() != "BTRFS"@.len());
            reveal_strlit("ZFS");
            assert("HFS"@[0] != "ZFS"@[0]);
            reveal_strlit("APFS");
            assert("HFS"@.len() != "APFS"@.len());
            reveal_strlit("UFS");
            assert("HFS"@[0] != "UFS"@[0]);
            reveal_strlit("EXFAT");
            assert("HFS"@.len() != "EXFAT"@.len());
            reveal_strlit("FAT16");
            assert("HFS"@.len() != "FAT16"@.len());
            reveal_strlit("FAT12");
            assert("HFS"@.len() != "FAT12"@.len());
            reveal_strlit("FAT");
            assert("HFS"@[0] != "FAT"@[0]);
            reveal_strlit("EXT3");
            assert("HFS"@.len() != "EXT3"@.len());
            reveal_strlit("EXT2");
            assert("HFS"@.len() != "EXT2"@.len());
            reveal_strlit("REFS");
            assert("HFS"@.len() != "REFS"@.len());
            reveal_strlit("JFS");
            assert("HFS"@[0] != "JFS"@[0]);
            reveal_strlit("NILFS");
            assert("HFS"@.len() != "NILFS"@.len());
            reveal_strlit("F2FS");
            assert("HFS"@.len() != "F2FS"@.len());
        },
        Filesystem::UFS => {
            reveal_strlit("UFS");
            reveal_strlit("FAT32");
            assert("UFS"@.len() != "FAT32"@.len());
            reveal_strlit("NTFS");
            assert("UFS"@.len() != "NTFS"@.len());
            reveal_strlit("EXT4");
            assert("UFS"@.len() != "EXT4"@.len());
            reveal_strlit("XFS");
            assert("UFS"@[0] != "XFS"@[0]);
            reveal_strlit("BTRFS");
            assert("UFS"@.len() != "BTRFS"@.len());
            reveal_strlit("ZFS");
            assert("UFS"@[0] != "ZFS"@[0]);
            reveal_strlit("APFS");
            assert("UFS"@.len() != "APFS"@.len());
            reveal_strlit("HFS");
            assert("UFS"@[0] != "HFS"@[0]);
            reveal_strlit("EXFAT");
            assert("UFS"@.len() != "EXFAT"@.len());
            reveal_strlit("FAT16");
            assert("UFS"@.len() != "FAT16"@.len());
            reveal_strlit("FAT12");
            assert("UFS"@.len() != "FAT12"@.len());
            reveal_strlit("FAT");
            assert("UFS"@[0] != "FAT"@[0]);
            reveal_strlit("EXT3");
            assert("UFS"@.len() != "EXT3"@.len());
            reveal_strlit("EXT2");
            assert("UFS"@.len() != "EXT2"@.len());
            reveal_strlit("REFS");
            assert("UFS"@.len() != "REFS"@.len());
            reveal_strlit("JFS");
            assert("UFS"@[0] != "JFS"@[0]);
            reveal_strlit("NILFS");
            assert("UFS"@.len() != "NILFS"@.len());
            reveal_strlit("F2FS");
            assert("UFS"@.len() != "F2FS"@.len());
        },
        Filesystem::EXFAT => {
            reveal_strlit("EXFAT");
            reveal_strlit("FAT32");
            assert("EXFAT"@[0] != "FAT32"@[0]);
            reveal_strlit("NTFS");
            assert("EXFAT"@.len() != "NTFS"@.len());
            reveal_strlit("EXT4");
            assert("EXFAT"@.len() != "EXT4"@.len());
            reveal_strlit("XFS");
            assert("EXFAT"@.len() != "XFS"@.len());
            reveal_strlit("BTRFS");
            assert("EXFAT"@[0] != "BTRFS"@[0]);
            reveal_strlit("ZFS");
            assert("EXFAT"@.len() != "ZFS"@.len());
            reveal_strlit("APFS");
            assert("EXFAT"@.len() != "APFS"@.len());
            reveal_strlit("HFS");
            assert("EXFAT"@.len() != "HFS"@.len());
            reveal_strlit("UFS");
            assert("EXFAT"@.len() != "UFS"@.len());
            reveal_strlit("FAT16");
            assert("EXFAT"@[0] != "FAT16"@[0]);
            reveal_strlit("FAT12");
            assert("EXFAT"@[0] != "FAT12"@[0]);
            reveal_strlit("FAT");
            assert("EXFAT"@.len() != "FAT"@.len());
            reveal_strlit("EXT3");
            assert("EXFAT"@.len() != "EXT3"@.len());
            reveal_strlit("EXT2");
            assert("EXFAT"@.len() != "EXT2"@.len());
            reveal_strlit("REFS");
            assert("EXFAT"@.len() != "REFS"@.len());
            reveal_strlit("JFS");
            assert("EXFAT"@.len() != "JFS"@.len());
            reveal_strlit("NILFS");
            assert("EXFAT"@[0] != "NILFS"@[0]);
            reveal_strlit("F2FS");
            assert("EXFAT"@.len() != "F2FS"@.len());
        },
        Filesystem::FAT16 => {
            reveal_strlit("FAT16");
            reveal_strlit("FAT32");
            assert("FAT16"@[3] != "FAT32"@[3]);
            reveal_strlit("NTFS");
            assert("FAT16"@.len() != "NTFS"@.len());
            reveal_strlit("EXT4");
            assert("FAT16"@.len() != "EXT4"@.len());
            reveal_strlit("XFS");
            assert("FAT16"@.len() != "XFS"@.len());
            reveal_strlit("BTRFS");
            assert("FAT16"@[0] != "BTRFS"@[0]);
            reveal_strlit("ZFS");
            assert("FAT16"@.len() != "ZFS"@.len());
            reveal_strlit("APFS");
            assert("FAT16"@.len() != "APFS"@.len());
            reveal_strlit("HFS");
            assert("FAT16"@.len() != "HFS"@.len());
            reveal_strlit("UFS");
            assert("FAT16"@.len() != "UFS"@.len());
            reveal_strlit("EXFAT");
            assert("FAT16"@[0] != "EXFAT"@[0]);
            reveal_strlit("FAT12");
            assert("FAT16"@[4] != "FAT12"@[4]);
            reveal_strlit("FAT");
            assert("FAT16"@.len() != "FAT"@.len());
            reveal_strlit("EXT3");
            assert("FAT16"@.len() != "EXT3"@.len());
            reveal_strlit("EXT2");
            assert("FAT16"@.len() != "EXT2"@.len());
            reveal_strlit("REFS");
            assert("FAT16"@.len() != "REFS"@.len());
            reveal_strlit("JFS");
            assert("FAT16"@.len() != "JFS"@.len());
            reveal_strlit("NILFS");
            assert("FAT16"@[0] != "NILFS"@[0]);
            reveal_strlit("F2FS");
            assert("FAT16"@.len() != "F2FS"@.len());
        },
        Filesystem::FAT12 => {
            reveal_strlit("FAT12");
            reveal_strlit("FAT32");
            assert("FAT12"@[3] != "FAT32"@[3]);
            reveal_strlit("NTFS");
            assert("FAT12"@.len() != "NTFS"@.len());
            reveal_strlit("EXT4");
            assert("FAT12"@.len() != "EXT4"@.len());
            reveal_strlit("XFS");
            assert("FAT12"@.len() != "XFS"@.len());
            reveal_strlit("BTRFS");
            assert("FAT12"@[0] != "BTRFS"@[0]);
            reveal_strlit("ZFS");
            assert("FAT12"@.len() != "ZFS"@.len());
            reveal_strlit("APFS");
            assert("FAT12"@.len() != "APFS"@.len());
            reveal_strlit("HFS");
            assert("FAT12"@.len() != "HFS"@.len());
            reveal_strlit("UFS");
            assert("FAT12"@.len() != "UFS"@.len());
            reveal_strlit("EXFAT");
            assert("FAT12"@[0] != "EXFAT"@[0]);
            reveal_strlit("FAT16");
            assert("FAT12"@[4] != "FAT16"@[4]);
            reveal_strlit("FAT");
            assert("FAT12"@.len() != "FAT"@.len());
            reveal_strlit("EXT3");
            assert("FAT12"@.len() != "EXT3"@.len());
            reveal_strlit("EXT2");
            assert("FAT12"@.len() != "EXT2"@.len());
            reveal_strlit("REFS");
            assert("FAT12"@.len() != "REFS"@.len());
            reveal_strlit("JFS");
            assert("FAT12"@.len() != "JFS"@.len());
            reveal_strlit("NILFS");
            assert("FAT12"@[0] != "NILFS"@[0]);
            reveal_strlit("F2FS");
            assert("FAT12"@.len() != "F2FS"@.len());
        },
        Filesystem::FAT => {
            reveal_strlit("FAT");
            reveal_strlit("FAT32");
            assert("FAT"@.len() != "FAT32"@.len());
            reveal_strlit("NTFS");
            assert("FAT"@.len() != "NTFS"@.len());
            reveal_strlit("EXT4");
            assert("FAT"@.len() != "EXT4"@.len());
            reveal_strlit("XFS");
            assert("FAT"@[0] != "XFS"@[0]);
            reveal_strlit("BTRFS");
            assert("FAT"@.len() != "BTRFS"@.len());
            reveal_strlit("ZFS");
            assert("FAT"@[0] != "ZFS"@[0]);
            reveal_strlit("APFS");
            assert("FAT"@.len() != "APFS"@.len());
            reveal_strlit("HFS");
            assert("FAT"@[0] != "HFS"@[0]);
            reveal_strlit("UFS");
            assert("FAT"@[0] != "UFS"@[0]);
            reveal_strlit("EXFAT");
            assert("FAT"@.len() != "EXFAT"@.len());
            reveal_strlit("FAT16");
            assert("FAT"@.len() != "FAT16"@.len());
            reveal_strlit("FAT12");
            assert("FAT"@.len() != "FAT12"@.len());
            reveal_strlit("EXT3");
            assert("FAT"@.len() != "EXT3"@.len());
            reveal_strlit("EXT2");
            assert("FAT"@.len() != "EXT2"@.len());
            reveal_strlit("REFS");
            assert("FAT"@.len() != "REFS"@.len());
            reveal_strlit("JFS");
            assert("FAT"@[0] != "JFS"@[0]);
            reveal_strlit("NILFS");
            assert("FAT"@.len() != "NILFS"@.len());
            reveal_strlit("F2FS");
            assert("FAT"@.len() != "F2FS"@.len());
        },
        Filesystem::EXT3 => {
            reveal_strlit("EXT3");
            reveal_strlit("FAT32");
            assert("EXT3"@.len() != "FAT32"@.len());
            reveal_strlit("NTFS");
            assert("EXT3"@[0] != "NTFS"@[0]);
            reveal_strlit("EXT4");
            assert("EXT3"@[3] != "EXT4"@[3]);
            reveal_strlit("XFS");
            assert("EXT3"@.len() != "XFS"@.len());
            reveal_strlit("BTRFS");
            assert("EXT3"@.len() != "BTRFS"@.len());
            reveal_strlit("ZFS");
            assert("EXT3"@.len() != "ZFS"@.len());
            reveal_strlit("APFS");
            assert("EXT3"@[0] != "APFS"@[0]);
            reveal_strlit("HFS");
            assert("EXT3"@.len() != "HFS"@.len());
            reveal_strlit("UFS");
            assert("EXT3"@.len() != "UFS"@.len());
            reveal_strlit("EXFAT");
            assert("EXT3"@.len() != "EXFAT"@.len());
            reveal_strlit("FAT16");
            assert("EXT3"@.len() != "FAT16"@.len());
            reveal_strlit("FAT12");
            assert("EXT3"@.len() != "FAT12"@.len());
            reveal_strlit("FAT");
            assert("EXT3"@.len() != "FAT"@.len());
            reveal_strlit("EXT2");
            assert("EXT3"@[3] != "EXT2"@[3]);
            reveal_strlit("REFS");
            assert("EXT3"@[0] != "REFS"@[0]);
            reveal_strlit("JFS");
            assert("EXT3"@.len() != "JFS"@.len());
            reveal_strlit("NILFS");
            assert("EXT3"@.len() != "NILFS"@.len());
            reveal_strlit("F2FS");
            assert("EXT3"@[0] != "F2FS"@[0]);
        },
        Filesystem::EXT2 => {
            reveal_strlit("EXT2");
            reveal_strlit("FAT32");
            assert("EXT2"@.len() != "FAT32"@.len());
            reveal_strlit("NTFS");
            assert("EXT2"@[0] != "NTFS"@[0]);
            reveal_strlit("EXT4");
            assert("EXT2"@[3] != "EXT4"@[3]);
            reveal_strlit("XFS");
            assert("EXT2"@.len() != "XFS"@.len());
            reveal_strlit("BTRFS");
            assert("EXT2"@.len() != "BTRFS"@.len());
            reveal_strlit("ZFS");
            assert("EXT2"@.len() != "ZFS"@.len());
            reveal_strlit("APFS");
            assert("EXT2"@[0] != "APFS"@[0]);
            reveal_strlit("HFS");
            assert("EXT2"@.len() != "HFS"@.len());
            reveal_strlit("UFS");
            assert("EXT2"@.len() != "UFS"@.len());
            reveal_strlit("EXFAT");
            assert("EXT2"@.len() != "EXFAT"@.len());
            reveal_strlit("FAT16");
            assert("EXT2"@.len() != "FAT16"@.len());
            reveal_strlit("FAT12");
            assert("EXT2"@.len() != "FAT12"@.len());
            reveal_strlit("FAT");
            assert("EXT2"@.len() != "FAT"@.len());
            reveal_strlit("EXT3");
            assert("EXT2"@[3] != "EXT3"@[3]);
            reveal_strlit("REFS");
            assert("EXT2"@[0] != "REFS"@[0]);
            reveal_strlit("JFS");
            assert("EXT2"@.len() != "JFS"@.len());
            reveal_strlit("NILFS");
            assert("EXT2"@.len() != "NILFS"@.len());
            reveal_strlit("F2FS");
            assert("EXT2"@[0] != "F2FS"@[0]);
        },
        Filesystem::REFS => {
            reveal_strlit("REFS");
            reveal_strlit("FAT32");
            assert("REFS"@.len() != "FAT32"@.len());
            reveal_strlit("NTFS");
            assert("REFS"@[0] != "NTFS"@[0]);
            reveal_strlit("EXT4");
            assert("REFS"@[0] != "EXT4"@[0]);
            reveal_strlit("XFS");
            assert("REFS"@.len() != "XFS"@.len());
            reveal_strlit("BTRFS");
            assert("REFS"@.len() != "BTRFS"@.len());
            reveal_strlit("ZFS");
            assert("REFS"@.len() != "ZFS"@.len());
            reveal_strlit("APFS");
            assert("REFS"@[0] != "APFS"@[0]);
            reveal_strlit("HFS");
            assert("REFS"@.len() != "HFS"@.len());
            reveal_strlit("UFS");
            assert("REFS"@.len() != "UFS"@.len());
            reveal_strlit("EXFAT");
            assert("REFS"@.len() != "EXFAT"@.len());
            reveal_strlit("FAT16");
            assert("REFS"@.len() != "FAT16"@.len());
            reveal_strlit("FAT12");
            assert("REFS"@.len() != "FAT12"@.len());
            reveal_strlit("FAT");
            assert("REFS"@.len() != "FAT"@.len());
            reveal_strlit("EXT3");
            assert("REFS"@[0] != "EXT3"@[0]);
            reveal_strlit("EXT2");
            assert("REFS"@[0] != "EXT2"@[0]);
            reveal_strlit("JFS");
            assert("REFS"@.len() != "JFS"@.len());
            reveal_strlit("NILFS");
            assert("REFS"@.len() != "NILFS"@.len());
            reveal_strlit("F2FS");
            assert("REFS"@[0] != "F2FS"@[0]);
        },
        Filesystem::JFS => {
            reveal_strlit("JFS");
            reveal_strlit("FAT32");
            assert("JFS"@.len() != "FAT32"@.len());
            reveal_strlit("NTFS");
            assert("JFS"@.len() != "NTFS"@.len());
            reveal_strlit("EXT4");
            assert("JFS"@.len() != "EXT4"@.len());
            reveal_strlit("XFS");
            assert("JFS"@[0] != "XFS"@[0]);
            reveal_strlit("BTRFS");
            assert("JFS"@.len() != "BTRFS"@.len());
            reveal_strlit("ZFS");
            assert("JFS"@[0] != "ZFS"@[0]);
            reveal_strlit("APFS");
            assert("JFS"@.len() != "APFS"@.len());
            reveal_strlit("HFS");
            assert("JFS"@[0] != "HFS"@[0]);
            reveal_strlit("UFS");
            assert("JFS"@[0] != "UFS"@[0]);
            reveal_strlit("EXFAT");
            assert("JFS"@.len() != "EXFAT"@.len());
            reveal_strlit("FAT16");
            assert("JFS"@.len() != "FAT16"@.len());
            reveal_strlit("FAT12");
            assert("JFS"@.len() != "FAT12"@.len());
            reveal_strlit("FAT");
            assert("JFS"@[0] != "FAT"@[0]);
            reveal_strlit("EXT3");
            assert("JFS"@.len() != "EXT3"@.len());
            reveal_strlit("EXT2");
            assert("JFS"@.len() != "EXT2"@.len());
            reveal_strlit("REFS");
            assert("JFS"@.len() != "REFS"@.len());
            reveal_strlit("NILFS");
            assert("JFS"@.len() != "NILFS"@.len());
            reveal_strlit("F2FS");
            assert("JFS"@.len() != "F2FS"@.len());
        },
        Filesystem::NILFS => {
            reveal_strlit("NILFS");
            reveal_strlit("FAT32");
            assert("NILFS"@[0] != "FAT32"@[0]);
            reveal_strlit("NTFS");
            assert("NILFS"@.len() != "NTFS"@.len());
            reveal_strlit("EXT4");
            assert("NILFS"@.len() != "EXT4"@.len());
            reveal_strlit("XFS");
            assert("NILFS"@.len() != "XFS"@.len());
            reveal_strlit("BTRFS");
            assert("NILFS"@[0] != "BTRFS"@[0]);
            reveal_strlit("ZFS");
            assert("NILFS"@.len() != "ZFS"@.len());
            reveal_strlit("APFS");
            assert("NILFS"@.len() != "APFS"@.len());
            reveal_strlit("HFS");
            assert("NILFS"@.len() != "HFS"@.len());
            reveal_strlit("UFS");
            assert("NILFS"@.len() != "UFS"@.len());
            reveal_strlit("EXFAT");
            assert("NILFS"@[0] != "EXFAT"@[0]);
            reveal_strlit("FAT16");
            assert("NILFS"@[0] != "FAT16"@[0]);
            reveal_strlit("FAT12");
            assert("NILFS"@[0] != "FAT12"@[0]);
            reveal_strlit("FAT");
            assert("NILFS"@.len() != "FAT"@.len());
            reveal_strlit("EXT3");
            assert("NILFS"@.len() != "EXT3"@.len());
            reveal_strlit("EXT2");
            assert("NILFS"@.len() != "EXT2"@.len());
            reveal_strlit("REFS");
            assert("NILFS"@.len() != "REFS"@.len());
            reveal_strlit("JFS");
            assert("NILFS"@.len() != "JFS"@.len());
            reveal_strlit("F2FS");
            assert("NILFS"@.len() != "F2FS"@.len());
        },
        Filesystem::F2FS => {
            reveal_strlit("F2FS");
            reveal_strlit("FAT32");
            assert("F2FS"@.len() != "FAT32"@.len());
            reveal_strlit("NTFS");
            assert("F2FS"@[0] != "NTFS"@[0]);
            reveal_strlit("EXT4");
            assert("F2FS"@[0] != "EXT4"@[0]);
            reveal_strlit("XFS");
            assert("F2FS"@.len() != "XFS"@.len());
            reveal_strlit("BTRFS");
            assert("F2FS"@.len() != "BTRFS"@.len());
            reveal_strlit("ZFS");
            assert("F2FS"@.len() != "ZFS"@.len());
            reveal_strlit("APFS");
            assert("F2FS"@[0] != "APFS"@[0]);
            reveal_strlit("HFS");
            assert("F2FS"@.len() != "HFS"@.len());
            reveal_strlit("UFS");
            assert("F2FS"@.len() != "UFS"@.len());
            reveal_strlit("EXFAT");
            assert("F2FS"@.len() != "EXFAT"@.len());
            reveal_strlit("FAT16");
            assert("F2FS"@.len() != "FAT16"@.len());
            reveal_strlit("FAT12");
            assert("F2FS"@.len() != "FAT12"@.len());
            reveal_strlit("FAT");
            assert("F2FS"@.len() != "FAT"@.len());
            reveal_strlit("EXT3");
            assert("F2FS"@[0] != "EXT3"@[0]);
            reveal_strlit("EXT2");
            assert("F2FS"@[0] != "EXT2"@[0]);
            reveal_strlit("REFS");
            assert("F2FS"@[0] != "REFS"@[0]);
            reveal_strlit("JFS");
            assert("F2FS"@.len() != "JFS"@.len());
            reveal_strlit("NILFS");
            assert("F2FS"@.len() != "NILFS"@.len());
        },
        Filesystem::UNKNOWN => {
            reveal_strlit("Unknown");
            reveal_strlit("FAT32");
            assert("Unknown"@.len() != "FAT32"@.len());
            reveal_strlit("NTFS");
            assert("Unknown"@.len() != "NTFS"@.len());
            reveal_strlit("EXT4");
            assert("Unknown"@.len() != "EXT4"@.len());
            reveal_strlit("XFS");
            assert("Unknown"@.len() != "XFS"@.len());
            reveal_strlit("BTRFS");
            assert("Unknown"@.len() != "BTRFS"@.len());
            reveal_strlit("ZFS");
            assert("Unknown"@.len() != "ZFS"@.len());
            reveal_strlit("APFS");
            assert("Unknown"@.len() != "APFS"@.len());
            reveal_strlit("HFS");
            assert("Unknown"@.len() != "HFS"@.len());
            reveal_strlit("UFS");
            assert("Unknown"@.len() != "UFS"@.len());
            reveal_strlit("EXFAT");
            assert("Unknown"@.len() != "EXFAT"@.len());
            reveal_strlit("FAT16");
            assert("Unknown"@.len() != "FAT16"@.len());
            reveal_strlit("FAT12");
            assert("Unknown"@.len() != "FAT12"@.len());
            reveal_strlit("FAT");
            assert("Unknown"@.len() != "FAT"@.len());
            reveal_strlit("EXT3");
            assert("Unknown"@.len() != "EXT3"@.len());
            reveal_strlit("EXT2");
            assert("Unknown"@.len() != "EXT2"@.len());
            reveal_strlit("REFS");
            assert("Unknown"@.len() != "REFS"@.len());
            reveal_strlit("JFS");
            assert("Unknown"@.len() != "JFS"@.len());
            reveal_strlit("NILFS");
            assert("Unknown"@.len() != "NILFS"@.len());
            reveal_strlit("F2FS");
            assert("Unknown"@.len() != "F2FS"@.len());
        },
    }
}

} // verus!
