//! Filesystem types, named without regard to letter case.
use crate::text::{owned, str_equal, str_to_uppercase, unicode_uppercase};
use vstd::prelude::*;

verus! {

/// A filesystem type.
#[derive(Debug, Clone, Copy, PartialEq, Eq, Structural)]
pub enum Filesystem {
    Fat32,
    Ntfs,
    Ext4,
    Xfs,
    Btrfs,
    Zfs,
    Apfs,
    Hfs,
    Ufs,
    Exfat,
    Fat16,
    Fat12,
    Fat,
    Ext3,
    Ext2,
    Refs,
    Jfs,
    Nilfs,
    F2fs,
    Unknown,
}

/// The filesystem whose upper-case name is exactly `s`; every other name is `Unknown`.
pub open spec fn filesystem_of_uppercase(s: Seq<char>) -> Filesystem {
    if s == "FAT32"@ {
        Filesystem::Fat32
    } else if s == "NTFS"@ {
        Filesystem::Ntfs
    } else if s == "EXT4"@ {
        Filesystem::Ext4
    } else if s == "XFS"@ {
        Filesystem::Xfs
    } else if s == "BTRFS"@ {
        Filesystem::Btrfs
    } else if s == "ZFS"@ {
        Filesystem::Zfs
    } else if s == "APFS"@ {
        Filesystem::Apfs
    } else if s == "HFS"@ {
        Filesystem::Hfs
    } else if s == "UFS"@ {
        Filesystem::Ufs
    } else if s == "EXFAT"@ {
        Filesystem::Exfat
    } else if s == "FAT16"@ {
        Filesystem::Fat16
    } else if s == "FAT12"@ {
        Filesystem::Fat12
    } else if s == "FAT"@ {
        Filesystem::Fat
    } else if s == "EXT3"@ {
        Filesystem::Ext3
    } else if s == "EXT2"@ {
        Filesystem::Ext2
    } else if s == "REFS"@ {
        Filesystem::Refs
    } else if s == "JFS"@ {
        Filesystem::Jfs
    } else if s == "NILFS"@ {
        Filesystem::Nilfs
    } else if s == "F2FS"@ {
        Filesystem::F2fs
    } else {
        Filesystem::Unknown
    }
}

/// The filesystem a name stands for: its Unicode upper-case form is matched
/// against the upper-case names (`From<String>`).
pub open spec fn filesystem_named(s: Seq<char>) -> Filesystem {
    filesystem_of_uppercase(unicode_uppercase(s))
}

/// The display name of each filesystem.
pub open spec fn filesystem_display(f: Filesystem) -> Seq<char> {
    match f {
        Filesystem::Fat32 => "FAT32"@,
        Filesystem::Ntfs => "NTFS"@,
        Filesystem::Ext4 => "EXT4"@,
        Filesystem::Xfs => "XFS"@,
        Filesystem::Btrfs => "BTRFS"@,
        Filesystem::Zfs => "ZFS"@,
        Filesystem::Apfs => "APFS"@,
        Filesystem::Hfs => "HFS"@,
        Filesystem::Ufs => "UFS"@,
        Filesystem::Exfat => "EXFAT"@,
        Filesystem::Fat16 => "FAT16"@,
        Filesystem::Fat12 => "FAT12"@,
        Filesystem::Fat => "FAT"@,
        Filesystem::Ext3 => "EXT3"@,
        Filesystem::Ext2 => "EXT2"@,
        Filesystem::Refs => "REFS"@,
        Filesystem::Jfs => "JFS"@,
        Filesystem::Nilfs => "NILFS"@,
        Filesystem::F2fs => "F2FS"@,
        Filesystem::Unknown => "Unknown"@,
    }
}

impl Filesystem {
    /// The filesystem a name stands for, ignoring letter case.
    pub fn from_name(filesystem: &str) -> (r: Filesystem)
        ensures
            r == filesystem_named(filesystem@),
    {
        let upper = str_to_uppercase(filesystem);
        if str_equal(upper.as_str(), "FAT32") {
            Filesystem::Fat32
        } else if str_equal(upper.as_str(), "NTFS") {
            Filesystem::Ntfs
        } else if str_equal(upper.as_str(), "EXT4") {
            Filesystem::Ext4
        } else if str_equal(upper.as_str(), "XFS") {
            Filesystem::Xfs
        } else if str_equal(upper.as_str(), "BTRFS") {
            Filesystem::Btrfs
        } else if str_equal(upper.as_str(), "ZFS") {
            Filesystem::Zfs
        } else if str_equal(upper.as_str(), "APFS") {
            Filesystem::Apfs
        } else if str_equal(upper.as_str(), "HFS") {
            Filesystem::Hfs
        } else if str_equal(upper.as_str(), "UFS") {
            Filesystem::Ufs
        } else if str_equal(upper.as_str(), "EXFAT") {
            Filesystem::Exfat
        } else if str_equal(upper.as_str(), "FAT16") {
            Filesystem::Fat16
        } else if str_equal(upper.as_str(), "FAT12") {
            Filesystem::Fat12
        } else if str_equal(upper.as_str(), "FAT") {
            Filesystem::Fat
        } else if str_equal(upper.as_str(), "EXT3") {
            Filesystem::Ext3
        } else if str_equal(upper.as_str(), "EXT2") {
            Filesystem::Ext2
        } else if str_equal(upper.as_str(), "REFS") {
            Filesystem::Refs
        } else if str_equal(upper.as_str(), "JFS") {
            Filesystem::Jfs
        } else if str_equal(upper.as_str(), "NILFS") {
            Filesystem::Nilfs
        } else if str_equal(upper.as_str(), "F2FS") {
            Filesystem::F2fs
        } else {
            Filesystem::Unknown
        }
    }

    /// The filesystem of an optional name; no name is `Unknown`.
    pub fn from_option(filesystem: Option<String>) -> (r: Filesystem)
        ensures
            r == (match filesystem {
                Some(fs) => filesystem_named(fs@),
                None => Filesystem::Unknown,
            }),
    {
        match filesystem {
            Some(fs) => Filesystem::from_name(fs.as_str()),
            None => Filesystem::Unknown,
        }
    }

    /// The display name of this filesystem.
    pub fn to_string(&self) -> (r: String)
        ensures
            r@ == filesystem_display(*self),
    {
        match self {
            Filesystem::Fat32 => owned("FAT32"),
            Filesystem::Ntfs => owned("NTFS"),
            Filesystem::Ext4 => owned("EXT4"),
            Filesystem::Xfs => owned("XFS"),
            Filesystem::Btrfs => owned("BTRFS"),
            Filesystem::Zfs => owned("ZFS"),
            Filesystem::Apfs => owned("APFS"),
            Filesystem::Hfs => owned("HFS"),
            Filesystem::Ufs => owned("UFS"),
            Filesystem::Exfat => owned("EXFAT"),
            Filesystem::Fat16 => owned("FAT16"),
            Filesystem::Fat12 => owned("FAT12"),
            Filesystem::Fat => owned("FAT"),
            Filesystem::Ext3 => owned("EXT3"),
            Filesystem::Ext2 => owned("EXT2"),
            Filesystem::Refs => owned("REFS"),
            Filesystem::Jfs => owned("JFS"),
            Filesystem::Nilfs => owned("NILFS"),
            Filesystem::F2fs => owned("F2FS"),
            Filesystem::Unknown => owned("Unknown"),
        }
    }
}

impl From<String> for Filesystem {
    fn from(filesystem: String) -> (r: Filesystem) {
        Filesystem::from_name(filesystem.as_str())
    }
}

impl vstd::std_specs::convert::FromSpecImpl<String> for Filesystem {
    open spec fn obeys_from_spec() -> bool {
        true
    }

    open spec fn from_spec(filesystem: String) -> Filesystem {
        filesystem_named(filesystem@)
    }
}

impl From<Option<String>> for Filesystem {
    fn from(filesystem: Option<String>) -> (r: Filesystem) {
        Filesystem::from_option(filesystem)
    }
}

impl vstd::std_specs::convert::FromSpecImpl<Option<String>> for Filesystem {
    open spec fn obeys_from_spec() -> bool {
        true
    }

    open spec fn from_spec(filesystem: Option<String>) -> Filesystem {
        match filesystem {
            Some(fs) => filesystem_named(fs@),
            None => Filesystem::Unknown,
        }
    }
}

} // verus!
