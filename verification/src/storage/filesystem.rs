//! Filesystem types of the Linux storage layer, named without regard to
//! ASCII case.
use crate::text::{ascii_lower, owned, str_equal, to_ascii_lowercase};
use vstd::prelude::*;

verus! {

/// A filesystem type; names are matched without regard to ASCII case.
#[derive(Debug, Clone, Copy, PartialEq, Eq, Structural)]
pub enum Filesystem {
    Fat32,
    Ntfs,
    Ext4,
    Xfs,
    Btrfs,
    Zfs,
    Apfs,
    Hfs,
    Ufs,
    Exfat,
    Fat16,
    Fat12,
    Fat,
    Ext3,
    Ext2,
    Refs,
    Jfs,
    Nilfs,
    F2fs,
    Unknown,
}

/// The filesystem whose lower-case name is exactly `s`; every other name is `Unknown`.
pub open spec fn filesystem_of_lowercase(s: Seq<char>) -> Filesystem {
    if s == "fat32"@ {
        Filesystem::Fat32
    } else if s == "ntfs"@ {
        Filesystem::Ntfs
    } else if s == "ext4"@ {
        Filesystem::Ext4
    } else if s == "xfs"@ {
        Filesystem::Xfs
    } else if s == "btrfs"@ {
        Filesystem::Btrfs
    } else if s == "zfs"@ {
        Filesystem::Zfs
    } else if s == "apfs"@ {
        Filesystem::Apfs
    } else if s == "hfs"@ {
        Filesystem::Hfs
    } else if s == "ufs"@ {
        Filesystem::Ufs
    } else if s == "exfat"@ {
        Filesystem::Exfat
    } else if s == "fat16"@ {
        Filesystem::Fat16
    } else if s == "fat12"@ {
        Filesystem::Fat12
    } else if s == "fat"@ {
        Filesystem::Fat
    } else if s == "ext3"@ {
        Filesystem::Ext3
    } else if s == "ext2"@ {
        Filesystem::Ext2
    } else if s == "refs"@ {
        Filesystem::Refs
    } else if s == "jfs"@ {
        Filesystem::Jfs
    } else if s == "nilfs"@ {
        Filesystem::Nilfs
    } else if s == "f2fs"@ {
        Filesystem::F2fs
    } else {
        Filesystem::Unknown
    }
}

/// The filesystem a name stands for, ignoring ASCII case (`From<String>`).
pub open spec fn filesystem_named(s: Seq<char>) -> Filesystem {
    filesystem_of_lowercase(ascii_lower(s))
}

/// The display name of each filesystem.
pub open spec fn filesystem_display(f: Filesystem) -> Seq<char> {
    match f {
        Filesystem::Fat32 => "FAT32"@,
        Filesystem::Ntfs => "NTFS"@,
        Filesystem::Ext4 => "EXT4"@,
        Filesystem::Xfs => "XFS"@,
        Filesystem::Btrfs => "BTRFS"@,
        Filesystem::Zfs => "ZFS"@,
        Filesystem::Apfs => "APFS"@,
        Filesystem::Hfs => "HFS"@,
        Filesystem::Ufs => "UFS"@,
        Filesystem::Exfat => "EXFAT"@,
        Filesystem::Fat16 => "FAT16"@,
        Filesystem::Fat12 => "FAT12"@,
        Filesystem::Fat => "FAT"@,
        Filesystem::Ext3 => "EXT3"@,
        Filesystem::Ext2 => "EXT2"@,
        Filesystem::Refs => "REFS"@,
        Filesystem::Jfs => "JFS"@,
        Filesystem::Nilfs => "NILFS"@,
        Filesystem::F2fs => "F2FS"@,
        Filesystem::Unknown => "Unknown"@,
    }
}

impl Filesystem {
    /// The filesystem a name stands for, ignoring ASCII case.
    pub fn from_name(filesystem: &str) -> (r: Filesystem)
        ensures
            r == filesystem_named(filesystem@),
    {
        let lower = to_ascii_lowercase(filesystem);
        if str_equal(lower.as_str(), "fat32") {
            Filesystem::Fat32
        } else if str_equal(lower.as_str(), "ntfs") {
            Filesystem::Ntfs
        } else if str_equal(lower.as_str(), "ext4") {
            Filesystem::Ext4
        } else if str_equal(lower.as_str(), "xfs") {
            Filesystem::Xfs
        } else if str_equal(lower.as_str(), "btrfs") {
            Filesystem::Btrfs
        } else if str_equal(lower.as_str(), "zfs") {
            Filesystem::Zfs
        } else if str_equal(lower.as_str(), "apfs") {
            Filesystem::Apfs
        } else if str_equal(lower.as_str(), "hfs") {
            Filesystem::Hfs
        } else if str_equal(lower.as_str(), "ufs") {
            Filesystem::Ufs
        } else if str_equal(lower.as_str(), "exfat") {
            Filesystem::Exfat
        } else if str_equal(lower.as_str(), "fat16") {
            Filesystem::Fat16
        } else if str_equal(lower.as_str(), "fat12") {
            Filesystem::Fat12
        } else if str_equal(lower.as_str(), "fat") {
            Filesystem::Fat
        } else if str_equal(lower.as_str(), "ext3") {
            Filesystem::Ext3
        } else if str_equal(lower.as_str(), "ext2") {
            Filesystem::Ext2
        } else if str_equal(lower.as_str(), "refs") {
            Filesystem::Refs
        } else if str_equal(lower.as_str(), "jfs") {
            Filesystem::Jfs
        } else if str_equal(lower.as_str(), "nilfs") {
            Filesystem::Nilfs
        } else if str_equal(lower.as_str(), "f2fs") {
            Filesystem::F2fs
        } else {
            Filesystem::Unknown
        }
    }

    /// The filesystem of an optional name; no name is `Unknown`.
    pub fn from_option(filesystem: Option<String>) -> (r: Filesystem)
        ensures
            r == (match filesystem {
                Some(fs) => filesystem_named(fs@),
                None => Filesystem::Unknown,
            }),
    {
        match filesystem {
            Some(fs) => Filesystem::from_name(fs.as_str()),
            None => Filesystem::Unknown,
        }
    }

    /// The display name of this filesystem.
    pub fn to_string(&self) -> (r: String)
        ensures
            r@ == filesystem_display(*self),
    {
        match self {
            Filesystem::Fat32 => owned("FAT32"),
            Filesystem::Ntfs => owned("NTFS"),
            Filesystem::Ext4 => owned("EXT4"),
            Filesystem::Xfs => owned("XFS"),
            Filesystem::Btrfs => owned("BTRFS"),
            Filesystem::Zfs => owned("ZFS"),
            Filesystem::Apfs => owned("APFS"),
            Filesystem::Hfs => owned("HFS"),
            Filesystem::Ufs => owned("UFS"),
            Filesystem::Exfat => owned("EXFAT"),
            Filesystem::Fat16 => owned("FAT16"),
            Filesystem::Fat12 => owned("FAT12"),
            Filesystem::Fat => owned("FAT"),
            Filesystem::Ext3 => owned("EXT3"),
            Filesystem::Ext2 => owned("EXT2"),
            Filesystem::Refs => owned("REFS"),
            Filesystem::Jfs => owned("JFS"),
            Filesystem::Nilfs => owned("NILFS"),
            Filesystem::F2fs => owned("F2FS"),
            Filesystem::Unknown => owned("Unknown"),
        }
    }
}

impl From<String> for Filesystem {
    fn from(filesystem: String) -> (r: Filesystem) {
        Filesystem::from_name(filesystem.as_str())
    }
}

impl vstd::std_specs::convert::FromSpecImpl<String> for Filesystem {
    open spec fn obeys_from_spec() -> bool {
        true
    }

    open spec fn from_spec(filesystem: String) -> Filesystem {
        filesystem_named(filesystem@)
    }
}

impl From<Option<String>> for Filesystem {
    fn from(filesystem: Option<String>) -> (r: Filesystem) {
        Filesystem::from_option(filesystem)
    }
}

impl vstd::std_specs::convert::FromSpecImpl<Option<String>> for Filesystem {
    open spec fn obeys_from_spec() -> bool {
        true
    }

    open spec fn from_spec(filesystem: Option<String>) -> Filesystem {
        match filesystem {
            Some(fs) => filesystem_named(fs@),
            None => Filesystem::Unknown,
        }
    }
}

/// Reading back the display name of a filesystem gives that filesystem.
pub proof fn filesystem_display_round_trip(f: Filesystem)
    ensures
        filesystem_named(filesystem_display(f)) == f,
{
    match f {
        Filesystem::Fat32 => {
            reveal_strlit("FAT32");
            reveal_strlit("fat32");
            assert(ascii_lower("FAT32"@) =~= "fat32"@);
        },
        Filesystem::Ntfs => {
            reveal_strlit("NTFS");
            reveal_strlit("ntfs");
            assert(ascii_lower("NTFS"@) =~= "ntfs"@);
            reveal_strlit("fat32");
            assert("ntfs"@.len() != "fat32"@.len());
        },
        Filesystem::Ext4 => {
            reveal_strlit("EXT4");
            reveal_strlit("ext4");
            assert(ascii_lower("EXT4"@) =~= "ext4"@);
            reveal_strlit("fat32");
            assert("ext4"@.len() != "fat32"@.len());
            reveal_strlit("ntfs");
            assert("ext4"@[0] != "ntfs"@[0]);
        },
        Filesystem::Xfs => {
            reveal_strlit("XFS");
            reveal_strlit("xfs");
            assert(ascii_lower("XFS"@) =~= "xfs"@);
            reveal_strlit("fat32");
            assert("xfs"@.len() != "fat32"@.len());
            reveal_strlit("ntfs");
            assert("xfs"@.len() != "ntfs"@.len());
            reveal_strlit("ext4");
            assert("xfs"@.len() != "ext4"@.len());
        },
        Filesystem::Btrfs => {
            reveal_strlit("BTRFS");
            reveal_strlit("btrfs");
            assert(ascii_lower("BTRFS"@) =~= "btrfs"@);
            reveal_strlit("fat32");
            assert("btrfs"@[0] != "fat32"@[0]);
            reveal_strlit("ntfs");
            assert("btrfs"@.len() != "ntfs"@.len());
            reveal_strlit("ext4");
            assert("btrfs"@.len() != "ext4"@.len());
            reveal_strlit("xfs");
            assert("btrfs"@.len() != "xfs"@.len());
        },
        Filesystem::Zfs => {
            reveal_strlit("ZFS");
            reveal_strlit("zfs");
            assert(ascii_lower("ZFS"@) =~= "zfs"@);
            reveal_strlit("fat32");
            assert("zfs"@.len() != "fat32"@.len());
            reveal_strlit("ntfs");
            assert("zfs"@.len() != "ntfs"@.len());
            reveal_strlit("ext4");
            assert("zfs"@.len() != "ext4"@.len());
            reveal_strlit("xfs");
            assert("zfs"@[0] != "xfs"@[0]);
            reveal_strlit("btrfs");
            assert("zfs"@.len() != "btrfs"@.len());
        },
        Filesystem::Apfs => {
            reveal_strlit("APFS");
            reveal_strlit("apfs");
            assert(ascii_lower("APFS"@) =~= "apfs"@);
            reveal_strlit("fat32");
            assert("apfs"@.len() != "fat32"@.len());
            reveal_strlit("ntfs");
            assert("apfs"@[0] != "ntfs"@[0]);
            reveal_strlit("ext4");
            assert("apfs"@[0] != "ext4"@[0]);
            reveal_strlit("xfs");
            assert("apfs"@.len() != "xfs"@.len());
            reveal_strlit("btrfs");
            assert("apfs"@.len() != "btrfs"@.len());
            reveal_strlit("zfs");
            assert("apfs"@.len() != "zfs"@.len());
        },
        Filesystem::Hfs => {
            reveal_strlit("HFS");
            reveal_strlit("hfs");
            assert(ascii_lower("HFS"@) =~= "hfs"@);
            reveal_strlit("fat32");
            assert("hfs"@.len() != "fat32"@.len());
            reveal_strlit("ntfs");
            assert("hfs"@.len() != "ntfs"@.len());
            reveal_strlit("ext4");
            assert("hfs"@.len() != "ext4"@.len());
            reveal_strlit("xfs");
            assert("hfs"@[0] != "xfs"@[0]);
            reveal_strlit("btrfs");
            assert("hfs"@.len() != "btrfs"@.len());
            reveal_strlit("zfs");
            assert("hfs"@[0] != "zfs"@[0]);
            reveal_strlit("apfs");
            assert("hfs"@.len() != "apfs"@.len());
        },
        Filesystem::Ufs => {
            reveal_strlit("UFS");
            reveal_strlit("ufs");
            assert(ascii_lower("UFS"@) =~= "ufs"@);
            reveal_strlit("fat32");
            assert("ufs"@.len() != "fat32"@.len());
            reveal_strlit("ntfs");
            assert("ufs"@.len() != "ntfs"@.len());
            reveal_strlit("ext4");
            assert("ufs"@.len() != "ext4"@.len());
            reveal_strlit("xfs");
            assert("ufs"@[0] != "xfs"@[0]);
            reveal_strlit("btrfs");
            assert("ufs"@.len() != "btrfs"@.len());
            reveal_strlit("zfs");
            assert("ufs"@[0] != "zfs"@[0]);
            reveal_strlit("apfs");
            assert("ufs"@.len() != "apfs"@.len());
            reveal_strlit("hfs");
            assert("ufs"@[0] != "hfs"@[0]);
        },
        Filesystem::Exfat => {
            reveal_strlit("EXFAT");
            reveal_strlit("exfat");
            assert(ascii_lower("EXFAT"@) =~= "exfat"@);
            reveal_strlit("fat32");
            assert("exfat"@[0] != "fat32"@[0]);
            reveal_strlit("ntfs");
            assert("exfat"@.len() != "ntfs"@.len());
            reveal_strlit("ext4");
            assert("exfat"@.len() != "ext4"@.len());
            reveal_strlit("xfs");
            assert("exfat"@.len() != "xfs"@.len());
            reveal_strlit("btrfs");
            assert("exfat"@[0] != "btrfs"@[0]);
            reveal_strlit("zfs");
            assert("exfat"@.len() != "zfs"@.len());
            reveal_strlit("apfs");
            assert("exfat"@.len() != "apfs"@.len());
            reveal_strlit("hfs");
            assert("exfat"@.len() != "hfs"@.len());
            reveal_strlit("ufs");
            assert("exfat"@.len() != "ufs"@.len());
        },
        Filesystem::Fat16 => {
            reveal_strlit("FAT16");
            reveal_strlit("fat16");
            assert(ascii_lower("FAT16"@) =~= "fat16"@);
            reveal_strlit("fat32");
            assert("fat16"@[3] != "fat32"@[3]);
            reveal_strlit("ntfs");
            assert("fat16"@.len() != "ntfs"@.len());
            reveal_strlit("ext4");
            assert("fat16"@.len() != "ext4"@.len());
            reveal_strlit("xfs");
            assert("fat16"@.len() != "xfs"@.len());
            reveal_strlit("btrfs");
            assert("fat16"@[0] != "btrfs"@[0]);
            reveal_strlit("zfs");
            assert("fat16"@.len() != "zfs"@.len());
            reveal_strlit("apfs");
            assert("fat16"@.len() != "apfs"@.len());
            reveal_strlit("hfs");
            assert("fat16"@.len() != "hfs"@.len());
            reveal_strlit("ufs");
            assert("fat16"@.len() != "ufs"@.len());
            reveal_strlit("exfat");
            assert("fat16"@[0] != "exfat"@[0]);
        },
        Filesystem::Fat12 => {
            reveal_strlit("FAT12");
            reveal_strlit("fat12");
            assert(ascii_lower("FAT12"@) =~= "fat12"@);
            reveal_strlit("fat32");
            assert("fat12"@[3] != "fat32"@[3]);
            reveal_strlit("ntfs");
            assert("fat12"@.len() != "ntfs"@.len());
            reveal_strlit("ext4");
            assert("fat12"@.len() != "ext4"@.len());
            reveal_strlit("xfs");
            assert("fat12"@.len() != "xfs"@.len());
            reveal_strlit("btrfs");
            assert("fat12"@[0] != "btrfs"@[0]);
            reveal_strlit("zfs");
            assert("fat12"@.len() != "zfs"@.len());
            reveal_strlit("apfs");
            assert("fat12"@.len() != "apfs"@.len());
            reveal_strlit("hfs");
            assert("fat12"@.len() != "hfs"@.len());
            reveal_strlit("ufs");
            assert("fat12"@.len() != "ufs"@.len());
            reveal_strlit("exfat");
            assert("fat12"@[0] != "exfat"@[0]);
            reveal_strlit("fat16");
            assert("fat12"@[4] != "fat16"@[4]);
        },
        Filesystem::Fat => {
            reveal_strlit("FAT");
            reveal_strlit("fat");
            assert(ascii_lower("FAT"@) =~= "fat"@);
            reveal_strlit("fat32");
            assert("fat"@.len() != "fat32"@.len());
            reveal_strlit("ntfs");
            assert("fat"@.len() != "ntfs"@.len());
            reveal_strlit("ext4");
            assert("fat"@.len() != "ext4"@.len());
            reveal_strlit("xfs");
            assert("fat"@[0] != "xfs"@[0]);
            reveal_strlit("btrfs");
            assert("fat"@.len() != "btrfs"@.len());
            reveal_strlit("zfs");
            assert("fat"@[0] != "zfs"@[0]);
            reveal_strlit("apfs");
            assert("fat"@.len() != "apfs"@.len());
            reveal_strlit("hfs");
            assert("fat"@[0] != "hfs"@[0]);
            reveal_strlit("ufs");
            assert("fat"@[0] != "ufs"@[0]);
            reveal_strlit("exfat");
            assert("fat"@.len() != "exfat"@.len());
            reveal_strlit("fat16");
            assert("fat"@.len() != "fat16"@.len());
            reveal_strlit("fat12");
            assert("fat"@.len() != "fat12"@.len());
        },
        Filesystem::Ext3 => {
            reveal_strlit("EXT3");
            reveal_strlit("ext3");
            assert(ascii_lower("EXT3"@) =~= "ext3"@);
            reveal_strlit("fat32");
            assert("ext3"@.len() != "fat32"@.len());
            reveal_strlit("ntfs");
            assert("ext3"@[0] != "ntfs"@[0]);
            reveal_strlit("ext4");
            assert("ext3"@[3] != "ext4"@[3]);
            reveal_strlit("xfs");
            assert("ext3"@.len() != "xfs"@.len());
            reveal_strlit("btrfs");
            assert("ext3"@.len() != "btrfs"@.len());
            reveal_strlit("zfs");
            assert("ext3"@.len() != "zfs"@.len());
            reveal_strlit("apfs");
            assert("ext3"@[0] != "apfs"@[0]);
            reveal_strlit("hfs");
            assert("ext3"@.len() != "hfs"@.len());
            reveal_strlit("ufs");
            assert("ext3"@.len() != "ufs"@.len());
            reveal_strlit("exfat");
            assert("ext3"@.len() != "exfat"@.len());
            reveal_strlit("fat16");
            assert("ext3"@.len() != "fat16"@.len());
            reveal_strlit("fat12");
            assert("ext3"@.len() != "fat12"@.len());
            reveal_strlit("fat");
            assert("ext3"@.len() != "fat"@.len());
        },
        Filesystem::Ext2 => {
            reveal_strlit("EXT2");
            reveal_strlit("ext2");
            assert(ascii_lower("EXT2"@) =~= "ext2"@);
            reveal_strlit("fat32");
            assert("ext2"@.len() != "fat32"@.len());
            reveal_strlit("ntfs");
            assert("ext2"@[0] != "ntfs"@[0]);
            reveal_strlit("ext4");
            assert("ext2"@[3] != "ext4"@[3]);
            reveal_strlit("xfs");
            assert("ext2"@.len() != "xfs"@.len());
            reveal_strlit("btrfs");
            assert("ext2"@.len() != "btrfs"@.len());
            reveal_strlit("zfs");
            assert("ext2"@.len() != "zfs"@.len());
            reveal_strlit("apfs");
            assert("ext2"@[0] != "apfs"@[0]);
            reveal_strlit("hfs");
            assert("ext2"@.len() != "hfs"@.len());
            reveal_strlit("ufs");
            assert("ext2"@.len() != "ufs"@.len());
            reveal_strlit("exfat");
            assert("ext2"@.len() != "exfat"@.len());
            reveal_strlit("fat16");
            assert("ext2"@.len() != "fat16"@.len());
            reveal_strlit("fat12");
            assert("ext2"@.len() != "fat12"@.len());
            reveal_strlit("fat");
            assert("ext2"@.len() != "fat"@.len());
            reveal_strlit("ext3");
            assert("ext2"@[3] != "ext3"@[3]);
        },
        Filesystem::Refs => {
            reveal_strlit("REFS");
            reveal_strlit("refs");
            assert(ascii_lower("REFS"@) =~= "refs"@);
            reveal_strlit("fat32");
            assert("refs"@.len() != "fat32"@.len());
            reveal_strlit("ntfs");
            assert("refs"@[0] != "ntfs"@[0]);
            reveal_strlit("ext4");
            assert("refs"@[0] != "ext4"@[0]);
            reveal_strlit("xfs");
            assert("refs"@.len() != "xfs"@.len());
            reveal_strlit("btrfs");
            assert("refs"@.len() != "btrfs"@.len());
            reveal_strlit("zfs");
            assert("refs"@.len() != "zfs"@.len());
            reveal_strlit("apfs");
            assert("refs"@[0] != "apfs"@[0]);
            reveal_strlit("hfs");
            assert("refs"@.len() != "hfs"@.len());
            reveal_strlit("ufs");
            assert("refs"@.len() != "ufs"@.len());
            reveal_strlit("exfat");
            assert("refs"@.len() != "exfat"@.len());
            reveal_strlit("fat16");
            assert("refs"@.len() != "fat16"@.len());
            reveal_strlit("fat12");
            assert("refs"@.len() != "fat12"@.len());
            reveal_strlit("fat");
            assert("refs"@.len() != "fat"@.len());
            reveal_strlit("ext3");
            assert("refs"@[0] != "ext3"@[0]);
            reveal_strlit("ext2");
            assert("refs"@[0] != "ext2"@[0]);
        },
        Filesystem::Jfs => {
            reveal_strlit("JFS");
            reveal_strlit("jfs");
            assert(ascii_lower("JFS"@) =~= "jfs"@);
            reveal_strlit("fat32");
            assert("jfs"@.len() != "fat32"@.len());
            reveal_strlit("ntfs");
            assert("jfs"@.len() != "ntfs"@.len());
            reveal_strlit("ext4");
            assert("jfs"@.len() != "ext4"@.len());
            reveal_strlit("xfs");
            assert("jfs"@[0] != "xfs"@[0]);
            reveal_strlit("btrfs");
            assert("jfs"@.len() != "btrfs"@.len());
            reveal_strlit("zfs");
            assert("jfs"@[0] != "zfs"@[0]);
            reveal_strlit("apfs");
            assert("jfs"@.len() != "apfs"@.len());
            reveal_strlit("hfs");
            assert("jfs"@[0] != "hfs"@[0]);
            reveal_strlit("ufs");
            assert("jfs"@[0] != "ufs"@[0]);
            reveal_strlit("exfat");
            assert("jfs"@.len() != "exfat"@.len());
            reveal_strlit("fat16");
            assert("jfs"@.len() != "fat16"@.len());
            reveal_strlit("fat12");
            assert("jfs"@.len() != "fat12"@.len());
            reveal_strlit("fat");
            assert("jfs"@[0] != "fat"@[0]);
            reveal_strlit("ext3");
            assert("jfs"@.len() != "ext3"@.len());
            reveal_strlit("ext2");
            assert("jfs"@.len() != "ext2"@.len());
            reveal_strlit("refs");
            assert("jfs"@.len() != "refs"@.len());
        },
        Filesystem::Nilfs => {
            reveal_strlit("NILFS");
            reveal_strlit("nilfs");
            assert(ascii_lower("NILFS"@) =~= "nilfs"@);
            reveal_strlit("fat32");
            assert("nilfs"@[0] != "fat32"@[0]);
            reveal_strlit("ntfs");
            assert("nilfs"@.len() != "ntfs"@.len());
            reveal_strlit("ext4");
            assert("nilfs"@.len() != "ext4"@.len());
            reveal_strlit("xfs");
            assert("nilfs"@.len() != "xfs"@.len());
            reveal_strlit("btrfs");
            assert("nilfs"@[0] != "btrfs"@[0]);
            reveal_strlit("zfs");
            assert("nilfs"@.len() != "zfs"@.len());
            reveal_strlit("apfs");
            assert("nilfs"@.len() != "apfs"@.len());
            reveal_strlit("hfs");
            assert("nilfs"@.len() != "hfs"@.len());
            reveal_strlit("ufs");
            assert("nilfs"@.len() != "ufs"@.len());
            reveal_strlit("exfat");
            assert("nilfs"@[0] != "exfat"@[0]);
            reveal_strlit("fat16");
            assert("nilfs"@[0] != "fat16"@[0]);
            reveal_strlit("fat12");
            assert("nilfs"@[0] != "fat12"@[0]);
            reveal_strlit("fat");
            assert("nilfs"@.len() != "fat"@.len());
            reveal_strlit("ext3");
            assert("nilfs"@.len() != "ext3"@.len());
            reveal_strlit("ext2");
            assert("nilfs"@.len() != "ext2"@.len());
            reveal_strlit("refs");
            assert("nilfs"@.len() != "refs"@.len());
            reveal_strlit("jfs");
            assert("nilfs"@.len() != "jfs"@.len());
        },
        Filesystem::F2fs => {
            reveal_strlit("F2FS");
            reveal_strlit("f2fs");
            assert(ascii_lower("F2FS"@) =~= "f2fs"@);
            reveal_strlit("fat32");
            assert("f2fs"@.len() != "fat32"@.len());
            reveal_strlit("ntfs");
            assert("f2fs"@[0] != "ntfs"@[0]);
            reveal_strlit("ext4");
            assert("f2fs"@[0] != "ext4"@[0]);
            reveal_strlit("xfs");
            assert("f2fs"@.len() != "xfs"@.len());
            reveal_strlit("btrfs");
            assert("f2fs"@.len() != "btrfs"@.len());
            reveal_strlit("zfs");
            assert("f2fs"@.len() != "zfs"@.len());
            reveal_strlit("apfs");
            assert("f2fs"@[0] != "apfs"@[0]);
            reveal_strlit("hfs");
            assert("f2fs"@.len() != "hfs"@.len());
            reveal_strlit("ufs");
            assert("f2fs"@.len() != "ufs"@.len());
            reveal_strlit("exfat");
            assert("f2fs"@.len() != "exfat"@.len());
            reveal_strlit("fat16");
            assert("f2fs"@.len() != "fat16"@.len());
            reveal_strlit("fat12");
            assert("f2fs"@.len() != "fat12"@.len());
            reveal_strlit("fat");
            assert("f2fs"@.len() != "fat"@.len());
            reveal_strlit("ext3");
            assert("f2fs"@[0] != "ext3"@[0]);
            reveal_strlit("ext2");
            assert("f2fs"@[0] != "ext2"@[0]);
            reveal_strlit("refs");
            assert("f2fs"@[0] != "refs"@[0]);
            reveal_strlit("jfs");
            assert("f2fs"@.len() != "jfs"@.len());
            reveal_strlit("nilfs");
            assert("f2fs"@.len() != "nilfs"@.len());
        },
        Filesystem::Unknown => {
            reveal_strlit("Unknown");
            reveal_strlit("unknown");
            assert(ascii_lower("Unknown"@) =~= "unknown"@);
            reveal_strlit("fat32");
            assert("unknown"@.len() != "fat32"@.len());
            reveal_strlit("ntfs");
            assert("unknown"@.len() != "ntfs"@.len());
            reveal_strlit("ext4");
            assert("unknown"@.len() != "ext4"@.len());
            reveal_strlit("xfs");
            assert("unknown"@.len() != "xfs"@.len());
            reveal_strlit("btrfs");
            assert("unknown"@.len() != "btrfs"@.len());
            reveal_strlit("zfs");
            assert("unknown"@.len() != "zfs"@.len());
            reveal_strlit("apfs");
            assert("unknown"@.len() != "apfs"@.len());
            reveal_strlit("hfs");
            assert("unknown"@.len() != "hfs"@.len());
            reveal_strlit("ufs");
            assert("unknown"@.len() != "ufs"@.len());
            reveal_strlit("exfat");
            assert("unknown"@.len() != "exfat"@.len());
            reveal_strlit("fat16");
            assert("unknown"@.len() != "fat16"@.len());
            reveal_strlit("fat12");
            assert("unknown"@.len() != "fat12"@.len());
            reveal_strlit("fat");
            assert("unknown"@.len() != "fat"@.len());
            reveal_strlit("ext3");
            assert("unknown"@.len() != "ext3"@.len());
            reveal_strlit("ext2");
            assert("unknown"@.len() != "ext2"@.len());
            reveal_strlit("refs");
            assert("unknown"@.len() != "refs"@.len());
            reveal_strlit("jfs");
            assert("unknown"@.len() != "jfs"@.len());
            reveal_strlit("nilfs");
            assert("unknown"@.len() != "nilfs"@.len());
            reveal_strlit("f2fs");
            assert("unknown"@.len() != "f2fs"@.len());
        },
    }
}

} // verus!
