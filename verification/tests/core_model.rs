use foruster::app_core::disk::Disk as AppDisk;
use foruster::app_core::file::{FileEntry, HashFunction};
use foruster::app_core::filesystem::Filesystem as AppFilesystem;
use foruster::foruster_core::disk::Disk;
use foruster::foruster_core::filesystem::Filesystem;
use foruster::foruster_core::identification_data::IdentificationData;
use foruster::foruster_core::partition::{GPTPartitionAttribute, Partition, PartitionType};
use foruster::foruster_core::storage_bus_type::StorageBusType;
use foruster::foruster_core::volume::Volume;
use foruster::layers::link_layers::{link_volume_to_partition, volume_device_path, DiskExtent};
use foruster::layers::volumes::volume_from_reports;
use foruster::layers::utils::{generate_gpt_attributes_vec, utf16_to_multiple_strings, utf16_to_string};
use foruster::storage::identification_data::IdentificationData as TrimmedIdentification;

#[test]
fn bus_type_codes_round_trip() {
    assert_eq!(StorageBusType::from(0x11u8), StorageBusType::Nvme);
    assert_eq!(StorageBusType::from(0x42u8), StorageBusType::Unknown);
    assert_eq!(StorageBusType::Nvme.code(), 0x11);
    assert_eq!(StorageBusType::Unknown.code(), 0x80);
    assert_eq!(StorageBusType::from(StorageBusType::Sd.code()), StorageBusType::Sd);
    assert_eq!(StorageBusType::FireWire1394.to_string(), "1394");
}

#[test]
fn windows_filesystem_names_are_exact() {
    assert_eq!(Filesystem::from_name("NTFS"), Filesystem::NTFS);
    assert_eq!(Filesystem::from_name("ntfs"), Filesystem::UNKNOWN);
    assert_eq!(Filesystem::from_option(None), Filesystem::UNKNOWN);
    assert_eq!(Filesystem::REFS.to_string(), "REFS");
}

#[test]
fn application_filesystem_names_ignore_case() {
    assert_eq!(AppFilesystem::from("exfat".to_string()), AppFilesystem::Exfat);
    assert_eq!(AppFilesystem::from(Some("Btrfs".to_string())), AppFilesystem::Btrfs);
    assert_eq!(AppFilesystem::from(None::<String>), AppFilesystem::Unknown);
    assert_eq!(AppFilesystem::Unknown.to_string(), "Unknown");
}

#[test]
fn volume_splits_drive_letters_from_folders() {
    let v = Volume::new(
        "\\\\?\\Volume{abc}\\".to_string(),
        Some("NTFS".to_string()),
        100,
        40,
        vec!["C:\\".to_string(), "D:\\mnt\\data".to_string()],
    );
    assert_eq!(v.drive_letters(), &['C']);
    assert_eq!(v.mount_points(), &["D:\\mnt\\data".to_string()]);
    assert_eq!(*v.filesystem(), Filesystem::NTFS);
    assert!(v.is_mounted());
    assert_eq!(v.guid_identifier(), "abc");
    assert_eq!(volume_device_path(&v), Some("\\\\?\\Volume{abc}".to_string()));
}

#[test]
fn volumes_land_on_the_partition_their_extent_starts() {
    let ident = IdentificationData::new(None, None, None, None, StorageBusType::Sata, false);
    let p1 = Partition::new(1, 1024, 10, None, PartitionType::MBR { bootable: true, partition_type: 7 });
    let p2 = Partition::new(2, 4096, 10, None, PartitionType::MBR { bootable: false, partition_type: 7 });
    let mut disks = vec![Disk::new(0, ident, vec![p1, p2])];
    let v = Volume::new("\\\\?\\Volume{x}\\".to_string(), None, 1, 1, vec!["E:\\".to_string()]);
    let extents = vec![vec![DiskExtent { disk_number: 0, starting_offset: 4096 }]];
    link_volume_to_partition(&[v], &mut disks, &extents);
    assert!(disks[0].partitions()[0].volume().is_none());
    assert_eq!(disks[0].partitions()[1].volume().as_ref().unwrap().drive_letters(), &['E']);
}

#[test]
fn utf16_helpers_stop_at_nul() {
    let wide: Vec<u16> = "ab\0cd".encode_utf16().collect();
    assert_eq!(utf16_to_string(&wide).unwrap(), "ab");
    let multi: Vec<u16> = "C:\\\0D:\\\0\0junk".encode_utf16().collect();
    assert_eq!(utf16_to_multiple_strings(&multi, 8), vec!["C:\\".to_string(), "D:\\".to_string()]);
    assert!(utf16_to_string(&[0xD800]).is_err());
}

#[test]
fn gpt_attribute_bits() {
    let attrs = generate_gpt_attributes_vec(0x8000000000000001);
    assert_eq!(
        attrs,
        vec![
            GPTPartitionAttribute::PlatformRequired,
            GPTPartitionAttribute::BasicDataNoDriveLetter,
            GPTPartitionAttribute::SpacesNoMetadata
        ]
    );
    assert!(generate_gpt_attributes_vec(0).is_empty());
}

#[test]
fn stored_digest_is_read_back() {
    let mut f = FileEntry::new("/tmp/a.bin".to_string(), 12);
    assert_eq!(f.path(), "/tmp/a.bin");
    assert_eq!(f.size(), 12);
    assert!(f.hash(&HashFunction::Md5).is_none());
    f.add_hash(HashFunction::Md5, "aa".to_string());
    f.add_hash(HashFunction::Sha256, "bb".to_string());
    f.add_hash(HashFunction::Md5, "cc".to_string());
    assert_eq!(f.hash(&HashFunction::Md5), Some(&"cc".to_string()));
    assert_eq!(f.hash(&HashFunction::Sha256), Some(&"bb".to_string()));
    assert!(f.hash(&HashFunction::Blake3).is_none());
}

#[test]
fn application_disk_name_joins_vendor_and_model() {
    let ident = TrimmedIdentification::new(
        Some(" Kingston ".to_string()),
        Some("DataTraveler\n".to_string()),
        Some("123".to_string()),
        None,
        StorageBusType::Usb,
        true,
    );
    let disk = AppDisk::new(3, ident, Vec::new(), 64);
    assert_eq!(disk.name(), "Kingston DataTraveler");
    assert_eq!(disk.number(), 3);
    assert_eq!(disk.total_size(), 64);
    assert!(disk.identification_data().removable());
    let ident = TrimmedIdentification::new(Some("Kingston".to_string()), None, None, None, StorageBusType::Usb, true);
    assert_eq!(AppDisk::new(1, ident, Vec::new(), 0).name(), "Kingston");
}

#[test]
fn reported_volume_reads_its_buffers() {
    let guid: Vec<u16> = "\\\\?\\Volume{ab}\\\0".encode_utf16().collect();
    let fs: Vec<u16> = "NTFS\0\0\0".encode_utf16().collect();
    let paths: Vec<u16> = "C:\\\0D:\\mnt\\\0\0".encode_utf16().collect();
    let v = volume_from_reports(&guid, Some(&fs), 100, 40, &paths, paths.len()).unwrap();
    assert_eq!(v.guid(), "\\\\?\\Volume{ab}\\");
    assert_eq!(*v.filesystem(), Filesystem::NTFS);
    assert_eq!(v.size(), 100);
    assert_eq!(v.free_space(), 40);
    assert_eq!(v.drive_letters(), &['C']);
    assert_eq!(v.mount_points(), &["D:\\mnt\\".to_string()]);
    let none = volume_from_reports(&guid, None, 1, 1, &paths, 0).unwrap();
    assert_eq!(*none.filesystem(), Filesystem::UNKNOWN);
    assert!(none.drive_letters().is_empty());
    let bad: Vec<u16> = vec![0xD800, 0x41, 0];
    assert!(volume_from_reports(&bad, None, 1, 1, &paths, 0).is_none());
}
