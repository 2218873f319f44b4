use foruster::storage::device_events::{Debouncer, DeviceEvent};
use foruster::storage::disk::Disk;
use foruster::storage::driver::{device_number, link_volumes_to_partitions};
use foruster::storage::filesystem::Filesystem;
use foruster::storage::linux::storage_devices;
use foruster::storage::identification_data::{IdentificationData, StorageBusType};
use foruster::storage::mounts::{is_virtual_filesystem, mount_entries, mount_point_of_device, read_mountstats};
use foruster::storage::partition::Partition;
use foruster::storage::sysfs::{
    detect_bus_type, disk_field, disk_from_block_device, is_skipped_block_entry, partition_number,
    partitions_for_disk, sort_by_number, BlockDevice, PartitionEntry,
};
use foruster::storage::volume::Volume;
use foruster::storage::windows_layout::{
    disk_from_reports, extract_string, identification_from_descriptor, partitions_from_layout, total_size_from_geometry,
};
use foruster::storage::volume_table::{
    base_device, braced_uuid, device_name, disk_usage, record_mount, uuid_link_targets, DiskUsage, VolumeTable,
};

fn sample_disk(name: &str) -> BlockDevice {
    BlockDevice {
        name: name.to_string(),
        model: Some("  Samsung SSD 860  \n".to_string()),
        vendor: Some("ATA     \n".to_string()),
        serial: Some("S3Z9NB0K\n".to_string()),
        firmware_rev: Some("\n".to_string()),
        size: Some("1000\n".to_string()),
        device_link: Some("../../devices/pci0000:00/ata1/host0/target0:0:0/0:0:0:0".to_string()),
        entries: vec![
            PartitionEntry { name: format!("{}2", name), start: Some("4096\n".to_string()), size: Some("10\n".to_string()) },
            PartitionEntry { name: "queue".to_string(), start: None, size: None },
            PartitionEntry { name: format!("{}1", name), start: Some("2048\n".to_string()), size: Some("20\n".to_string()) },
            PartitionEntry { name: format!("{}3", name), start: Some("oops".to_string()), size: Some("1".to_string()) },
        ],
    }
}

#[test]
fn it_works() {
    let volume = Volume::new("{1234-ABCD}".to_string(), Some("ext4".to_string()), 10, 5, vec!["/".to_string()]);
    let mut volumes = VolumeTable::new();
    volumes.insert("sda1".to_string(), volume);
    let disks = storage_devices(vec![sample_disk("sda")], &volumes).unwrap();
    for device in &disks {
        println!("DEVICE:\n{:?}\n", device);
    }
    assert_eq!(disks[0].partitions().len(), 2);
    assert!(disks[0].partitions()[0].volume().is_some());
    assert!(disks[0].partitions()[1].volume().is_none());
}

#[test]
fn disk_from_sysfs_reads_every_attribute() {
    let disk = disk_from_block_device(sample_disk("sdb"));
    assert_eq!(disk.id(), "sdb");
    assert_eq!(disk.name(), "ATA Samsung SSD 860");
    assert_eq!(disk.identification_data().serial_number(), &Some("S3Z9NB0K".to_string()));
    assert_eq!(disk.identification_data().product_revision(), &None);
    assert_eq!(*disk.identification_data().bus_type(), StorageBusType::Sata);
    assert!(!disk.identification_data().removable());
    assert_eq!(disk.total_size(), 512_000);
    let numbers: Vec<u32> = disk.partitions().iter().map(|p| p.number()).collect();
    assert_eq!(numbers, vec![1, 2]);
    assert_eq!(disk.partitions()[0].starting_offset(), 2048 * 512);
    assert_eq!(disk.partitions()[0].size(), 20 * 512);
}

#[test]
fn disk_name_falls_back_to_unknown() {
    let ident = IdentificationData::new(None, None, None, None, StorageBusType::Unknown, true);
    let disk = Disk::new("nvme0n1".to_string(), ident, Vec::new(), 0);
    assert_eq!(disk.name(), "Unknown");
    let ident = IdentificationData::new(None, Some(" WD Blue ".to_string()), None, None, StorageBusType::Nvme, false);
    let disk = Disk::new("nvme0n1".to_string(), ident, Vec::new(), 0);
    assert_eq!(disk.name(), "WD Blue");
}

#[test]
fn filesystem_names_ignore_ascii_case() {
    assert_eq!(Filesystem::from("NtFs".to_string()), Filesystem::Ntfs);
    assert_eq!(Filesystem::from("vfat".to_string()), Filesystem::Unknown);
    assert_eq!(Filesystem::from(None::<String>), Filesystem::Unknown);
    assert_eq!(Filesystem::Exfat.to_string(), "EXFAT");
    assert_eq!(Filesystem::from(Filesystem::F2fs.to_string()), Filesystem::F2fs);
}

#[test]
fn adding_a_mount_point_twice_keeps_one() {
    let mut v = Volume::new("{A}".to_string(), None, 1, 1, Vec::new());
    assert!(!v.is_mounted());
    v.add_mount_point("/mnt/usb".to_string());
    v.add_mount_point("/mnt/usb".to_string());
    v.add_mount_point("/mnt/usb/".to_string());
    assert_eq!(v.mount_points(), &["/mnt/usb".to_string()]);
    v.add_mount_point("/media/usb".to_string());
    assert_eq!(v.mount_points().len(), 2);
    assert!(v.is_mounted());
}

#[test]
fn guid_identifier_is_between_braces() {
    let v = Volume::new("\\\\?\\Volume{4c1b02c1-d990-11dc-99ae-806e6f6e6963}\\".to_string(), None, 0, 0, Vec::new());
    assert_eq!(v.guid_identifier(), "4c1b02c1-d990-11dc-99ae-806e6f6e6963");
}

#[test]
fn device_numbers_of_partitions() {
    assert_eq!(device_number("/dev/nvme0n1p3"), 3);
    assert_eq!(device_number("sda1"), 1);
    assert_eq!(device_number("/dev/sda1"), 0);
    assert_eq!(device_number("/dev/nvme0n1"), 0);
}

#[test]
fn later_volume_wins_the_partition() {
    let ident = IdentificationData::new(None, None, None, None, StorageBusType::Unknown, false);
    let mut disks = vec![Disk::new(
        "sda".to_string(),
        ident,
        vec![Partition::new(1, 0, 10, None), Partition::new(2, 10, 10, None)],
        20,
    )];
    let a = Volume::new("{A}".to_string(), None, 1, 1, Vec::new());
    let b = Volume::new("{B}".to_string(), None, 1, 1, Vec::new());
    let volumes = vec![("sda1".to_string(), a), ("sdb1".to_string(), b)];
    link_volumes_to_partitions(&mut disks, &volumes).unwrap();
    assert_eq!(disks[0].partitions()[0].volume().as_ref().unwrap().guid(), "{B}");
    assert!(disks[0].partitions()[1].volume().is_none());
}

#[test]
fn virtual_filesystems_are_recognised() {
    assert!(is_virtual_filesystem("tmpfs"));
    assert!(is_virtual_filesystem("cgroup2"));
    assert!(!is_virtual_filesystem("ext4"));
}

#[test]
fn mountinfo_lines_of_real_devices() {
    let text = "22 1 8:1 / / rw,relatime shared:1 - ext4 /dev/sda1 rw\n\
                23 22 0:5 / /dev rw shared:2 - devtmpfs udev rw\n\
                24 22 7:0 / /snap/core rw shared:3 - squashfs /dev/loop0 ro\n\
                short line\n\
                25 22 8:2 / /home rw,relatime shared:4 - xfs /dev/sda2 rw\n";
    let entries = mount_entries(text);
    assert_eq!(entries.len(), 2);
    assert_eq!(entries[0].mount_point, "/");
    assert_eq!(entries[0].filesystem, "ext4");
    assert_eq!(entries[0].device, "/dev/sda1");
    assert_eq!(entries[1].device, "/dev/sda2");
}

#[test]
fn mounts_and_mountstats() {
    let mounts = "/dev/sda1 / ext4 rw 0 0\n/dev/sda2 /home xfs rw 0 0\n";
    assert_eq!(mount_point_of_device(mounts, "/dev/sda2"), Some("/home".to_string()));
    assert_eq!(mount_point_of_device(mounts, "/dev/sdc1"), None);
    let stats = "device /dev/sda2 mounted on /home with fstype xfs statfs: bsize= 4096 bavail= 100 files= 3\n";
    assert_eq!(read_mountstats(stats, "/home"), Some(409_600));
    assert_eq!(read_mountstats(stats, "/data"), None);
    let broken = "device x mounted on /home statfs: bavail= many\n";
    assert_eq!(read_mountstats(broken, "/home"), None);
}

#[test]
fn disk_usage_from_kernel_files() {
    let u = disk_usage(" 2000\n", Some("4096\n"), None).unwrap();
    assert_eq!(u.total, 8_192_000);
    assert_eq!(u.available, 8_192_000);
    let u = disk_usage("10", Some("bad"), Some(7)).unwrap();
    assert_eq!(u.total, 5120);
    assert_eq!(u.available, 7);
    assert!(disk_usage("x", None, None).is_none());
}

#[test]
fn device_names_and_uuid_links() {
    assert_eq!(device_name("/dev/sda1"), "sda1");
    assert_eq!(device_name("sda1"), "sda1");
    assert_eq!(base_device("sda12"), "sda");
    assert_eq!(base_device("nvme0n1p2"), "nvme0n1");
    assert_eq!(braced_uuid("abcd"), "{abcd}");
    assert!(uuid_link_targets("../../sda1", "/dev/sda1"));
    assert!(!uuid_link_targets("../../sda2", "/dev/sda1"));
}

#[test]
fn volume_table_keeps_one_volume_per_device() {
    let mut table = VolumeTable::new();
    let entries = mount_entries(
        "1 1 8:1 / /mnt/a rw shared:1 - ext4 /dev/sdb1 rw\n2 1 8:1 / /mnt/b rw shared:1 - ext4 /dev/sdb1 rw\n3 1 8:2 / /mnt/c rw shared:2 - vfat /dev/sdb2 rw\n",
    );
    let usage = Some(DiskUsage { total: 100, available: 50 });
    record_mount(&mut table, &entries[0], "{U1}".to_string(), usage);
    record_mount(&mut table, &entries[1], "{U1}".to_string(), usage);
    record_mount(&mut table, &entries[2], "{U2}".to_string(), None);
    let all = table.entries();
    assert_eq!(all.len(), 1);
    assert_eq!(all[0].0, "/dev/sdb1");
    assert_eq!(all[0].1.mount_points(), &["/mnt/a".to_string(), "/mnt/b".to_string()]);
    assert_eq!(*all[0].1.filesystem(), Filesystem::Ext4);
    assert_eq!(table.find("/dev/sdb1"), Some(0));
    table.insert("/dev/sdb1".to_string(), Volume::new("{U9}".to_string(), None, 1, 1, Vec::new()));
    assert_eq!(table.entries()[0].1.guid(), "{U9}");
    assert_eq!(table.into_entries().len(), 1);
}

#[test]
fn sysfs_attributes_and_bus_types() {
    assert!(is_skipped_block_entry("loop3"));
    assert!(is_skipped_block_entry("dm-0"));
    assert!(!is_skipped_block_entry("sda"));
    assert_eq!(disk_field(Some("  x \n".to_string())), Some("x".to_string()));
    assert_eq!(disk_field(Some(" \n".to_string())), None);
    assert_eq!(detect_bus_type(Some("/devices/pci/nvme/nvme0")), StorageBusType::Nvme);
    assert_eq!(detect_bus_type(Some("/devices/pci/usb2/2-1")), StorageBusType::Usb);
    assert_eq!(detect_bus_type(None), StorageBusType::Unknown);
}

#[test]
fn partition_numbers_of_directory_entries() {
    assert_eq!(partition_number("nvme0n1", "nvme0n1p2"), 2);
    assert_eq!(partition_number("sda", "sda10"), 10);
    assert_eq!(partition_number("sda", "sdasda3"), 3);
    assert_eq!(partition_number("sda", "sda"), 0);
    let parts = partitions_for_disk(
        "nvme0n1",
        vec![PartitionEntry { name: "nvme0n1p1".to_string(), start: Some("1".to_string()), size: Some("2".to_string()) }],
    );
    assert_eq!(parts.len(), 1);
    assert_eq!(parts[0].number(), 1);
}

#[test]
fn sorting_partitions_keeps_equal_numbers_in_order() {
    let parts = vec![
        Partition::new(3, 1, 0, None),
        Partition::new(1, 2, 0, None),
        Partition::new(3, 3, 0, None),
        Partition::new(2, 4, 0, None),
    ];
    let sorted = sort_by_number(parts);
    let keys: Vec<(u32, u64)> = sorted.iter().map(|p| (p.number(), p.starting_offset())).collect();
    assert_eq!(keys, vec![(1, 2), (2, 4), (3, 1), (3, 3)]);
}

#[test]
fn repeated_device_notices_are_dropped_for_a_second() {
    let mut d = Debouncer::new();
    assert!(d.accept(DeviceEvent::Added, 1000));
    assert!(!d.accept(DeviceEvent::Added, 1500));
    assert!(d.accept(DeviceEvent::Removed, 1500));
    assert!(d.accept(DeviceEvent::Added, 2000));
    assert!(!d.accept(DeviceEvent::Added, 10));
}

fn put_u32(buf: &mut Vec<u8>, at: usize, v: u32) {
    buf[at..at + 4].copy_from_slice(&v.to_le_bytes());
}

fn put_u64(buf: &mut Vec<u8>, at: usize, v: u64) {
    buf[at..at + 8].copy_from_slice(&v.to_le_bytes());
}

fn sample_descriptor() -> Vec<u8> {
    let mut buf = vec![0u8; 40];
    buf[10] = 1;
    put_u32(&mut buf, 12, 40);
    put_u32(&mut buf, 16, 48);
    put_u32(&mut buf, 20, 0);
    put_u32(&mut buf, 24, 60);
    put_u32(&mut buf, 28, 0x0107);
    buf.extend_from_slice(b"  Acme \0");
    buf.extend_from_slice(b"Stick 64\0");
    buf.extend_from_slice(b"\0\0\0");
    buf.extend_from_slice(b"SN42");
    buf
}

fn sample_layout(style: u32) -> Vec<u8> {
    let mut buf = vec![0u8; 48 + 144 + 3 * 144];
    put_u32(&mut buf, 0, style);
    put_u32(&mut buf, 4, 3);
    for (k, (number, start, size)) in [(1u32, 1048576u64, 4096u64), (0, 0, 0), (2, 8388608, 65536)].iter().enumerate() {
        let at = 48 + 144 * k;
        put_u64(&mut buf, at + 8, *start);
        put_u64(&mut buf, at + 16, *size);
        put_u32(&mut buf, at + 24, *number);
    }
    buf
}

#[test]
fn descriptor_texts_are_read_at_their_offsets() {
    let buf = sample_descriptor();
    assert_eq!(extract_string(&buf, 40), Some("  Acme ".to_string()));
    assert_eq!(extract_string(&buf, 60), Some("SN42".to_string()));
    assert_eq!(extract_string(&buf, 0), None);
    assert_eq!(extract_string(&buf, 1000), None);
    assert_eq!(extract_string(&[0x41, 0xff, 0x42, 0], 1), Some("\u{fffd}B".to_string()));
}

#[test]
fn descriptor_gives_identification() {
    let ident = identification_from_descriptor(&sample_descriptor());
    assert_eq!(ident.vendor(), &Some("Acme".to_string()));
    assert_eq!(ident.model(), &Some("Stick 64".to_string()));
    assert_eq!(ident.serial_number(), &Some("SN42".to_string()));
    assert_eq!(ident.product_revision(), &None);
    assert_eq!(*ident.bus_type(), StorageBusType::Usb);
    assert!(ident.removable());
}

#[test]
fn layout_gives_numbered_partitions() {
    let parts = partitions_from_layout(&sample_layout(1)).unwrap();
    let seen: Vec<(u32, u64, u64)> = parts.iter().map(|p| (p.number(), p.starting_offset(), p.size())).collect();
    assert_eq!(seen, vec![(1, 1048576, 4096), (2, 8388608, 65536)]);
    assert!(partitions_from_layout(&sample_layout(2)).unwrap().is_empty());
    let short = sample_layout(0)[..48 + 3 * 144].to_vec();
    assert!(partitions_from_layout(&short).is_none());
    assert!(partitions_from_layout(&[0u8; 10]).is_none());
}

#[test]
fn geometry_size_multiplies_and_wraps() {
    assert_eq!(total_size_from_geometry(1000, 255, 63, 512), 1000 * 255 * 63 * 512);
    assert_eq!(total_size_from_geometry(-1, 1, 1, 1), u64::MAX);
}

#[test]
fn windows_reports_make_a_disk() {
    let disk = disk_from_reports(3, &sample_descriptor(), &sample_layout(0), 10, 2, 4, 512);
    assert_eq!(disk.id(), "3");
    assert_eq!(disk.name(), "Acme Stick 64");
    assert_eq!(disk.total_size(), 10 * 2 * 4 * 512);
    assert_eq!(disk.partitions().len(), 2);
}

#[test]
fn linux_devices_link_every_disk() {
    let mut volumes = VolumeTable::new();
    volumes.insert("/dev/nvme0n1p2".to_string(), Volume::new("u2".to_string(), None, 1, 0, vec![]));
    let disks = storage_devices(vec![sample_disk("sda"), sample_disk("sdb")], &volumes).unwrap();
    assert_eq!(disks.len(), 2);
    assert_eq!(disks[0].id(), "sda");
    assert_eq!(disks[1].id(), "sdb");
    for d in &disks {
        assert!(d.partitions()[0].volume().is_none());
        assert_eq!(d.partitions()[1].volume().as_ref().map(|v| v.guid().to_string()), Some("u2".to_string()));
    }
    assert!(storage_devices(Vec::new(), &volumes).unwrap().is_empty());
}

#[test]
fn sata_device_paths_link_no_partition() {
    let mut volumes = VolumeTable::new();
    volumes.insert("/dev/sda1".to_string(), Volume::new("u1".to_string(), None, 1, 0, vec![]));
    let disks = storage_devices(vec![sample_disk("sda")], &volumes).unwrap();
    assert!(disks[0].partitions().iter().all(|p| p.volume().is_none()));
}

#[test]
fn identification_is_described_line_by_line() {
    let ident = IdentificationData::new(Some(" ATA ".to_string()), None, Some("S3Z9".to_string()), None, StorageBusType::Sata, false);
    assert_eq!(ident.to_string(), "Vendor: ATA\nSerial number: S3Z9\nBus type: SATA\nRemovable: false\n");
    let bare = IdentificationData::new(None, None, None, None, StorageBusType::Unknown, true);
    assert_eq!(bare.to_string(), "Bus type: UNKNOWN\nRemovable: true\n");
}
