use foruster::analysis::engine::AnalysisState;
use foruster::app_core::disk::Disk as AppDisk;
use foruster::desktop::disks::{map_to_disk_row, num_selected_disks, refresh_disks, DiskRow};
use foruster::desktop::paths::{check_paths, get_start_paths, path_row, redundant_count};
use foruster::desktop::results::{
    describe_file, error_files, filter_choices, format_duration, go_to_page, join_labels, next_page, page_range,
    previous_page, state_text, PageRequest, Paging,
};
use foruster::foruster_core::partition::{Partition, PartitionType};
use foruster::foruster_core::volume::Volume as CoreVolume;
use foruster::storage::disk::Disk;
use foruster::storage::identification_data::{IdentificationData, StorageBusType};
use foruster::storage::partition::Partition as StoragePartition;
use foruster::storage::volume::Volume;

#[test]
fn durations_leave_out_leading_zero_units() {
    assert_eq!(format_duration(0), "0s");
    assert_eq!(format_duration(59), "59s");
    assert_eq!(format_duration(61), "1m 1s");
    assert_eq!(format_duration(3600), "1h 0m 0s");
    assert_eq!(format_duration(3725), "1h 2m 5s");
}

#[test]
fn state_texts_and_error_counts() {
    assert_eq!(state_text(AnalysisState::Walking), "Escaneando archivos...");
    assert_eq!(state_text(AnalysisState::Done), "Análisis completado");
    assert_eq!(error_files(10, 7), 3);
    assert_eq!(error_files(3, 7), 0);
}

#[test]
fn files_are_described_by_extension() {
    let d = describe_file("/home/u/Photo.JPG");
    assert_eq!((d.name.as_str(), d.parent.as_str(), d.file_type.as_str()), ("Photo.JPG", "/home/u", "Imagen"));
    assert_eq!(describe_file("/home/u/model.blend").file_type, "Modelo 3D");
    assert_eq!(describe_file("/home/u/README").file_type, "Archivo");
    assert_eq!(describe_file("/home/u/x.weird").file_type, "Archivo");
    let root = describe_file("/");
    assert_eq!(root.name, "archivo_sin_nombre");
    assert_eq!(root.parent, "Ruta desconocida");
}

#[test]
fn pages_of_the_result_list() {
    assert_eq!(page_range(1, 50, 120), Some((0, 50)));
    assert_eq!(page_range(3, 50, 120), Some((100, 120)));
    assert_eq!(page_range(4, 50, 120), None);
    assert_eq!(page_range(1, -1, 120), Some((0, 120)));
    assert_eq!(page_range(3, 50, 100), None);
    assert_eq!(next_page(1, 3), Some(2));
    assert_eq!(next_page(3, 3), None);
    assert_eq!(previous_page(1), None);
    assert_eq!(previous_page(2), Some(1));
    assert_eq!(go_to_page(3, 3), Some(3));
    assert_eq!(go_to_page(0, 3), None);
}

#[test]
fn profile_labels_for_the_filter() {
    let labels = vec!["Audios".to_string(), "Texto".to_string()];
    assert_eq!(join_labels(&labels), "Audios, Texto");
    assert_eq!(join_labels(&[]), "");
    assert_eq!(filter_choices(&labels), vec!["Todos".to_string(), "Audios".to_string(), "Texto".to_string()]);
}

#[test]
fn folders_inside_other_folders_are_redundant() {
    let mut rows = vec![
        path_row("/home/u/docs".to_string(), "{A}".to_string()),
        path_row("/home/u".to_string(), "{A}".to_string()),
        path_row("/mnt".to_string(), String::new()),
    ];
    check_paths(&mut rows);
    assert!(rows[0].redundant);
    assert_eq!(rows[0].redundancy_message, "La ruta /home/u/docs es un subdirectorio de /home/u");
    assert!(!rows[1].redundant);
    assert_eq!(rows[1].redundancy_message, "");
    assert!(!rows[2].redundant);
    assert_eq!(redundant_count(&rows), 1);
    assert_eq!(rows[0].volume_id, "{A}");
}

#[test]
fn start_paths_of_selected_disks() {
    let ident = IdentificationData::new(Some("ACME".to_string()), Some("Disk".to_string()), None, None, StorageBusType::Usb, true);
    let v = Volume::new("{V}".to_string(), None, 0, 0, vec!["/media/a".to_string(), "/media/b".to_string()]);
    let disk = Disk::new("sdb".to_string(), ident, vec![StoragePartition::new(1, 0, 0, Some(v))], 0);
    let disks = vec![disk];
    let rows = get_start_paths(&disks, &["ACME Disk".to_string()]);
    assert_eq!(rows.len(), 2);
    assert_eq!(rows[1].path, "/media/b");
    assert_eq!(rows[1].volume_id, "{V}");
    assert!(get_start_paths(&disks, &["Other".to_string()]).is_empty());
}

fn app_disk(vendor: &str, mounted: bool) -> AppDisk {
    let ident = IdentificationData::new(Some(vendor.to_string()), None, Some("SN1".to_string()), None, StorageBusType::Usb, true);
    let paths = if mounted { vec!["E:\\".to_string()] } else { Vec::new() };
    let v = CoreVolume::new("{V}".to_string(), None, 0, 0, paths);
    let p1 = Partition::new(1, 0, 0, Some(v), PartitionType::MBR { bootable: false, partition_type: 7 });
    let p2 = Partition::new(2, 0, 0, None, PartitionType::MBR { bootable: false, partition_type: 7 });
    AppDisk::new(0, ident, vec![p1, p2], 0)
}

#[test]
fn disk_rows_count_mounted_partitions() {
    let row = map_to_disk_row(&app_disk("Kingston", true));
    assert_eq!(row.name, "Kingston");
    assert_eq!(row.serial, "SN1");
    assert_eq!(row.partitions, 2);
    assert_eq!(row.mounted_partitions, 1);
    assert_eq!(row.interface, "USB");
    assert!(!row.selected);
    assert_eq!(map_to_disk_row(&app_disk("Kingston", false)).mounted_partitions, 0);
}

#[test]
fn refreshing_the_disk_list() {
    let mut rows: Vec<DiskRow> = vec![map_to_disk_row(&app_disk("Old", true)), map_to_disk_row(&app_disk("Kept", true))];
    rows[1].selected = true;
    refresh_disks(&mut rows, &[app_disk("Kept", false), app_disk("New", true), app_disk("New", false)]);
    let names: Vec<&str> = rows.iter().map(|r| r.name.as_str()).collect();
    assert_eq!(names, vec!["Kept", "New"]);
    assert!(rows[0].selected);
    assert_eq!(num_selected_disks(&rows), 1);
}

#[test]
fn paging_requests_stay_within_the_pages() {
    let mut p = Paging::new();
    assert_eq!((p.current_page, p.total_pages, p.total_items, p.items_per_page), (1, 1, 0, 50));
    p.request(PageRequest::Next);
    p.request(PageRequest::Previous);
    p.request(PageRequest::GoTo(0));
    assert_eq!(p.current_page, 1);
    p.total_pages = 3;
    p.request(PageRequest::Next);
    p.request(PageRequest::Next);
    p.request(PageRequest::Next);
    assert_eq!(p.current_page, 3);
    p.request(PageRequest::GoTo(4));
    assert_eq!(p.current_page, 3);
    p.request(PageRequest::GoTo(2));
    p.request(PageRequest::Previous);
    p.request(PageRequest::Previous);
    assert_eq!(p.current_page, 1);
}
