//! The list of disks the user picks from.
use crate::app_core::disk::{Disk, DiskView};
use crate::foruster_core::partition::PartitionView;
use crate::foruster_core::storage_bus_type::bus_type_name;
use crate::storage::identification_data::display_name;
use crate::text::{str_equal, strings_view};
use vstd::prelude::*;

verus! {

/// A disk as the list shows it (its size is shown beside it).
#[derive(Debug)]
pub struct DiskRow {
    pub name: String,
    pub serial: String,
    pub partitions: usize,
    pub mounted_partitions: usize,
    pub interface: String,
    pub selected: bool,
}

/// The contents of a [`DiskRow`].
pub ghost struct DiskRowView {
    pub name: Seq<char>,
    pub serial: Seq<char>,
    pub partitions: nat,
    pub mounted_partitions: nat,
    pub interface: Seq<char>,
    pub selected: bool,
}

impl View for DiskRow {
    type V = DiskRowView;

    open spec fn view(&self) -> DiskRowView {
        DiskRowView {
            name: self.name@,
            serial: self.serial@,
            partitions: self.partitions as nat,
            mounted_partitions: self.mounted_partitions as nat,
            interface: self.interface@,
            selected: self.selected,
        }
    }
}

/// The contents of a list of rows.
pub open spec fn disk_row_views(rows: Seq<DiskRow>) -> Seq<DiskRowView> {
    rows.map_values(|r: DiskRow| r@)
}

/// How many partitions hold a mounted volume.
pub open spec fn mounted_count(ps: Seq<PartitionView>) -> nat
    decreases ps.len(),
{
    if ps.len() == 0 {
        0
    } else {
        mounted_count(ps.drop_last()) + match ps.last().volume {
            Some(v) => if v.drive_letters.len() > 0 || v.mount_points.len() > 0 { 1nat } else { 0nat },
            None => 0nat,
        }
    }
}

/// The row a disk is shown as: its name, serial number (empty when
/// unknown), partition counts and bus, not selected.
pub open spec fn row_of_disk(d: DiskView) -> DiskRowView {
    DiskRowView {
        name: display_name(d.identification.vendor, d.identification.model),
        serial: match d.identification.serial_number {
            Some(s) => s,
            None => Seq::empty(),
        },
        partitions: d.partitions.len(),
        mounted_partitions: mounted_count(d.partitions),
        interface: bus_type_name(d.identification.bus_type),
        selected: false,
    }
}

/// The row a disk is shown as.
pub fn map_to_disk_row(disk: &Disk) -> (r: DiskRow)
    ensures
        r@ == row_of_disk(disk@),
{
    let parts = disk.partitions();
    let ghost ps = crate::foruster_core::partition::partition_views(parts@);
    let mut mounted: usize = 0;
    let mut i: usize = 0;
    while i < parts.len()
        invariant
            0 <= i <= parts.len(),
            ps == crate::foruster_core::partition::partition_views(parts@),
            mounted == mounted_count(ps.take(i as int)),
            mounted <= i,
        decreases parts.len() - i,
    {
        assert(ps.take(i + 1).drop_last() == ps.take(i as int));
        assert(ps.take(i + 1).last() == parts@[i as int]@);
        match parts[i].volume() {
            Some(v) => {
                if v.is_mounted() {
                    mounted += 1;
                }
            },
            None => {},
        }
        i += 1;
    }
    assert(ps.take(parts.len() as int) == ps);
    let serial = match disk.identification_data().serial_number() {
        Some(s) => s.clone(),
        None => String::new(),
    };
    DiskRow {
        name: disk.name(),
        serial,
        partitions: parts.len(),
        mounted_partitions: mounted,
        interface: disk.identification_data().bus_type().to_string(),
        selected: false,
    }
}

/// Some row has this name.
pub open spec fn has_row_named(rows: Seq<DiskRowView>, name: Seq<char>) -> bool {
    exists|i: int| 0 <= i < rows.len() && (#[trigger] rows[i]).name == name
}

/// The rows after adding, in order, a row for each disk whose name no row has yet.
pub open spec fn rows_with_new(rows: Seq<DiskRowView>, disks: Seq<DiskView>) -> Seq<DiskRowView>
    decreases disks.len(),
{
    if disks.len() == 0 {
        rows
    } else {
        let before = rows_with_new(rows, disks.drop_last());
        let row = row_of_disk(disks.last());
        if has_row_named(before, row.name) {
            before
        } else {
            before.push(row)
        }
    }
}

/// The names of the disks.
pub open spec fn disk_names(disks: Seq<DiskView>) -> Seq<Seq<char>> {
    disks.map_values(|d: DiskView| display_name(d.identification.vendor, d.identification.model))
}

/// The list after the disks were read again: rows of disks that are gone
/// are removed, rows of disks still there are kept as they are, and each
/// new disk gets a row at the end.
pub open spec fn refreshed_rows(rows: Seq<DiskRowView>, disks: Seq<DiskView>) -> Seq<DiskRowView> {
    rows_with_new(rows.filter(|r: DiskRowView| disk_names(disks).contains(r.name)), disks)
}

fn has_name(rows: &Vec<DiskRow>, name: &str) -> (r: bool)
    ensures
        r == has_row_named(disk_row_views(rows@), name@),
{
    let mut i: usize = 0;
    while i < rows.len()
        invariant
            0 <= i <= rows.len(),
            forall|j: int| 0 <= j < i ==> #[trigger] rows@[j]@.name != name@,
        decreases rows.len() - i,
    {
        if str_equal(rows[i].name.as_str(), name) {
            assert(disk_row_views(rows@)[i as int].name == name@);
            return true;
        }
        i += 1;
    }
    assert forall|j: int| 0 <= j < disk_row_views(rows@).len() implies (#[trigger] disk_row_views(rows@)[j]).name != name@ by {
        assert(disk_row_views(rows@)[j] == rows@[j]@);
    }
    false
}

/// Brings the list up to date with the disks just read.
pub fn refresh_disks(rows: &mut Vec<DiskRow>, disks: &[Disk])
    ensures
        disk_row_views(final(rows)@) == refreshed_rows(disk_row_views(old(rows)@), disks@.map_values(|d: Disk| d@)),
{
    let ghost ds = disks@.map_values(|d: Disk| d@);
    let mut names: Vec<String> = Vec::new();
    let mut q: usize = 0;
    while q < disks.len()
        invariant
            0 <= q <= disks.len(),
            ds == disks@.map_values(|d: Disk| d@),
            strings_view(names@) == disk_names(ds.take(q as int)),
        decreases disks.len() - q,
    {
        let ghost before = names@;
        names.push(disks[q].name());
        assert(strings_view(names@) =~= strings_view(before).push(disk_names(ds)[q as int]));
        assert(disk_names(ds.take(q + 1)) =~= disk_names(ds.take(q as int)).push(disk_names(ds)[q as int]));
        q += 1;
    }
    assert(ds.take(disks.len() as int) == ds);
    let ghost pred = |r: DiskRowView| disk_names(ds).contains(r.name);
    let ghost old_rows = disk_row_views(rows@);
    let mut kept: Vec<DiskRow> = Vec::new();
    let mut old_list: Vec<DiskRow> = Vec::new();
    std::mem::swap(&mut old_list, rows);
    let mut rev: Vec<DiskRow> = Vec::new();
    while old_list.len() > 0
        invariant
            old_rows.len() == old_list.len() + rev.len(),
            forall|j: int| 0 <= j < old_list.len() ==> #[trigger] old_list@[j]@ == old_rows[j],
            forall|j: int| 0 <= j < rev.len() ==> #[trigger] rev@[j]@ == old_rows[old_rows.len() - 1 - j],
        decreases old_list.len(),
    {
        let r = old_list.pop().unwrap();
        rev.push(r);
    }
    let mut i: usize = 0;
    while rev.len() > 0
        invariant
            old_rows.len() == i + rev.len(),
            old_rows.len() <= usize::MAX,
            forall|j: int| 0 <= j < rev.len() ==> #[trigger] rev@[j]@ == old_rows[old_rows.len() - 1 - j],
            strings_view(names@) == disk_names(ds),
            pred == (|r: DiskRowView| disk_names(ds).contains(r.name)),
            disk_row_views(kept@) == old_rows.take(i as int).filter(pred),
        decreases rev.len(),
    {
        let r = rev.pop().unwrap();
        assert(r@ == old_rows[i as int]);
        reveal(Seq::filter);
        assert(old_rows.take(i + 1).drop_last() == old_rows.take(i as int));
        assert(names.deep_view() =~= disk_names(ds));
        let ghost before = disk_row_views(kept@);
        if contains_name(&names, r.name.as_str()) {
            kept.push(r);
            assert(disk_row_views(kept@) =~= before.push(old_rows[i as int]));
        }
        i += 1;
    }
    assert(old_rows.take(old_rows.len() as int) == old_rows);
    let mut k: usize = 0;
    while k < disks.len()
        invariant
            0 <= k <= disks.len(),
            ds == disks@.map_values(|d: Disk| d@),
            disk_row_views(kept@) == rows_with_new(old_rows.filter(pred), ds.take(k as int)),
        decreases disks.len() - k,
    {
        assert(ds.take(k + 1).drop_last() == ds.take(k as int));
        assert(ds.take(k + 1).last() == disks@[k as int]@);
        let row = map_to_disk_row(&disks[k]);
        if !has_name(&kept, row.name.as_str()) {
            let ghost before = disk_row_views(kept@);
            kept.push(row);
            assert(disk_row_views(kept@) =~= before.push(row_of_disk(ds[k as int])));
        }
        k += 1;
    }
    assert(ds.take(disks.len() as int) == ds);
    *rows = kept;
}

fn contains_name(names: &Vec<String>, name: &str) -> (r: bool)
    ensures
        r == names.deep_view().contains(name@),
{
    crate::text::contains_string(names.as_slice(), name)
}

/// How many rows are selected.
pub open spec fn selected_rows(rows: Seq<DiskRowView>) -> nat
    decreases rows.len(),
{
    if rows.len() == 0 {
        0
    } else {
        selected_rows(rows.drop_last()) + if rows.last().selected { 1nat } else { 0nat }
    }
}

/// How many disks are selected.
pub fn num_selected_disks(rows: &[DiskRow]) -> (r: usize)
    ensures
        r == selected_rows(disk_row_views(rows@)),
{
    let ghost rs = disk_row_views(rows@);
    let mut n: usize = 0;
    let mut i: usize = 0;
    while i < rows.len()
        invariant
            0 <= i <= rows.len(),
            rs == disk_row_views(rows@),
            n == selected_rows(rs.take(i as int)),
            n <= i,
        decreases rows.len() - i,
    {
        assert(rs.take(i + 1).drop_last() == rs.take(i as int));
        assert(rs.take(i + 1).last() == rows@[i as int]@);
        if rows[i].selected {
            n += 1;
        }
        i += 1;
    }
    assert(rs.take(rows.len() as int) == rs);
    n
}

proof fn lemma_rows_with_new(rows: Seq<DiskRowView>, ds: Seq<DiskView>, names: Seq<Seq<char>>)
    requires
        forall|i: int| 0 <= i < rows.len() ==> names.contains(#[trigger] rows[i].name),
        forall|k: int| 0 <= k < ds.len() ==> names.contains(#[trigger] row_of_disk(ds[k]).name),
    ensures
        forall|i: int| 0 <= i < rows_with_new(rows, ds).len() ==> names.contains(#[trigger] rows_with_new(rows, ds)[i].name),
        forall|k: int| 0 <= k < ds.len() ==> has_row_named(rows_with_new(rows, ds), #[trigger] row_of_disk(ds[k]).name),
        rows_with_new(rows, ds).take(rows.len() as int) == rows,
        rows.len() <= rows_with_new(rows, ds).len(),
    decreases ds.len(),
{
    if ds.len() == 0 {
        assert(rows.take(rows.len() as int) == rows);
    } else {
        let pre = ds.drop_last();
        assert forall|k: int| 0 <= k < pre.len() implies names.contains(#[trigger] row_of_disk(pre[k]).name) by {
            assert(pre[k] == ds[k]);
        }
        lemma_rows_with_new(rows, pre, names);
        let before = rows_with_new(rows, pre);
        let row = row_of_disk(ds.last());
        assert(names.contains(row_of_disk(ds[ds.len() - 1]).name));
        let after = rows_with_new(rows, ds);
        if has_row_named(before, row.name) {
            assert(after == before);
        } else {
            assert(after == before.push(row));
            assert(after[before.len() as int].name == row.name);
            assert(has_row_named(after, row.name));
            assert forall|k: int| 0 <= k < pre.len() implies has_row_named(after, #[trigger] row_of_disk(pre[k]).name) by {
                assert(has_row_named(before, row_of_disk(pre[k]).name));
                let w = choose|w: int| 0 <= w < before.len() && (#[trigger] before[w]).name == row_of_disk(pre[k]).name;
                assert(after[w] == before[w]);
            }
            assert(after.take(rows.len() as int) =~= before.take(rows.len() as int));
        }
        assert forall|k: int| 0 <= k < ds.len() implies has_row_named(after, #[trigger] row_of_disk(ds[k]).name) by {
            if k < pre.len() {
                assert(ds[k] == pre[k]);
                if has_row_named(before, row.name) {
                    assert(has_row_named(before, row_of_disk(pre[k]).name));
                }
            }
        }
    }
}

/// After the list is refreshed, every row shows a disk just read, and every
/// disk just read has a row.
pub proof fn refreshed_rows_match_disks(rows: Seq<DiskRowView>, disks: Seq<DiskView>)
    ensures
        forall|i: int| 0 <= i < refreshed_rows(rows, disks).len() ==> disk_names(disks).contains(
            #[trigger] refreshed_rows(rows, disks)[i].name,
        ),
        forall|k: int| 0 <= k < disks.len() ==> has_row_named(refreshed_rows(rows, disks), #[trigger] disk_names(disks)[k]),
{
    let names = disk_names(disks);
    let pred = |r: DiskRowView| names.contains(r.name);
    let kept = rows.filter(pred);
    assert forall|i: int| 0 <= i < kept.len() implies names.contains(#[trigger] kept[i].name) by {
        rows.filter_lemma(pred);
        assert(pred(kept[i]));
    }
    assert forall|k: int| 0 <= k < disks.len() implies names.contains(#[trigger] row_of_disk(disks[k]).name) by {
        assert(names[k] == row_of_disk(disks[k]).name);
    }
    lemma_rows_with_new(kept, disks, names);
    assert forall|k: int| 0 <= k < disks.len() implies has_row_named(refreshed_rows(rows, disks), #[trigger] names[k]) by {
        assert(names[k] == row_of_disk(disks[k]).name);
    }
}

} // verus!
