//! The folders chosen for an analysis: which of them lie inside another one
//! chosen, and the folders a selection of disks offers.
use crate::storage::disk::{disk_views, Disk, DiskView};
use crate::storage::identification_data::display_name;
use crate::storage::partition::PartitionView;
use crate::storage::volume::VolumeView;
use crate::text::{append_str, contains_string, has_prefix, owned, starts_with, strings_view};
use vstd::prelude::*;

verus! {

/// A folder in the list of folders to analyze.
#[derive(Debug)]
pub struct PathRow {
    pub path: String,
    pub redundant: bool,
    pub redundancy_message: String,
    pub volume_id: String,
}

/// The contents of a [`PathRow`].
pub ghost struct PathRowView {
    pub path: Seq<char>,
    pub redundant: bool,
    pub redundancy_message: Seq<char>,
    pub volume_id: Seq<char>,
}

impl View for PathRow {
    type V = PathRowView;

    open spec fn view(&self) -> PathRowView {
        PathRowView {
            path: self.path@,
            redundant: self.redundant,
            redundancy_message: self.redundancy_message@,
            volume_id: self.volume_id@,
        }
    }
}

/// The contents of a list of rows.
pub open spec fn row_views(rows: Seq<PathRow>) -> Seq<PathRowView> {
    rows.map_values(|r: PathRow| r@)
}

/// A new, not yet checked row.
pub fn path_row(path: String, volume_id: String) -> (r: PathRow)
    ensures
        r@ == (PathRowView { path: path@, redundant: false, redundancy_message: Seq::empty(), volume_id: volume_id@ }),
{
    PathRow { path, redundant: false, redundancy_message: String::new(), volume_id }
}

/// The first other row, from `from` on, whose path is a prefix of the path
/// of row `i`.
pub open spec fn covering_row_from(paths: Seq<Seq<char>>, i: int, from: int) -> Option<int>
    decreases paths.len() - from,
{
    if from < 0 || from >= paths.len() {
        None
    } else if from != i && has_prefix(paths[i], paths[from]) {
        Some(from)
    } else {
        covering_row_from(paths, i, from + 1)
    }
}

/// The message shown for a folder that lies inside another chosen one.
pub open spec fn redundancy_text(inner: Seq<char>, outer: Seq<char>) -> Seq<char> {
    "La ruta "@ + inner + " es un subdirectorio de "@ + outer
}

/// A row after checking: redundant, with the message naming the first other
/// folder whose path begins its path, or not redundant with no message.
pub open spec fn checked_row(paths: Seq<Seq<char>>, row: PathRowView, i: int) -> PathRowView {
    match covering_row_from(paths, i, 0) {
        Some(j) => PathRowView { redundant: true, redundancy_message: redundancy_text(paths[i], paths[j]), ..row },
        None => PathRowView { redundant: false, redundancy_message: Seq::empty(), ..row },
    }
}

fn covering_row(rows: &Vec<PathRow>, i: usize) -> (r: Option<usize>)
    requires
        i < rows.len(),
    ensures
        match r {
            Some(j) => covering_row_from(row_views(rows@).map_values(|v: PathRowView| v.path), i as int, 0) == Some(j as int)
                && j < rows.len(),
            None => covering_row_from(row_views(rows@).map_values(|v: PathRowView| v.path), i as int, 0) is None,
        },
{
    let ghost paths = row_views(rows@).map_values(|v: PathRowView| v.path);
    let mut j: usize = 0;
    while j < rows.len()
        invariant
            0 <= j <= rows.len(),
            i < rows.len(),
            paths == row_views(rows@).map_values(|v: PathRowView| v.path),
            covering_row_from(paths, i as int, 0) == covering_row_from(paths, i as int, j as int),
        decreases rows.len() - j,
    {
        assert(paths[j as int] == rows@[j as int].path@);
        assert(paths[i as int] == rows@[i as int].path@);
        if j != i && starts_with(rows[i].path.as_str(), rows[j].path.as_str()) {
            return Some(j);
        }
        j += 1;
    }
    None
}

/// Marks each folder that lies inside another chosen folder, by the text of
/// their paths, and clears the mark of the others.
pub fn check_paths(rows: &mut Vec<PathRow>)
    ensures
        final(rows)@.len() == old(rows)@.len(),
        forall|i: int| 0 <= i < old(rows)@.len() ==> #[trigger] final(rows)@[i]@ == checked_row(
            row_views(old(rows)@).map_values(|v: PathRowView| v.path),
            old(rows)@[i]@,
            i,
        ),
{
    let ghost paths = row_views(rows@).map_values(|v: PathRowView| v.path);
    let ghost given = rows@;
    let mut i: usize = 0;
    while i < rows.len()
        invariant
            0 <= i <= rows.len(),
            rows@.len() == given.len(),
            paths == row_views(given).map_values(|v: PathRowView| v.path),
            paths == row_views(rows@).map_values(|v: PathRowView| v.path),
            forall|k: int| 0 <= k < i ==> #[trigger] rows@[k]@ == checked_row(paths, given[k]@, k),
            forall|k: int| i <= k < rows@.len() ==> #[trigger] rows@[k]@ == given[k]@,
        decreases rows.len() - i,
    {
        let found = covering_row(rows, i);
        match found {
            Some(j) => {
                let msg = owned("La ruta ");
                let msg = append_str(msg, rows[i].path.as_str());
                let msg = append_str(msg, " es un subdirectorio de ");
                let msg = append_str(msg, rows[j].path.as_str());
                assert(paths[i as int] == rows@[i as int].path@);
                assert(paths[j as int] == rows@[j as int].path@);
                let row = PathRow {
                    path: rows[i].path.clone(),
                    redundant: true,
                    redundancy_message: msg,
                    volume_id: rows[i].volume_id.clone(),
                };
                rows.set(i, row);
            },
            None => {
                let row = PathRow {
                    path: rows[i].path.clone(),
                    redundant: false,
                    redundancy_message: String::new(),
                    volume_id: rows[i].volume_id.clone(),
                };
                rows.set(i, row);
            },
        }
        assert(row_views(rows@).map_values(|v: PathRowView| v.path) =~= paths);
        i += 1;
    }
}

/// How many rows are marked redundant.
pub open spec fn redundant_rows(rows: Seq<PathRowView>) -> nat
    decreases rows.len(),
{
    if rows.len() == 0 {
        0
    } else {
        redundant_rows(rows.drop_last()) + if rows.last().redundant { 1nat } else { 0nat }
    }
}

/// How many rows are marked redundant.
pub fn redundant_count(rows: &[PathRow]) -> (r: usize)
    ensures
        r == redundant_rows(row_views(rows@)),
{
    let ghost rs = row_views(rows@);
    let mut n: usize = 0;
    let mut i: usize = 0;
    while i < rows.len()
        invariant
            0 <= i <= rows.len(),
            rs == row_views(rows@),
            n == redundant_rows(rs.take(i as int)),
            n <= i,
        decreases rows.len() - i,
    {
        assert(rs.take(i + 1).drop_last() == rs.take(i as int));
        assert(rs.take(i + 1).last() == rows@[i as int]@);
        if rows[i].redundant {
            n += 1;
        }
        i += 1;
    }
    assert(rs.take(rows.len() as int) == rs);
    n
}

/// The folders a volume offers: one row per mount point, tagged with the
/// volume's GUID.
pub open spec fn volume_rows(v: VolumeView) -> Seq<PathRowView> {
    v.mount_points.map_values(|m: Seq<char>| PathRowView {
        path: m,
        redundant: false,
        redundancy_message: Seq::empty(),
        volume_id: v.guid,
    })
}

/// The folders the volumes on partitions offer, in partition order.
pub open spec fn partition_rows(ps: Seq<PartitionView>) -> Seq<PathRowView>
    decreases ps.len(),
{
    if ps.len() == 0 {
        Seq::empty()
    } else {
        partition_rows(ps.drop_last()) + match ps.last().volume {
            Some(v) => volume_rows(v),
            None => Seq::empty(),
        }
    }
}

/// The folders offered by the disks whose names were selected, disk after disk.
pub open spec fn start_rows(ds: Seq<DiskView>, selected: Seq<Seq<char>>) -> Seq<PathRowView>
    decreases ds.len(),
{
    if ds.len() == 0 {
        Seq::empty()
    } else {
        let d = ds.last();
        start_rows(ds.drop_last(), selected) + if selected.contains(display_name(d.identification.vendor, d.identification.model)) {
            partition_rows(d.partitions)
        } else {
            Seq::empty()
        }
    }
}

/// The folders to start from: the mount points of every volume of the
/// disks whose names were selected.
pub fn get_start_paths(disks: &[Disk], selected_names: &[String]) -> (r: Vec<PathRow>)
    ensures
        row_views(r@) == start_rows(disk_views(disks@), selected_names@.map_values(|s: String| s@)),
{
    let ghost ds = disk_views(disks@);
    let ghost sel = selected_names@.map_values(|s: String| s@);
    let mut r: Vec<PathRow> = Vec::new();
    let mut i: usize = 0;
    while i < disks.len()
        invariant
            0 <= i <= disks.len(),
            ds == disk_views(disks@),
            sel == selected_names@.map_values(|s: String| s@),
            row_views(r@) == start_rows(ds.take(i as int), sel),
        decreases disks.len() - i,
    {
        assert(ds.take(i + 1).drop_last() == ds.take(i as int));
        assert(ds.take(i + 1).last() == disks@[i as int]@);
        let name = disks[i].name();
        assert(selected_names.deep_view() =~= sel);
        if contains_string(selected_names, name.as_str()) {
            let parts = disks[i].partitions();
            let ghost ps = crate::storage::partition::partition_views(parts@);
            let ghost start = row_views(r@);
            let mut k: usize = 0;
            while k < parts.len()
                invariant
                    0 <= k <= parts.len(),
                    ps == crate::storage::partition::partition_views(parts@),
                    row_views(r@) == start + partition_rows(ps.take(k as int)),
                decreases parts.len() - k,
            {
                assert(ps.take(k + 1).drop_last() == ps.take(k as int));
                assert(ps.take(k + 1).last() == parts@[k as int]@);
                match parts[k].volume() {
                    Some(v) => {
                        let mps = v.mount_points();
                        let ghost before = row_views(r@);
                        let mut m: usize = 0;
                        while m < mps.len()
                            invariant
                                0 <= m <= mps.len(),
                                mps.deep_view() == v@.mount_points,
                                row_views(r@) == before + volume_rows(v@).take(m as int),
                            decreases mps.len() - m,
                        {
                            let ghost prev = r@;
                            r.push(path_row(mps[m].clone(), owned(v.guid())));
                            assert(row_views(r@) =~= row_views(prev).push(volume_rows(v@)[m as int]));
                            assert(volume_rows(v@).take(m + 1) =~= volume_rows(v@).take(m as int).push(
                                volume_rows(v@)[m as int],
                            ));
                            m += 1;
                        }
                        assert(volume_rows(v@).take(mps.len() as int) =~= volume_rows(v@));
                        assert(start + partition_rows(ps.take(k + 1)) =~= start + partition_rows(ps.take(k as int))
                            + volume_rows(v@));
                    },
                    None => {
                        assert(start + partition_rows(ps.take(k + 1)) =~= start + partition_rows(ps.take(k as int)));
                    },
                }
                k += 1;
            }
            assert(ps.take(parts.len() as int) == ps);
        } else {
            assert(start_rows(ds.take(i + 1), sel) =~= start_rows(ds.take(i as int), sel));
        }
        i += 1;
    }
    assert(ds.take(disks.len() as int) == ds);
    r
}

proof fn lemma_covering_from(paths: Seq<Seq<char>>, i: int, from: int)
    requires
        0 <= from,
    ensures
        covering_row_from(paths, i, from) is Some <==> exists|j: int|
            from <= j < paths.len() && j != i && has_prefix(paths[i], #[trigger] paths[j]),
        covering_row_from(paths, i, from) matches Some(j) ==> from <= j < paths.len() && j != i && has_prefix(paths[i], paths[j]),
    decreases paths.len() - from,
{
    if from < paths.len() {
        lemma_covering_from(paths, i, from + 1);
        if !(from != i && has_prefix(paths[i], paths[from])) {
            assert forall|j: int| from <= j < paths.len() && j != i && has_prefix(paths[i], #[trigger] paths[j]) implies from + 1 <= j by {
                if j == from {
                }
            }
        }
    }
}

/// The row a mount point of a volume is offered as.
pub open spec fn mount_row(mount_point: Seq<char>, guid: Seq<char>) -> PathRowView {
    PathRowView { path: mount_point, redundant: false, redundancy_message: Seq::empty(), volume_id: guid }
}

/// How many mount points the volumes on the partitions have.
pub open spec fn mount_point_count(ps: Seq<PartitionView>) -> nat
    decreases ps.len(),
{
    if ps.len() == 0 {
        0
    } else {
        mount_point_count(ps.drop_last()) + match ps.last().volume {
            Some(v) => v.mount_points.len(),
            None => 0,
        }
    }
}

/// How many mount points the volumes of the selected disks have.
pub open spec fn selected_mount_point_count(ds: Seq<DiskView>, selected: Seq<Seq<char>>) -> nat
    decreases ds.len(),
{
    if ds.len() == 0 {
        0
    } else {
        selected_mount_point_count(ds.drop_last(), selected) + if selected.contains(
            display_name(ds.last().identification.vendor, ds.last().identification.model),
        ) {
            mount_point_count(ds.last().partitions)
        } else {
            0
        }
    }
}

proof fn lemma_partition_rows_offer(ps: Seq<PartitionView>, j: int, i: int)
    requires
        0 <= j < ps.len(),
        ps[j].volume is Some,
        0 <= i < ps[j].volume.unwrap().mount_points.len(),
    ensures
        partition_rows(ps).contains(mount_row(ps[j].volume.unwrap().mount_points[i], ps[j].volume.unwrap().guid)),
        partition_rows(ps).len() == mount_point_count(ps),
    decreases ps.len(),
{
    let v = ps[j].volume.unwrap();
    let row = mount_row(v.mount_points[i], v.guid);
    let before = ps.drop_last();
    let rb = partition_rows(before);
    lemma_partition_rows_len(ps);
    if j < ps.len() - 1 {
        assert(before[j] == ps[j]);
        lemma_partition_rows_offer(before, j, i);
        let k = choose|k: int| 0 <= k < rb.len() && rb[k] == row;
        assert(partition_rows(ps)[k] == rb[k]);
    } else {
        assert(ps.last() == ps[j]);
        let vr = volume_rows(v);
        assert(vr[i] == row);
        assert(partition_rows(ps)[rb.len() + i] == vr[i]);
    }
}

proof fn lemma_partition_rows_len(ps: Seq<PartitionView>)
    ensures
        partition_rows(ps).len() == mount_point_count(ps),
    decreases ps.len(),
{
    if ps.len() > 0 {
        lemma_partition_rows_len(ps.drop_last());
    }
}

proof fn lemma_start_rows_offer(ds: Seq<DiskView>, selected: Seq<Seq<char>>, k: int, j: int, i: int)
    requires
        0 <= k < ds.len(),
        selected.contains(display_name(ds[k].identification.vendor, ds[k].identification.model)),
        0 <= j < ds[k].partitions.len(),
        ds[k].partitions[j].volume is Some,
        0 <= i < ds[k].partitions[j].volume.unwrap().mount_points.len(),
    ensures
        start_rows(ds, selected).contains(
            mount_row(
                ds[k].partitions[j].volume.unwrap().mount_points[i],
                ds[k].partitions[j].volume.unwrap().guid,
            ),
        ),
    decreases ds.len(),
{
    let v = ds[k].partitions[j].volume.unwrap();
    let row = mount_row(v.mount_points[i], v.guid);
    let before = ds.drop_last();
    let sb = start_rows(before, selected);
    if k < ds.len() - 1 {
        assert(before[k] == ds[k]);
        lemma_start_rows_offer(before, selected, k, j, i);
        let q = choose|q: int| 0 <= q < sb.len() && sb[q] == row;
        assert(start_rows(ds, selected)[q] == sb[q]);
    } else {
        assert(ds.last() == ds[k]);
        lemma_partition_rows_offer(ds[k].partitions, j, i);
        let pr = partition_rows(ds[k].partitions);
        let q = choose|q: int| 0 <= q < pr.len() && pr[q] == row;
        assert(start_rows(ds, selected)[sb.len() + q] == pr[q]);
    }
}

proof fn lemma_start_rows_len(ds: Seq<DiskView>, selected: Seq<Seq<char>>)
    ensures
        start_rows(ds, selected).len() == selected_mount_point_count(ds, selected),
    decreases ds.len(),
{
    if ds.len() > 0 {
        lemma_start_rows_len(ds.drop_last(), selected);
        lemma_partition_rows_len(ds.last().partitions);
    }
}

/// Every mount point of every volume on every partition of a selected disk
/// is offered, as a row tagged with that volume's GUID and not yet marked
/// redundant; and there are exactly as many rows as those mount points.
pub proof fn every_mount_point_of_selected_disks_is_offered(ds: Seq<DiskView>, selected: Seq<Seq<char>>)
    ensures
        forall|k: int, j: int, i: int|
            0 <= k < ds.len() && selected.contains(display_name(ds[k].identification.vendor, ds[k].identification.model))
                && 0 <= j < ds[k].partitions.len() && ds[k].partitions[j].volume is Some
                && 0 <= i < ds[k].partitions[j].volume.unwrap().mount_points.len()
                ==> start_rows(ds, selected).contains(
                mount_row(
                    #[trigger] ds[k].partitions[j].volume.unwrap().mount_points[i],
                    ds[k].partitions[j].volume.unwrap().guid,
                ),
            ),
        start_rows(ds, selected).len() == selected_mount_point_count(ds, selected),
{
    assert forall|k: int, j: int, i: int|
        0 <= k < ds.len() && selected.contains(display_name(ds[k].identification.vendor, ds[k].identification.model))
            && 0 <= j < ds[k].partitions.len() && ds[k].partitions[j].volume is Some
            && 0 <= i < ds[k].partitions[j].volume.unwrap().mount_points.len()
            implies start_rows(ds, selected).contains(
            mount_row(
                #[trigger] ds[k].partitions[j].volume.unwrap().mount_points[i],
                ds[k].partitions[j].volume.unwrap().guid,
            ),
        ) by {
        lemma_start_rows_offer(ds, selected, k, j, i);
    }
    lemma_start_rows_len(ds, selected);
}

/// A folder is marked redundant exactly when another chosen folder's path
/// begins its path, and the message names such a folder.
pub proof fn redundant_iff_inside_another(paths: Seq<Seq<char>>, row: PathRowView, i: int)
    requires
        0 <= i < paths.len(),
    ensures
        checked_row(paths, row, i).redundant <==> exists|j: int|
            0 <= j < paths.len() && j != i && has_prefix(paths[i], #[trigger] paths[j]),
{
    lemma_covering_from(paths, i, 0);
}

} // verus!
