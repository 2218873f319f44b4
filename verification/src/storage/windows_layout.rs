//! Reading what Windows reports of a disk: the storage device descriptor
//! (identification and bus) and the drive layout (its partitions), both as
//! little-endian byte buffers.
use super::identification_data::{trimmed_option, IdentificationData, IdentificationView, StorageBusType};
use super::disk::{Disk, DiskView};
use super::partition::{partition_views, Partition, PartitionView};
use crate::text::{decimal, u64_to_string};
use crate::foruster_core::storage_bus_type::bus_type_of;
use vstd::prelude::*;

verus! {

/// The little-endian number held by the `n` bytes of `s` from `at` on.
pub open spec fn le_value(s: Seq<u8>, at: int, n: nat) -> nat
    decreases n,
{
    if n == 0 {
        0
    } else {
        s[at] as nat + 256 * le_value(s, at + 1, (n - 1) as nat)
    }
}

/// The text of a sequence of bytes, read as UTF-8 with every invalid
/// sequence replaced by U+FFFD, as `String::from_utf8_lossy` reads it.
pub uninterp spec fn utf8_lossy_text(bytes: Seq<u8>) -> Seq<char>;

/// `String::from_utf8_lossy`: the text of `bytes` with invalid UTF-8
/// replaced, a function of `bytes` alone.
#[verifier::external_body]
fn utf8_lossy(bytes: &[u8]) -> (r: String)
    ensures
        r@ == utf8_lossy_text(bytes@),
{
    String::from_utf8_lossy(bytes).into_owned()
}

fn read_u32(buf: &[u8], at: usize) -> (r: u32)
    requires
        at + 4 <= buf@.len(),
    ensures
        r as nat == le_value(buf@, at as int, 4),
{
    let b0 = buf[at] as u32;
    let b1 = buf[at + 1] as u32;
    let b2 = buf[at + 2] as u32;
    let b3 = buf[at + 3] as u32;
    assert(le_value(buf@, at + 4, 0) == 0);
    assert(le_value(buf@, at + 3, 1) == b3);
    assert(le_value(buf@, at + 2, 2) == b2 + 256 * b3);
    assert(le_value(buf@, at + 1, 3) == b1 + 256 * (b2 + 256 * b3));
    assert(le_value(buf@, at as int, 4) == b0 + 256 * (b1 + 256 * (b2 + 256 * b3)));
    b0 + 256 * (b1 + 256 * (b2 + 256 * b3))
}

fn read_u64(buf: &[u8], at: usize) -> (r: u64)
    requires
        at + 8 <= buf@.len(),
    ensures
        r as nat == le_value(buf@, at as int, 8),
{
    let n = buf.len();
    assert(at + 4 < n);
    let lo = read_u32(buf, at) as u64;
    let hi = read_u32(buf, at + 4) as u64;
    proof {
        lemma_le_split(buf@, at as int, 4, 4);
        assert(pow256(0) == 1);
        assert(pow256(1) == 256);
        assert(pow256(2) == 65536);
        assert(pow256(3) == 16777216);
        assert(pow256(4) == 4294967296);
        assert((4 + 4) as nat == 8);
    }
    assert(lo + 4294967296 * hi <= u64::MAX) by (nonlinear_arith)
        requires
            lo < 4294967296,
            hi < 4294967296,
    ;
    lo + 4294967296 * hi
}

proof fn lemma_le_split(s: Seq<u8>, at: int, a: nat, b: nat)
    ensures
        le_value(s, at, a + b) == le_value(s, at, a) + pow256(a) * le_value(s, at + a, b),
    decreases a,
{
    if a > 0 {
        let a1 = (a - 1) as nat;
        lemma_le_split(s, at + 1, a1, b);
        assert(a1 + b == (a + b - 1) as nat);
        let x = le_value(s, at + 1, a1);
        let y = le_value(s, at + a, b);
        let p = pow256(a1);
        assert(at + 1 + a1 == at + a);
        assert(le_value(s, at + 1, a1 + b) == x + p * y);
        assert(le_value(s, at, a + b) == s[at] as nat + 256 * le_value(s, at + 1, a1 + b));
        assert(le_value(s, at, a) == s[at] as nat + 256 * x);
        assert(pow256(a) == 256 * p);
        assert(256 * (x + p * y) == 256 * x + (256 * p) * y) by (nonlinear_arith);
    } else {
        assert(le_value(s, at, 0) == 0);
        assert(pow256(0) == 1);
    }
}

/// `256` to the power `n`.
pub open spec fn pow256(n: nat) -> nat
    decreases n,
{
    if n == 0 {
        1
    } else {
        256 * pow256((n - 1) as nat)
    }
}

/// The bytes of `buf` from `at` up to the first zero byte or the end.
pub open spec fn c_string_at(buf: Seq<u8>, at: int) -> Seq<u8> {
    let rest = buf.subrange(at, buf.len() as int);
    match rest.index_of_first(0u8) {
        Some(k) => rest.take(k),
        None => rest,
    }
}

/// The text a descriptor field points to: nothing when the offset is zero
/// or lies past the buffer, else the zero-terminated bytes there, read as
/// UTF-8 with invalid sequences replaced.
pub open spec fn descriptor_text(buf: Seq<u8>, offset: nat) -> Option<Seq<char>> {
    if offset == 0 || offset >= buf.len() {
        None
    } else {
        Some(utf8_lossy_text(c_string_at(buf, offset as int)))
    }
}

/// Reads the zero-terminated text at `offset` of a descriptor.
pub fn extract_string(raw_data: &[u8], offset: u32) -> (r: Option<String>)
    ensures
        r.deep_view() == descriptor_text(raw_data@, offset as nat),
{
    if offset == 0 || offset as usize >= raw_data.len() {
        return None;
    }
    let at = offset as usize;
    let ghost rest = raw_data@.subrange(at as int, raw_data@.len() as int);
    let mut end = at;
    while end < raw_data.len() && raw_data[end] != 0
        invariant
            at <= end <= raw_data.len(),
            rest == raw_data@.subrange(at as int, raw_data@.len() as int),
            forall|j: int| at <= j < end ==> raw_data@[j] != 0u8,
        decreases raw_data.len() - end,
    {
        end += 1;
    }
    let mut bytes: Vec<u8> = Vec::new();
    let mut i = at;
    while i < end
        invariant
            at <= i <= end <= raw_data.len(),
            bytes@ == raw_data@.subrange(at as int, i as int),
        decreases end - i,
    {
        bytes.push(raw_data[i]);
        assert(raw_data@.subrange(at as int, i + 1) == raw_data@.subrange(at as int, i as int).push(raw_data@[i as int]));
        i += 1;
    }
    proof {
        rest.index_of_first_ensures(0u8);
        if end < raw_data.len() {
            assert(rest[end - at] == 0u8);
            assert forall|j: int| 0 <= j < end - at implies rest[j] != 0u8 by {
                assert(rest[j] == raw_data@[at + j]);
            }
            match rest.index_of_first(0u8) {
                Some(k) => {
                    if k < end - at {
                        assert(rest[k] != 0u8);
                    }
                    if k > end - at {
                        assert(rest[end - at] == 0u8);
                    }
                    assert(k == end - at);
                },
                None => {
                    assert(rest.contains(0u8));
                },
            }
            assert(rest.take(end - at) =~= bytes@);
        } else {
            match rest.index_of_first(0u8) {
                Some(k) => {
                    assert(rest[k] == raw_data@[at + k]);
                },
                None => {},
            }
            assert(rest =~= bytes@);
        }
    }
    Some(utf8_lossy(bytes.as_slice()))
}

/// Size of the fixed part of a storage device descriptor, in bytes.
pub const DESCRIPTOR_HEADER_LEN: usize = 40;

/// The identification a storage device descriptor gives: vendor, product,
/// serial number and revision from the texts its offsets point to (vendor
/// and product trimmed), the bus from the low byte of its bus type, and
/// whether its media is removable.
pub open spec fn descriptor_identification(buf: Seq<u8>) -> IdentificationView {
    IdentificationView {
        vendor: trimmed_option(descriptor_text(buf, le_value(buf, 12, 4))),
        model: trimmed_option(descriptor_text(buf, le_value(buf, 16, 4))),
        serial_number: descriptor_text(buf, le_value(buf, 24, 4)),
        product_revision: descriptor_text(buf, le_value(buf, 20, 4)),
        bus_type: bus_type_of((le_value(buf, 28, 4) % 256) as u8),
        removable: buf[10] != 0,
    }
}

/// The identification of a disk read from its storage device descriptor.
pub fn identification_from_descriptor(raw_descriptor: &[u8]) -> (r: IdentificationData)
    requires
        raw_descriptor@.len() >= DESCRIPTOR_HEADER_LEN,
    ensures
        r@ == descriptor_identification(raw_descriptor@),
{
    let vendor = extract_string(raw_descriptor, read_u32(raw_descriptor, 12));
    let product = extract_string(raw_descriptor, read_u32(raw_descriptor, 16));
    let revision = extract_string(raw_descriptor, read_u32(raw_descriptor, 20));
    let serial = extract_string(raw_descriptor, read_u32(raw_descriptor, 24));
    let bus = read_u32(raw_descriptor, 28);
    let low = (bus % 256) as u8;
    let removable = raw_descriptor[10] != 0;
    IdentificationData::new(vendor, product, serial, revision, StorageBusType::from_code(low), removable)
}

/// Size of the fixed part of a drive layout, up to its first partition entry.
pub const LAYOUT_HEADER_LEN: usize = 48;

/// Size of one partition entry of a drive layout.
pub const PARTITION_ENTRY_LEN: usize = 144;

/// The partition a layout entry at `at` describes: its number, start and
/// length in bytes, holding no volume yet.
pub open spec fn entry_at(buf: Seq<u8>, at: int) -> PartitionView {
    PartitionView {
        number: le_value(buf, at + 24, 4) as u32,
        starting_offset: le_value(buf, at + 8, 8) as u64,
        size: le_value(buf, at + 16, 8) as u64,
        volume: None,
    }
}

/// The partitions of the first `count` entries of a layout whose number is
/// not zero, in entry order.
pub open spec fn numbered_entries(buf: Seq<u8>, count: nat) -> Seq<PartitionView>
    decreases count,
{
    if count == 0 {
        Seq::empty()
    } else {
        let before = numbered_entries(buf, (count - 1) as nat);
        let e = entry_at(buf, LAYOUT_HEADER_LEN + PARTITION_ENTRY_LEN * (count - 1));
        if e.number != 0 {
            before.push(e)
        } else {
            before
        }
    }
}

/// The partitions a drive layout describes: nothing when the buffer is too
/// short for the layout and its partition count; for an MBR or GPT layout,
/// every entry with a non-zero number; no partition for any other style.
pub open spec fn layout_partitions(buf: Seq<u8>) -> Option<Seq<PartitionView>> {
    if buf.len() < LAYOUT_HEADER_LEN + PARTITION_ENTRY_LEN {
        None
    } else {
        let count = le_value(buf, 4, 4);
        if buf.len() < LAYOUT_HEADER_LEN + PARTITION_ENTRY_LEN + PARTITION_ENTRY_LEN * count {
            None
        } else {
            let style = le_value(buf, 0, 4);
            if style == 0 || style == 1 {
                Some(numbered_entries(buf, count))
            } else {
                Some(Seq::empty())
            }
        }
    }
}

/// The partitions of a disk read from its drive layout; `None` when the
/// buffer cannot hold the layout it announces.
pub fn partitions_from_layout(layout: &[u8]) -> (r: Option<Vec<Partition>>)
    ensures
        match r {
            Some(ps) => layout_partitions(layout@) == Some(partition_views(ps@)),
            None => layout_partitions(layout@) is None,
        },
{
    let len = layout.len();
    if len < LAYOUT_HEADER_LEN + PARTITION_ENTRY_LEN {
        return None;
    }
    let count = read_u32(layout, 4) as usize;
    if (layout.len() - (LAYOUT_HEADER_LEN + PARTITION_ENTRY_LEN)) / PARTITION_ENTRY_LEN < count {
        proof {
            let room = (layout.len() - 192) as int;
            assert(room < 144 * count) by (nonlinear_arith)
                requires
                    room / 144 < count,
                    room >= 0,
            ;
        }
        return None;
    }
    proof {
        let room = (layout.len() - 192) as int;
        assert(144 * count <= room) by (nonlinear_arith)
            requires
                room / 144 >= count,
                room >= 0,
        ;
    }
    let style = read_u32(layout, 0);
    let mut parts: Vec<Partition> = Vec::new();
    if style != 0 && style != 1 {
        assert(partition_views(parts@) =~= Seq::<PartitionView>::empty());
        return Some(parts);
    }
    let mut i: usize = 0;
    while i < count
        invariant
            0 <= i <= count,
            count as nat == le_value(layout@, 4, 4),
            len == layout@.len(),
            LAYOUT_HEADER_LEN + PARTITION_ENTRY_LEN + PARTITION_ENTRY_LEN * count <= layout@.len(),
            partition_views(parts@) == numbered_entries(layout@, i as nat),
        decreases count - i,
    {
        assert(PARTITION_ENTRY_LEN * i + PARTITION_ENTRY_LEN <= PARTITION_ENTRY_LEN * count) by (nonlinear_arith)
            requires
                i < count,
        ;
        let at = LAYOUT_HEADER_LEN + PARTITION_ENTRY_LEN * i;
        let number = read_u32(layout, at + 24);
        let start = read_u64(layout, at + 8);
        let size = read_u64(layout, at + 16);
        if number != 0 {
            let ghost before = partition_views(parts@);
            let p = Partition::new(number, start, size, None);
            parts.push(p);
            assert(partition_views(parts@) =~= before.push(p@));
        }
        i += 1;
    }
    Some(parts)
}

/// A disk's size in bytes from its geometry: cylinders, tracks per
/// cylinder, sectors per track and bytes per sector multiplied as 64-bit
/// signed numbers that wrap around, then read as unsigned.
pub open spec fn geometry_size(cylinders: i64, tracks: u32, sectors: u32, bytes: u32) -> u64 {
    (vstd::wrapping::i64_specs::wrapping_mul(
        vstd::wrapping::i64_specs::wrapping_mul(
            vstd::wrapping::i64_specs::wrapping_mul(cylinders, tracks as i64),
            sectors as i64,
        ),
        bytes as i64,
    )) as u64
}

/// A disk's size in bytes from its geometry.
pub fn total_size_from_geometry(cylinders: i64, tracks_per_cylinder: u32, sectors_per_track: u32, bytes_per_sector: u32) -> (r: u64)
    ensures
        r == geometry_size(cylinders, tracks_per_cylinder, sectors_per_track, bytes_per_sector),
{
    let a = cylinders.wrapping_mul(tracks_per_cylinder as i64);
    let b = a.wrapping_mul(sectors_per_track as i64);
    let c = b.wrapping_mul(bytes_per_sector as i64);
    c as u64
}

/// The disk Windows describes by the reports read for its number: its
/// number in decimal as id, the identification of its device descriptor,
/// the partitions of its drive layout and the size of its geometry
/// (cylinders, tracks per cylinder, sectors per track, bytes per sector).
pub fn disk_from_reports(
    disk_number: u32,
    raw_descriptor: &[u8],
    layout: &[u8],
    cylinders: i64,
    tracks_per_cylinder: u32,
    sectors_per_track: u32,
    bytes_per_sector: u32,
) -> (r: Disk)
    requires
        raw_descriptor@.len() >= DESCRIPTOR_HEADER_LEN,
        layout_partitions(layout@) is Some,
    ensures
        r@ == (DiskView {
            id: decimal(disk_number as nat),
            identification: descriptor_identification(raw_descriptor@),
            partitions: layout_partitions(layout@).unwrap(),
            total_size: geometry_size(cylinders, tracks_per_cylinder, sectors_per_track, bytes_per_sector),
        }),
{
    let partitions = match partitions_from_layout(layout) {
        Some(ps) => ps,
        None => Vec::new(),
    };
    let identification = identification_from_descriptor(raw_descriptor);
    let size = total_size_from_geometry(cylinders, tracks_per_cylinder, sectors_per_track, bytes_per_sector);
    Disk::new(u64_to_string(disk_number as u64), identification, partitions, size)
}

} // verus!
