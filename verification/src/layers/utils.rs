use crate::foruster_core::partition::GPTPartitionAttribute;
use vstd::prelude::*;

verus! {

#[verifier::external_type_specification]
#[verifier::external_body]
pub struct ExFromUtf16Error(std::string::FromUtf16Error);

/// The characters that UTF-16 code units encode, or `None` when they hold an
/// unpaired surrogate.
pub open spec fn utf16_decode(u: Seq<u16>) -> Option<Seq<char>>
    decreases u.len(),
{
    if u.len() == 0 {
        Some(Seq::empty())
    } else if u[0] < 0xD800 || u[0] > 0xDFFF {
        match utf16_decode(u.drop_first()) {
            Some(rest) => Some(seq![u[0] as char] + rest),
            None => None,
        }
    } else if u[0] <= 0xDBFF && u.len() >= 2 && 0xDC00 <= u[1] && u[1] <= 0xDFFF {
        match utf16_decode(u.subrange(2, u.len() as int)) {
            Some(rest) => Some(seq![(0x10000 + (u[0] - 0xD800) * 0x400 + (u[1] - 0xDC00)) as char] + rest),
            None => None,
        }
    } else {
        None
    }
}

/// `String::from_utf16`: decodes UTF-16 and fails exactly when the units hold
/// an unpaired surrogate.
#[verifier::external_body]
fn string_from_utf16(units: &[u16]) -> (r: Result<String, std::string::FromUtf16Error>)
    ensures
        r is Ok <==> utf16_decode(units@) is Some,
        r matches Ok(s) ==> Some(s@) == utf16_decode(units@),
{
    String::from_utf16(units)
}

/// The units before the first NUL, or all units when there is none.
pub open spec fn before_nul(u: Seq<u16>) -> Seq<u16> {
    if u.contains(0u16) {
        u.take(choose|i: int| 0 <= i < u.len() && u[i] == 0 && forall|j: int| 0 <= j < i ==> u[j] != 0)
    } else {
        u
    }
}

/// Decodes a NUL-terminated UTF-16 buffer: the units up to the first NUL, or
/// the whole buffer when it holds none.
pub fn utf16_to_string(wide: &[u16]) -> (r: Result<String, std::string::FromUtf16Error>)
    ensures
        r is Ok <==> utf16_decode(before_nul(wide@)) is Some,
        r matches Ok(s) ==> Some(s@) == utf16_decode(before_nul(wide@)),
{
    let mut i: usize = 0;
    while i < wide.len()
        invariant
            0 <= i <= wide.len(),
            forall|j: int| 0 <= j < i ==> wide@[j] != 0,
        decreases wide.len() - i,
    {
        if wide[i] == 0 {
            proof {
                let k = choose|k: int| 0 <= k < wide@.len() && wide@[k] == 0 && forall|j: int| 0 <= j < k ==> wide@[j] != 0;
                assert(k == i);
            }
            let mut prefix: Vec<u16> = Vec::new();
            let mut j: usize = 0;
            while j < i
                invariant
                    0 <= j <= i < wide.len(),
                    prefix@ == wide@.take(j as int),
                decreases i - j,
            {
                prefix.push(wide[j]);
                assert(wide@.take(j + 1) == wide@.take(j as int).push(wide@[j as int]));
                j += 1;
            }
            return string_from_utf16(prefix.as_slice());
        }
        i += 1;
    }
    assert(!wide@.contains(0u16));
    string_from_utf16(wide)
}

/// `u` split at every NUL unit, as `<[u16]>::split` does: `n` NULs give `n + 1`
/// pieces, some of which may be empty.
pub open spec fn split_at_nul(u: Seq<u16>) -> Seq<Seq<u16>>
    decreases u.len(),
{
    if u.len() == 0 {
        seq![Seq::empty()]
    } else {
        let before = split_at_nul(u.drop_last());
        if u.last() == 0 {
            before.push(Seq::empty())
        } else {
            before.update(before.len() - 1, before.last().push(u.last()))
        }
    }
}

proof fn lemma_split_at_nul_nonempty(u: Seq<u16>)
    ensures
        split_at_nul(u).len() >= 1,
    decreases u.len(),
{
    if u.len() > 0 {
        lemma_split_at_nul_nonempty(u.drop_last());
    }
}

/// Whether a piece holds any unit, as a spec closure.
pub open spec fn non_empty_units() -> spec_fn(Seq<u16>) -> bool {
    |p: Seq<u16>| p.len() > 0
}

/// [`utf16_decode`] as a spec closure.
pub open spec fn decode_units() -> spec_fn(Seq<u16>) -> Option<Seq<char>> {
    |p: Seq<u16>| utf16_decode(p)
}

/// The non-empty pieces of `u` between NULs.
pub open spec fn nul_separated(u: Seq<u16>) -> Seq<Seq<u16>> {
    split_at_nul(u).filter(non_empty_units())
}

proof fn lemma_decoded_pieces_push(done: Seq<Seq<u16>>, x: Seq<u16>)
    ensures
        done.push(x).filter(non_empty_units()).filter_map(decode_units()) == (if x.len() > 0 {
            match utf16_decode(x) {
                Some(d) => done.filter(non_empty_units()).filter_map(decode_units()).push(d),
                None => done.filter(non_empty_units()).filter_map(decode_units()),
            }
        } else {
            done.filter(non_empty_units()).filter_map(decode_units())
        }),
{
    reveal(Seq::filter);
    let f = done.filter(non_empty_units());
    assert(done.push(x).drop_last() == done);
    if x.len() > 0 {
        assert(done.push(x).filter(non_empty_units()) == f.push(x));
        assert(f.push(x).drop_last() == f);
        assert(f.push(x).last() == x);
        match utf16_decode(x) {
            Some(d) => {
                assert(f.push(x).filter_map(decode_units()) == f.filter_map(decode_units()) + seq![d]);
                assert(f.filter_map(decode_units()) + seq![d] =~= f.filter_map(decode_units()).push(d));
            },
            None => {},
        }
    }
}

/// The strings of a list of NUL-separated UTF-16 strings, as Windows returns
/// volume path names: the first `length` units are split at every NUL, empty
/// pieces are dropped, and pieces that do not decode are skipped.
pub fn utf16_to_multiple_strings(wide: &[u16], length: usize) -> (r: Vec<String>)
    requires
        length <= wide@.len(),
    ensures
        r.deep_view() == nul_separated(wide@.take(length as int)).filter_map(decode_units()),
{
    let ghost valid = wide@.take(length as int);
    let ghost ne = non_empty_units();
    let ghost dec = decode_units();
    let ghost mut done: Seq<Seq<u16>> = Seq::empty();
    let mut res: Vec<String> = Vec::new();
    let mut cur: Vec<u16> = Vec::new();
    let mut i: usize = 0;
    while i < length
        invariant
            0 <= i <= length <= wide@.len(),
            valid == wide@.take(length as int),
            ne == non_empty_units(),
            dec == decode_units(),
            split_at_nul(valid.take(i as int)) == done.push(cur@),
            res.deep_view() == done.filter(ne).filter_map(dec),
        decreases length - i,
    {
        let unit = wide[i];
        assert(valid.take(i + 1).drop_last() == valid.take(i as int));
        assert(valid.take(i + 1).last() == unit);
        if unit == 0 {
            reveal(Seq::filter);
            let ghost old_res = res.deep_view();
            if cur.len() > 0 {
                let decoded = string_from_utf16(cur.as_slice());
                if let Ok(s) = decoded {
                    res.push(s);
                    assert(res.deep_view() =~= old_res.push(s@));
                }
            }
            proof {
                lemma_decoded_pieces_push(done, cur@);
                done = done.push(cur@);
            }
            cur = Vec::new();
        } else {
            cur.push(unit);
        }
        i += 1;
    }
    assert(valid.take(length as int) == valid);
    reveal(Seq::filter);
    let ghost old_res = res.deep_view();
    if cur.len() > 0 {
        let decoded = string_from_utf16(cur.as_slice());
        if let Ok(s) = decoded {
            res.push(s);
            assert(res.deep_view() =~= old_res.push(s@));
        }
    }
    proof {
        lemma_decoded_pieces_push(done, cur@);
    }
    res
}

/// The Windows SDK bit of each GPT attribute, in the order the attributes are
/// reported.
pub open spec fn gpt_attribute_table() -> Seq<(u64, GPTPartitionAttribute)> {
    seq![
        (0x0000000000000004u64, GPTPartitionAttribute::LegacyBiosBootable),
        (0x0000000000000002u64, GPTPartitionAttribute::NoBlockIoProtocol),
        (0x0000000000000001u64, GPTPartitionAttribute::PlatformRequired),
        (0x0400000000000000u64, GPTPartitionAttribute::BasicDataDax),
        (0x4000000000000000u64, GPTPartitionAttribute::BasicDataHidden),
        (0x8000000000000000u64, GPTPartitionAttribute::BasicDataNoDriveLetter),
        (0x0800000000000000u64, GPTPartitionAttribute::BasicDataOffline),
        (0x1000000000000000u64, GPTPartitionAttribute::BasicDataReadOnly),
        (0x0200000000000000u64, GPTPartitionAttribute::BasicDataService),
        (0x2000000000000000u64, GPTPartitionAttribute::BasicDataShadowCopy),
        (0x8000000000000000u64, GPTPartitionAttribute::SpacesNoMetadata),
    ]
}

/// The attributes whose bits are all set in `attributes`, in table order.
pub open spec fn gpt_attributes_of(attributes: u64) -> Seq<GPTPartitionAttribute> {
    gpt_attribute_table().filter(|e: (u64, GPTPartitionAttribute)| attributes & e.0 == e.0).map_values(
        |e: (u64, GPTPartitionAttribute)| e.1,
    )
}

/// Lists the GPT attributes set in a partition's attribute bits.
pub fn generate_gpt_attributes_vec(attributes: u64) -> (r: Vec<GPTPartitionAttribute>)
    ensures
        r@ == gpt_attributes_of(attributes),
{
    let table: Vec<(u64, GPTPartitionAttribute)> = vec![
        (0x0000000000000004u64, GPTPartitionAttribute::LegacyBiosBootable),
        (0x0000000000000002u64, GPTPartitionAttribute::NoBlockIoProtocol),
        (0x0000000000000001u64, GPTPartitionAttribute::PlatformRequired),
        (0x0400000000000000u64, GPTPartitionAttribute::BasicDataDax),
        (0x4000000000000000u64, GPTPartitionAttribute::BasicDataHidden),
        (0x8000000000000000u64, GPTPartitionAttribute::BasicDataNoDriveLetter),
        (0x0800000000000000u64, GPTPartitionAttribute::BasicDataOffline),
        (0x1000000000000000u64, GPTPartitionAttribute::BasicDataReadOnly),
        (0x0200000000000000u64, GPTPartitionAttribute::BasicDataService),
        (0x2000000000000000u64, GPTPartitionAttribute::BasicDataShadowCopy),
        (0x8000000000000000u64, GPTPartitionAttribute::SpacesNoMetadata),
    ];
    assert(table@ == gpt_attribute_table());
    let ghost keep = |e: (u64, GPTPartitionAttribute)| attributes & e.0 == e.0;
    let mut r: Vec<GPTPartitionAttribute> = Vec::new();
    let mut i: usize = 0;
    while i < table.len()
        invariant
            0 <= i <= table.len(),
            table@ == gpt_attribute_table(),
            keep == (|e: (u64, GPTPartitionAttribute)| attributes & e.0 == e.0),
            r@ == table@.take(i as int).filter(keep).map_values(|e: (u64, GPTPartitionAttribute)| e.1),
        decreases table.len() - i,
    {
        let (flag, attr) = table[i];
        reveal(Seq::filter);
        assert(table@.take(i + 1).drop_last() == table@.take(i as int));
        if attributes & flag == flag {
            r.push(attr);
            assert(table@.take(i + 1).filter(keep) == table@.take(i as int).filter(keep).push(table@[i as int]));
        }
        assert(r@ =~= table@.take(i + 1).filter(keep).map_values(|e: (u64, GPTPartitionAttribute)| e.1));
        i += 1;
    }
    assert(table@.take(table.len() as int) == table@);
    r
}

} // verus!
