//! Digests of a file's content, written as hexadecimal text.
use md5::Digest as Md5Digest;
use sha2::Digest as Sha2Digest;
use vstd::prelude::*;

verus! {

/// The MD5 digest of `data` (16 bytes).
pub uninterp spec fn md5_digest(data: Seq<u8>) -> Seq<u8>;

/// The SHA-256 digest of `data` (32 bytes).
pub uninterp spec fn sha256_digest(data: Seq<u8>) -> Seq<u8>;

/// The BLAKE3 digest of `data` (32 bytes).
pub uninterp spec fn blake3_digest(data: Seq<u8>) -> Seq<u8>;

/// The lower-case hexadecimal digit of a value below sixteen.
pub open spec fn hex_digit(d: u8) -> char {
    if d < 10 {
        (('0' as u8) + d) as char
    } else {
        (('a' as u8) + d - 10) as char
    }
}

/// `bytes` in lower-case hexadecimal, two digits per byte, high digit first.
pub open spec fn hex_lower(bytes: Seq<u8>) -> Seq<char>
    decreases bytes.len(),
{
    if bytes.len() == 0 {
        Seq::empty()
    } else {
        hex_lower(bytes.drop_last()) + seq![hex_digit(bytes.last() / 16), hex_digit(bytes.last() % 16)]
    }
}

/// `<md5::Md5 as Digest>::digest`: the 16-byte MD5 digest of `data`, a
/// function of `data` alone.
#[verifier::external_body]
fn md5_of(data: &[u8]) -> (r: Vec<u8>)
    ensures
        r@ == md5_digest(data@),
        r@.len() == 16,
{
    <md5::Md5 as Md5Digest>::digest(data).to_vec()
}

/// `<sha2::Sha256 as Digest>::digest`: the 32-byte SHA-256 digest of
/// `data`, a function of `data` alone.
#[verifier::external_body]
fn sha256_of(data: &[u8]) -> (r: Vec<u8>)
    ensures
        r@ == sha256_digest(data@),
        r@.len() == 32,
{
    <sha2::Sha256 as Sha2Digest>::digest(data).to_vec()
}

/// `blake3::hash` followed by `Hash::to_hex`: the BLAKE3 digest of `data`
/// in lower-case hexadecimal, two digits per byte, 64 digits in all (the
/// digest has `OUT_LEN`, 32, bytes).
#[verifier::external_body]
fn blake3_hex_of(data: &[u8]) -> (r: String)
    ensures
        r@ == hex_lower(blake3_digest(data@)),
        r@.len() == 64,
{
    blake3::hash(data).to_hex().to_string()
}

/// `hex::encode`: `bytes` in lower-case hexadecimal, two digits per byte.
#[verifier::external_body]
fn hex_encode(bytes: &[u8]) -> (r: String)
    ensures
        r@ == hex_lower(bytes@),
{
    hex::encode(bytes)
}

/// The digests of a file shown in reports.
#[derive(Debug)]
pub struct FileHashes {
    pub md5: String,
    pub sha256: String,
    pub blake3: String,
}

/// The MD5, SHA-256 and BLAKE3 digests of a file's content, in lower-case
/// hexadecimal: 32, 64 and 64 digits for digests of 16, 32 and 32 bytes.
pub fn calculate_hashes(content: &[u8]) -> (r: FileHashes)
    ensures
        r.md5@ == hex_lower(md5_digest(content@)),
        r.sha256@ == hex_lower(sha256_digest(content@)),
        r.blake3@ == hex_lower(blake3_digest(content@)),
        md5_digest(content@).len() == 16,
        sha256_digest(content@).len() == 32,
        blake3_digest(content@).len() == 32,
        r.md5@.len() == 32,
        r.sha256@.len() == 64,
        r.blake3@.len() == 64,
{
    let md5 = md5_of(content);
    let sha256 = sha256_of(content);
    proof {
        hex_lower_length(md5_digest(content@));
        hex_lower_length(sha256_digest(content@));
        hex_lower_length(blake3_digest(content@));
    }
    FileHashes {
        md5: hex_encode(md5.as_slice()),
        sha256: hex_encode(sha256.as_slice()),
        blake3: blake3_hex_of(content),
    }
}

/// Hexadecimal text has two digits per byte.
pub proof fn hex_lower_length(bytes: Seq<u8>)
    ensures
        hex_lower(bytes).len() == 2 * bytes.len(),
    decreases bytes.len(),
{
    if bytes.len() > 0 {
        hex_lower_length(bytes.drop_last());
    }
}

} // verus!
