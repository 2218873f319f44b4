//! Files met during an analysis and the digests computed of them.
use vstd::prelude::*;

verus! {

/// A digest algorithm.
#[derive(Debug, Clone, Copy, PartialEq, Eq, Hash, Structural)]
pub enum HashFunction {
    Md5,
    Sha1,
    Sha256,
    Blake3,
}

/// A file: its path, its size in bytes and the digests computed of it, at
/// most one per algorithm.
#[derive(Debug)]
pub struct FileEntry {
    path: String,
    size: usize,
    md5: Option<String>,
    sha1: Option<String>,
    sha256: Option<String>,
    blake3: Option<String>,
}

/// The contents of a [`FileEntry`]: path, size and the digest held for each
/// algorithm.
pub ghost struct FileEntryView {
    pub path: Seq<char>,
    pub size: usize,
    pub md5: Option<Seq<char>>,
    pub sha1: Option<Seq<char>>,
    pub sha256: Option<Seq<char>>,
    pub blake3: Option<Seq<char>>,
}

/// The digest a file holds for an algorithm.
pub open spec fn digest_of(v: FileEntryView, f: HashFunction) -> Option<Seq<char>> {
    match f {
        HashFunction::Md5 => v.md5,
        HashFunction::Sha1 => v.sha1,
        HashFunction::Sha256 => v.sha256,
        HashFunction::Blake3 => v.blake3,
    }
}

impl View for FileEntry {
    type V = FileEntryView;

    closed spec fn view(&self) -> FileEntryView {
        FileEntryView {
            path: self.path@,
            size: self.size,
            md5: self.md5.deep_view(),
            sha1: self.sha1.deep_view(),
            sha256: self.sha256.deep_view(),
            blake3: self.blake3.deep_view(),
        }
    }
}

impl FileEntry {
    /// A file with no digest yet.
    pub fn new(path: String, size: usize) -> (r: Self)
        ensures
            r@ == (FileEntryView { path: path@, size, md5: None, sha1: None, sha256: None, blake3: None }),
    {
        FileEntry { path, size, md5: None, sha1: None, sha256: None, blake3: None }
    }

    pub fn path(&self) -> (r: &String)
        ensures
            r@ == self@.path,
    {
        &self.path
    }

    pub fn size(&self) -> (r: usize)
        ensures
            r == self@.size,
    {
        self.size
    }

    /// The digest held for an algorithm, if any.
    pub fn hash(&self, hash_function: &HashFunction) -> (r: Option<&String>)
        ensures
            match r {
                Some(s) => digest_of(self@, *hash_function) == Some(s@),
                None => digest_of(self@, *hash_function) is None,
            },
    {
        match hash_function {
            HashFunction::Md5 => self.md5.as_ref(),
            HashFunction::Sha1 => self.sha1.as_ref(),
            HashFunction::Sha256 => self.sha256.as_ref(),
            HashFunction::Blake3 => self.blake3.as_ref(),
        }
    }

    /// Stores the digest for an algorithm, replacing the one held before;
    /// the digests of the other algorithms are kept.
    pub fn add_hash(&mut self, hash_function: HashFunction, hash_result: String)
        ensures
            final(self)@ == store_digest(old(self)@, hash_function, hash_result@),
    {
        match hash_function {
            HashFunction::Md5 => self.md5 = Some(hash_result),
            HashFunction::Sha1 => self.sha1 = Some(hash_result),
            HashFunction::Sha256 => self.sha256 = Some(hash_result),
            HashFunction::Blake3 => self.blake3 = Some(hash_result),
        }
    }
}

/// A digest read back after it was stored is the one stored, and storing
/// it leaves the digests of the other algorithms as they were.
pub proof fn stored_digest_read_back(v: FileEntryView, f: HashFunction, g: HashFunction, d: Seq<char>)
    ensures
        digest_of(store_digest(v, f, d), f) == Some(d),
        f != g ==> digest_of(store_digest(v, f, d), g) == digest_of(v, g),
{
}

/// A file's contents after storing digest `d` for algorithm `f`.
pub open spec fn store_digest(v: FileEntryView, f: HashFunction, d: Seq<char>) -> FileEntryView {
    match f {
        HashFunction::Md5 => FileEntryView { md5: Some(d), ..v },
        HashFunction::Sha1 => FileEntryView { sha1: Some(d), ..v },
        HashFunction::Sha256 => FileEntryView { sha256: Some(d), ..v },
        HashFunction::Blake3 => FileEntryView { blake3: Some(d), ..v },
    }
}

} // verus!
