use vstd::prelude::*;

use crate::point::opt_view;

verus! {

/// Why a database payload could not be acquired.
#[derive(Debug, PartialEq, Eq, Structural, Clone, Copy)]
pub enum AcquireError {
    /// The payload is not a valid gzip stream.
    Decompress,
    /// An entry of the archive, or its path, could not be read.
    ArchiveRead,
    /// The archive holds no entry with the database extension.
    NoDatabaseEntry,
    /// Every source was tried and none succeeded.
    Exhausted,
}

/// The text that describes a failure, naming the stage that failed.
pub open spec fn message_text(e: AcquireError) -> Seq<char> {
    match e {
        AcquireError::Decompress => "failed to decompress database"@,
        AcquireError::ArchiveRead => "failed to read archive entry"@,
        AcquireError::NoDatabaseEntry => "mmdb file not found in archive"@,
        AcquireError::Exhausted => "no database source succeeded"@,
    }
}

impl AcquireError {
    /// A short description of the failure.
    pub fn message(&self) -> (r: String)
        ensures
            r@ == message_text(*self),
    {
        match self {
            AcquireError::Decompress => String::from_str("failed to decompress database"),
            AcquireError::ArchiveRead => String::from_str("failed to read archive entry"),
            AcquireError::NoDatabaseEntry => String::from_str("mmdb file not found in archive"),
            AcquireError::Exhausted => String::from_str("no database source succeeded"),
        }
    }
}

/// What gzip decompression of `data` yields; `None` where it is no valid stream.
pub uninterp spec fn gunzip_of(data: Seq<u8>) -> Option<Seq<u8>>;

/// The paths of a tar archive's entries in order; `None` for an entry whose
/// header or path could not be read.
pub uninterp spec fn tar_paths_of(tar: Seq<u8>) -> Seq<Option<Seq<char>>>;

/// The contents of the tar archive's entry at `index`; `None` where it cannot be read.
pub uninterp spec fn tar_entry_of(tar: Seq<u8>, index: int) -> Option<Seq<u8>>;

/// The extension of a path's file name.
pub uninterp spec fn extension_of(path: Seq<char>) -> Option<Seq<char>>;

/// Relies on flate2::read::GzDecoder, read to its end: the decompressed bytes
/// of a gzip stream, or an error.
#[verifier::external_body]
fn gunzip(data: &Vec<u8>) -> (r: Option<Vec<u8>>)
    ensures
        r is Some <==> gunzip_of(data@) is Some,
        r matches Some(d) ==> gunzip_of(data@) == Some(d@),
{
    let mut decoder = flate2::read::GzDecoder::new(data.as_slice());
    let mut buf = Vec::new();
    match std::io::Read::read_to_end(&mut decoder, &mut buf) {
        Ok(_) => Some(buf),
        Err(_) => None,
    }
}

/// The views of a list of optional paths.
pub open spec fn paths_view(v: Seq<Option<String>>) -> Seq<Option<Seq<char>>> {
    v.map_values(|o: Option<String>| opt_view(o))
}

/// Relies on tar::Archive::entries and tar::Entry::path: the path of each
/// entry of the archive, in order.
#[verifier::external_body]
fn archive_paths(tar: &Vec<u8>) -> (r: Vec<Option<String>>)
    ensures
        paths_view(r@) == tar_paths_of(tar@),
{
    let mut archive = tar::Archive::new(tar.as_slice());
    let mut paths = Vec::new();
    match archive.entries() {
        Ok(entries) => {
            for entry in entries {
                paths.push(entry.ok().and_then(|e| e.path().ok().map(|p| p.to_string_lossy().into_owned())));
            }
        },
        Err(_) => paths.push(None),
    }
    paths
}

/// Relies on tar::Archive::entries and std::io::Read::read_to_end: the
/// contents of the entry at `index`.
#[verifier::external_body]
fn archive_entry(tar: &Vec<u8>, index: usize) -> (r: Option<Vec<u8>>)
    ensures
        r is Some <==> tar_entry_of(tar@, index as int) is Some,
        r matches Some(d) ==> tar_entry_of(tar@, index as int) == Some(d@),
{
    let mut archive = tar::Archive::new(tar.as_slice());
    let mut entry = archive.entries().ok()?.nth(index)?.ok()?;
    let mut buf = Vec::new();
    std::io::Read::read_to_end(&mut entry, &mut buf).ok()?;
    Some(buf)
}

/// Relies on std::path::Path::extension: the text after the last dot of the
/// path's file name.
#[verifier::external_body]
fn path_extension(path: &str) -> (r: Option<String>)
    ensures
        opt_view(r) == extension_of(path@),
{
    std::path::Path::new(path).extension().map(|e| e.to_string_lossy().into_owned())
}

/// The extension of database files.
pub open spec fn database_extension() -> Seq<char> {
    seq!['m', 'm', 'd', 'b']
}

/// Whether `s` ends with `suffix`.
pub open spec fn has_suffix(s: Seq<char>, suffix: Seq<char>) -> bool {
    s.len() >= suffix.len() && s.subrange(s.len() - suffix.len(), s.len() as int) == suffix
}

/// The suffix of gzip-compressed files.
pub open spec fn gzip_suffix() -> Seq<char> {
    seq!['.', 'g', 'z']
}

/// The first entry from `i` on whose path has the database extension; an
/// unreadable entry before it fails the scan.
pub open spec fn scan_from(paths: Seq<Option<Seq<char>>>, i: int) -> Result<int, AcquireError>
    decreases paths.len() - i,
{
    if i < 0 || i >= paths.len() {
        Err(AcquireError::NoDatabaseEntry)
    } else if paths[i] is None {
        Err(AcquireError::ArchiveRead)
    } else if extension_of(paths[i]->0) == Some(database_extension()) {
        Ok(i)
    } else {
        scan_from(paths, i + 1)
    }
}

/// The view of a payload result.
pub open spec fn result_view(r: Result<Vec<u8>, AcquireError>) -> Result<Seq<u8>, AcquireError> {
    match r {
        Ok(d) => Ok(d@),
        Err(e) => Err(e),
    }
}

/// The database bytes in a raw download from `url`: decompressed where the
/// URL names a gzip file, else the body itself.
pub open spec fn raw_payload(url: Seq<char>, body: Seq<u8>) -> Result<Seq<u8>, AcquireError> {
    if has_suffix(url, gzip_suffix()) {
        match gunzip_of(body) {
            Some(d) => Ok(d),
            None => Err(AcquireError::Decompress),
        }
    } else {
        Ok(body)
    }
}

/// The database bytes in a gzip-compressed tar archive: the contents of the
/// first entry with the database extension.
pub open spec fn archive_payload(body: Seq<u8>) -> Result<Seq<u8>, AcquireError> {
    match gunzip_of(body) {
        None => Err(AcquireError::Decompress),
        Some(t) => match scan_from(tar_paths_of(t), 0) {
            Err(e) => Err(e),
            Ok(i) => match tar_entry_of(t, i) {
                Some(d) => Ok(d),
                None => Err(AcquireError::ArchiveRead),
            },
        },
    }
}

/// Whether `s` ends with `suffix`.
pub fn ends_with(s: &str, suffix: &str) -> (r: bool)
    ensures
        r == has_suffix(s@, suffix@),
{
    let n = s.unicode_len();
    let m = suffix.unicode_len();
    if n < m {
        return false;
    }
    let mut j: usize = 0;
    while j < m
        invariant
            n == s@.len(),
            m == suffix@.len(),
            m <= n,
            j <= m,
            forall|k: int| 0 <= k < j ==> s@[n - m + k] == suffix@[k],
        decreases m - j,
    {
        if s.get_char(n - m + j) != suffix.get_char(j) {
            proof {
                let t = s@.subrange(n - m, n as int);
                assert(t[j as int] != suffix@[j as int]);
            }
            return false;
        }
        j = j + 1;
    }
    proof {
        assert(s@.subrange(n - m, n as int) =~= suffix@);
    }
    true
}

/// The index of the first entry with the database extension.
fn find_database_entry(paths: &Vec<Option<String>>) -> (r: Result<usize, AcquireError>)
    ensures
        match r {
            Ok(i) => scan_from(paths_view(paths@), 0) == Ok::<int, AcquireError>(i as int),
            Err(e) => scan_from(paths_view(paths@), 0) == Err::<int, AcquireError>(e),
        },
{
    let ghost v = paths_view(paths@);
    let mut i: usize = 0;
    while i < paths.len()
        invariant
            i <= paths@.len(),
            v == paths_view(paths@),
            v.len() == paths@.len(),
            scan_from(v, 0) == scan_from(v, i as int),
        decreases paths.len() - i,
    {
        match &paths[i] {
            None => {
                return Err(AcquireError::ArchiveRead);
            },
            Some(p) => {
                let ext = path_extension(p.as_str());
                let mmdb = String::from_str("mmdb");
                proof {
                    reveal_strlit("mmdb");
                    assert(mmdb@ =~= database_extension());
                }
                let found = match &ext {
                    Some(e) => *e == mmdb,
                    None => false,
                };
                if found {
                    return Ok(i);
                }
            },
        }
        i = i + 1;
    }
    Err(AcquireError::NoDatabaseEntry)
}

/// The database bytes of a raw download from `url`.
pub fn unpack_raw(url: &str, body: Vec<u8>) -> (r: Result<Vec<u8>, AcquireError>)
    ensures
        result_view(r) == raw_payload(url@, body@),
{
    proof {
        reveal_strlit(".gz");
    }
    if ends_with(url, ".gz") {
        proof {
            assert(".gz"@ =~= gzip_suffix());
        }
        match gunzip(&body) {
            Some(d) => Ok(d),
            None => Err(AcquireError::Decompress),
        }
    } else {
        proof {
            assert(".gz"@ =~= gzip_suffix());
        }
        Ok(body)
    }
}

/// The database bytes of a gzip-compressed tar archive.
pub fn unpack_archive(body: &Vec<u8>) -> (r: Result<Vec<u8>, AcquireError>)
    ensures
        result_view(r) == archive_payload(body@),
{
    let tar = match gunzip(body) {
        Some(t) => t,
        None => return Err(AcquireError::Decompress),
    };
    let paths = archive_paths(&tar);
    let i = match find_database_entry(&paths) {
        Ok(i) => i,
        Err(e) => return Err(e),
    };
    match archive_entry(&tar, i) {
        Some(d) => Ok(d),
        None => Err(AcquireError::ArchiveRead),
    }
}

} // verus!
