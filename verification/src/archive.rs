//! Locating and extracting the patch payload inside a downloaded archive.
//!
//! The container format is read by the `zip` crate over an in-memory
//! cursor, behind trusted wrappers.  Everything the reader yields — whether
//! parsing succeeds, the entry listing, each entry's bytes — is a pure
//! function of the archive bytes, named by uninterpreted spec functions so
//! that the scan logic above them has an exact, deterministic contract.

use vstd::prelude::*;
use crate::text::{
    rfind_char, rfind_char_at, chars_eq, str_to_chars, subvec,
};

verus! {

#[verifier::external_type_specification]
#[verifier::external_body]
#[verifier::reject_recursive_types(T)]
pub struct ExCursor<T>(std::io::Cursor<T>);

#[verifier::external_type_specification]
#[verifier::external_body]
#[verifier::reject_recursive_types(R)]
pub struct ExZipArchive<R>(zip::ZipArchive<R>);

#[verifier::external_type_specification]
#[verifier::external_body]
pub struct ExZipError(zip::result::ZipError);

/// Why an archive could not be opened or an entry could not be read; the
/// variants mirror `zip::result::ZipError` with payloads dropped.
#[derive(Clone, Copy, Debug, PartialEq, Eq, Structural)]
pub enum ArchiveError {
    Io,
    InvalidArchive,
    UnsupportedArchive,
    FileNotFound,
    InvalidPassword,
    CompressionMethodNotSupported,
}

/// Relies on the shape of `zip::result::ZipError`: each variant maps to the
/// library's error, dropping the carried payload.
#[verifier::external_body]
fn archive_error_of(e: zip::result::ZipError) -> ArchiveError {
    match e {
        zip::result::ZipError::Io(_) => ArchiveError::Io,
        zip::result::ZipError::InvalidArchive(_) => ArchiveError::InvalidArchive,
        zip::result::ZipError::UnsupportedArchive(_) => ArchiveError::UnsupportedArchive,
        zip::result::ZipError::FileNotFound => ArchiveError::FileNotFound,
        zip::result::ZipError::InvalidPassword => ArchiveError::InvalidPassword,
        zip::result::ZipError::CompressionMethodNotSupported(_) => {
            ArchiveError::CompressionMethodNotSupported
        },
        _ => ArchiveError::InvalidArchive,
    }
}

/// Whether the `zip` reader accepts these bytes as an archive.
pub uninterp spec fn zip_parse_ok(bytes: Seq<u8>) -> bool;

/// The stored entry names of the archive these bytes hold, in entry order.
pub uninterp spec fn zip_names(bytes: Seq<u8>) -> Seq<Seq<char>>;

/// Whether entry `i` of the archive these bytes hold can be decompressed.
pub uninterp spec fn zip_entry_ok(bytes: Seq<u8>, i: int) -> bool;

/// The bytes stored in entry `i` of the archive these bytes hold.
pub uninterp spec fn zip_data(bytes: Seq<u8>, i: int) -> Seq<u8>;

/// A random-access reader over a downloaded archive held in memory, keeping
/// the bytes it was opened over so that contracts can speak of them.
pub struct PatchArchive {
    inner: zip::ZipArchive<std::io::Cursor<Vec<u8>>>,
    data: Vec<u8>,
}

impl PatchArchive {
    /// The archive bytes this reader was opened over.
    pub closed spec fn bytes(&self) -> Seq<u8> {
        self.data@
    }

    /// Relies on `zip::ZipArchive::new` over an in-memory cursor: reading
    /// the central directory succeeds or fails, and yields the entry
    /// listing, as a pure function of the archive bytes.
    #[verifier::external_body]
    pub fn open(bytes: Vec<u8>) -> (r: Result<PatchArchive, ArchiveError>)
        ensures
            r is Ok <==> zip_parse_ok(bytes@),
            r matches Ok(a) ==> a.bytes() == bytes@,
    {
        match zip::ZipArchive::new(std::io::Cursor::new(bytes.clone())) {
            Ok(inner) => Ok(PatchArchive { inner, data: bytes }),
            Err(e) => Err(archive_error_of(e)),
        }
    }

    /// Relies on `zip::ZipArchive::len`: the number of entries in the
    /// central directory.
    #[verifier::external_body]
    pub fn entry_count(&self) -> (n: usize)
        ensures
            n == zip_names(self.bytes()).len(),
    {
        self.inner.len()
    }

    /// Relies on `zip::ZipArchive::name_for_index`: the stored name of
    /// entry `i`, present for every index below the entry count.
    #[verifier::external_body]
    pub fn entry_name(&self, i: usize) -> (r: String)
        requires
            i < zip_names(self.bytes()).len(),
        ensures
            r@ == zip_names(self.bytes())[i as int],
    {
        self.inner.name_for_index(i).map(|s| s.to_string()).unwrap_or_default()
    }

    /// Relies on `zip::ZipArchive::by_index` and `std::io::Read::read_to_end`
    /// over the in-memory cursor: whether entry `i` decompresses, and the
    /// bytes it yields, are pure functions of the archive bytes, and reading
    /// leaves the listing unchanged.
    #[verifier::external_body]
    pub fn read_entry(&mut self, i: usize) -> (r: Result<Vec<u8>, ArchiveError>)
        requires
            i < zip_names(old(self).bytes()).len(),
        ensures
            final(self).bytes() == old(self).bytes(),
            r is Ok <==> zip_entry_ok(old(self).bytes(), i as int),
            r matches Ok(d) ==> d@ == zip_data(old(self).bytes(), i as int),
    {
        match self.inner.by_index(i) {
            Ok(mut f) => {
                let mut buf: Vec<u8> = Vec::new();
                match std::io::Read::read_to_end(&mut f, &mut buf) {
                    Ok(_) => Ok(buf),
                    Err(_) => Err(ArchiveError::Io),
                }
            },
            Err(e) => Err(archive_error_of(e)),
        }
    }
}

/// The filename part of a stored entry path: everything after the last `/`,
/// or the whole name when there is none.
pub open spec fn file_part(name: Seq<char>) -> Seq<char> {
    name.skip(rfind_char(name, '/') + 1)
}

/// Index of the dot introducing the extension, `-1` when there is none.
pub open spec fn dot_pos(fname: Seq<char>) -> int {
    rfind_char(fname, '.')
}

/// Whether the filename carries exactly this extension.  A leading dot
/// introduces no extension, so hidden-style names never match.
pub open spec fn has_ext(fname: Seq<char>, ext: Seq<char>) -> bool {
    dot_pos(fname) >= 1 && fname.skip(dot_pos(fname) + 1) == ext
}

/// The filename without its extension.
pub open spec fn payload_stem(name: Seq<char>) -> Seq<char> {
    file_part(name).take(dot_pos(file_part(name)))
}

/// A parent-directory component starting at position `i`.
pub open spec fn dotdot_at(s: Seq<char>, i: int) -> bool {
    &&& 0 <= i
    &&& i + 2 <= s.len()
    &&& s[i] == '.'
    &&& s[i + 1] == '.'
    &&& (i == 0 || s[i - 1] == '/')
    &&& (i + 2 == s.len() || s[i + 2] == '/')
}

/// A stored path is safe to extract when it is relative and no component
/// climbs out of the archive root.
pub open spec fn safe_entry_path(s: Seq<char>) -> bool {
    s.len() > 0 && s[0] != '/' && !(exists|i: int| dotdot_at(s, i))
}

/// An entry is the payload when its path is safe and its filename carries
/// the target extension.
pub open spec fn entry_matches(name: Seq<char>, ext: Seq<char>) -> bool {
    safe_entry_path(name) && has_ext(file_part(name), ext)
}

fn is_safe_entry(name: &Vec<char>) -> (r: bool)
    ensures
        r == safe_entry_path(name@),
{
    let n = name.len();
    if n == 0 {
        return false;
    }
    if name[0] == '/' {
        return false;
    }
    let mut i: usize = 0;
    while i < n
        invariant
            0 <= i <= n,
            n == name@.len(),
            forall|j: int| 0 <= j < i ==> !dotdot_at(name@, j),
        decreases n - i,
    {
        let two_fit = n - i >= 2;
        let hit = two_fit && name[i] == '.' && name[i + 1] == '.' && (i == 0 || name[i - 1]
            == '/') && (i + 2 == n || name[i + 2] == '/');
        if hit {
            assert(dotdot_at(name@, i as int));
            return false;
        }
        assert(!dotdot_at(name@, i as int));
        i = i + 1;
    }
    assert forall|j: int| !dotdot_at(name@, j) by {
        if j + 2 <= name@.len() && 0 <= j {
            assert(j < n);
        }
    }
    true
}

/// `Some(stem)` exactly when the entry is the payload; the stem is the
/// filename without its extension, used to name the final artifact.
pub fn match_payload_name(name: &Vec<char>, ext: &Vec<char>) -> (r: Option<Vec<char>>)
    ensures
        r is Some <==> entry_matches(name@, ext@),
        r matches Some(stem) ==> stem@ == payload_stem(name@),
{
    if !is_safe_entry(name) {
        return None;
    }
    let nl = name.len();
    let fname = match rfind_char_at(name, '/') {
        Some(i) => subvec(name, i + 1, nl),
        None => subvec(name, 0, nl),
    };
    proof {
        assert(fname@ =~= file_part(name@));
    }
    match rfind_char_at(&fname, '.') {
        Some(d) => {
            if d >= 1 {
                let tail = subvec(&fname, d + 1, fname.len());
                proof {
                    assert(tail@ =~= fname@.skip(dot_pos(fname@) + 1));
                }
                if chars_eq(&tail, ext) {
                    let stem = subvec(&fname, 0, d);
                    proof {
                        assert(stem@ =~= file_part(name@).take(dot_pos(file_part(name@))));
                    }
                    Some(stem)
                } else {
                    None
                }
            } else {
                None
            }
        },
        None => None,
    }
}

/// Index of the first entry that is the payload, in stored order.
pub open spec fn first_match(names: Seq<Seq<char>>, ext: Seq<char>) -> Option<int>
    decreases names.len(),
{
    if names.len() == 0 {
        None
    } else if entry_matches(names[0], ext) {
        Some(0int)
    } else {
        match first_match(names.drop_first(), ext) {
            Some(j) => Some(j + 1),
            None => None,
        }
    }
}

proof fn lemma_first_match_none(names: Seq<Seq<char>>, ext: Seq<char>)
    requires
        forall|j: int| 0 <= j < names.len() ==> !entry_matches(#[trigger] names[j], ext),
    ensures
        first_match(names, ext) is None,
    decreases names.len(),
{
    if names.len() > 0 {
        assert(forall|j: int|
            0 <= j < names.drop_first().len() ==> names.drop_first()[j] == names[j + 1]);
        lemma_first_match_none(names.drop_first(), ext);
    }
}

proof fn lemma_first_match_at(names: Seq<Seq<char>>, ext: Seq<char>, k: int)
    requires
        0 <= k < names.len(),
        entry_matches(names[k], ext),
        forall|j: int| 0 <= j < k ==> !entry_matches(#[trigger] names[j], ext),
    ensures
        first_match(names, ext) == Some(k),
    decreases k,
{
    if k > 0 {
        assert(forall|j: int|
            0 <= j < names.drop_first().len() ==> names.drop_first()[j] == names[j + 1]);
        lemma_first_match_at(names.drop_first(), ext, k - 1);
    }
}

proof fn lemma_first_match_is_match(names: Seq<Seq<char>>, ext: Seq<char>)
    ensures
        first_match(names, ext) matches Some(i) ==> 0 <= i < names.len() && entry_matches(
            names[i],
            ext,
        ),
    decreases names.len(),
{
    if names.len() > 0 && !entry_matches(names[0], ext) {
        lemma_first_match_is_match(names.drop_first(), ext);
    }
}

/// The scan selects the first payload in stored order: whatever entry it
/// picks matches, has a safe relative path — an entry whose stored path
/// climbs out of the archive root is never extracted — and no earlier
/// entry matches.
pub proof fn lemma_extracted_entry_is_first_and_safe(
    names: Seq<Seq<char>>,
    ext: Seq<char>,
    i: int,
)
    requires
        first_match(names, ext) == Some(i),
    ensures
        0 <= i < names.len(),
        entry_matches(names[i], ext),
        safe_entry_path(names[i]),
        forall|j: int| 0 <= j < i ==> !entry_matches(#[trigger] names[j], ext),
    decreases names.len(),
{
    lemma_first_match_is_match(names, ext);
    if names.len() > 0 && !entry_matches(names[0], ext) {
        assert(forall|j: int|
            0 <= j < names.drop_first().len() ==> names.drop_first()[j] == names[j + 1]);
        lemma_extracted_entry_is_first_and_safe(names.drop_first(), ext, i - 1);
        assert forall|j: int| 0 <= j < i implies !entry_matches(#[trigger] names[j], ext) by {
            if j > 0 {
                assert(names.drop_first()[j - 1] == names[j]);
            }
        }
    }
}

/// The payload pulled out of an archive: its bytes and the discovered base
/// name that later names the output artifact.
pub struct ExtractedPayload {
    pub data: Vec<u8>,
    pub base_name: Vec<char>,
}

/// Scans the archive in stored order and extracts the first safe entry
/// whose filename carries the target extension.  Later entries are not
/// read.  `Ok(None)` means no entry matched — the caller decides whether
/// that is fatal; `Err` means the matching entry could not be read.
pub fn get_patch_from_zip(archive: &mut PatchArchive, target_ext: &Vec<char>) -> (r: Result<
    Option<ExtractedPayload>,
    ArchiveError,
>)
    ensures
        final(archive).bytes() == old(archive).bytes(),
        ({
            let names = zip_names(old(archive).bytes());
            let m = first_match(names, target_ext@);
            match r {
                Ok(Some(p)) => {
                    &&& m is Some
                    &&& p.base_name@ == payload_stem(names[m->0])
                    &&& zip_entry_ok(old(archive).bytes(), m->0)
                    &&& p.data@ == zip_data(old(archive).bytes(), m->0)
                },
                Ok(None) => m is None,
                Err(_) => m is Some && !zip_entry_ok(old(archive).bytes(), m->0),
            }
        }),
{
    let ghost b = archive.bytes();
    let ghost names = zip_names(b);
    let n = archive.entry_count();
    let mut i: usize = 0;
    while i < n
        invariant
            0 <= i <= n,
            b == old(archive).bytes(),
            archive.bytes() == b,
            names == zip_names(b),
            n == names.len(),
            forall|j: int| 0 <= j < i ==> !entry_matches(#[trigger] names[j], target_ext@),
        decreases n - i,
    {
        let stored = archive.entry_name(i);
        let name_chars = str_to_chars(stored.as_str());
        match match_payload_name(&name_chars, target_ext) {
            Some(stem) => {
                proof {
                    lemma_first_match_at(names, target_ext@, i as int);
                }
                match archive.read_entry(i) {
                    Ok(data) => {
                        return Ok(Some(ExtractedPayload { data, base_name: stem }));
                    },
                    Err(e) => {
                        return Err(e);
                    },
                }
            },
            None => {},
        }
        i = i + 1;
    }
    proof {
        lemma_first_match_none(names, target_ext@);
    }
    Ok(None)
}

} // verus!
