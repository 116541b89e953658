//! Catalog search: building the request URL and turning the raw table rows
//! of the results listing into structured records.
//!
//! The rows arrive from the cell readers in `scrape`; everything decided
//! about their values — strictness, trimming, URL normalization — is
//! verified here with exact contracts over each row's `RowModel` view.

use vstd::prelude::*;
use vstd::string::StringSliceAdditionalSpecFns;
use crate::text::{
    trim, trim_chars, str_to_chars, chars_to_string, find_char, find_char_at,
    has_prefix, starts_with_chars, concat_chars, subvec,
};

verus! {

/// The HTML entity for a non-breaking space, as it appears in the size cell.
pub open spec fn nbsp_entity() -> Seq<char> {
    seq!['&', 'n', 'b', 's', 'p', ';']
}

/// Every occurrence of `&nbsp;` replaced by a single space.
pub open spec fn replace_nbsp(s: Seq<char>) -> Seq<char>
    decreases s.len(),
{
    if s.len() == 0 {
        s
    } else if has_prefix(s, nbsp_entity()) {
        seq![' '] + replace_nbsp(s.skip(6))
    } else {
        seq![s[0]] + replace_nbsp(s.drop_first())
    }
}

fn nbsp_at(s: &Vec<char>, i: usize) -> (r: bool)
    requires
        i <= s@.len(),
    ensures
        r == has_prefix(s@.skip(i as int), nbsp_entity()),
{
    if s.len() - i < 6 {
        assert(s@.skip(i as int).len() < 6);
        return false;
    }
    let r = s[i] == '&' && s[i + 1] == 'n' && s[i + 2] == 'b' && s[i + 3] == 's' && s[i + 4]
        == 'p' && s[i + 5] == ';';
    proof {
        let t = s@.skip(i as int);
        if r {
            assert(t.subrange(0, 6) =~= nbsp_entity());
        } else {
            if has_prefix(t, nbsp_entity()) {
                assert(t.subrange(0, 6)[0] == '&' && t.subrange(0, 6)[1] == 'n' && t.subrange(
                    0,
                    6,
                )[2] == 'b' && t.subrange(0, 6)[3] == 's' && t.subrange(0, 6)[4] == 'p'
                    && t.subrange(0, 6)[5] == ';');
            }
        }
    }
    r
}

/// Replaces every `&nbsp;` entity by a plain space.
pub fn replace_nbsp_chars(s: &Vec<char>) -> (r: Vec<char>)
    ensures
        r@ == replace_nbsp(s@),
{
    let n = s.len();
    let mut out: Vec<char> = Vec::new();
    let mut i: usize = 0;
    proof {
        assert(s@.skip(0) =~= s@);
    }
    while i < n
        invariant
            0 <= i <= n,
            n == s@.len(),
            replace_nbsp(s@) == out@ + replace_nbsp(s@.skip(i as int)),
        decreases n - i,
    {
        if nbsp_at(s, i) {
            proof {
                let t = s@.skip(i as int);
                assert(t.skip(6) =~= s@.skip(i + 6));
                assert(out@ + (seq![' '] + replace_nbsp(s@.skip(i + 6))) =~= out@.push(' ')
                    + replace_nbsp(s@.skip(i + 6)));
            }
            out.push(' ');
            i = i + 6;
        } else {
            proof {
                let t = s@.skip(i as int);
                assert(t[0] == s@[i as int]);
                assert(t.drop_first() =~= s@.skip(i + 1));
                assert(out@ + (seq![t[0]] + replace_nbsp(s@.skip(i + 1))) =~= out@.push(
                    s@[i as int],
                ) + replace_nbsp(s@.skip(i + 1)));
            }
            out.push(s[i]);
            i = i + 1;
        }
    }
    proof {
        assert(s@.skip(n as int) =~= Seq::<char>::empty());
        assert(out@ + replace_nbsp(Seq::<char>::empty()) =~= out@);
    }
    out
}

/// `https://`, the secure scheme every returned record must carry.
pub open spec fn https_scheme() -> Seq<char> {
    seq!['h', 't', 't', 'p', 's', ':', '/', '/']
}

/// `http://`, the insecure scheme that is upgraded.
pub open spec fn http_scheme() -> Seq<char> {
    seq!['h', 't', 't', 'p', ':', '/', '/']
}

/// `//`, the protocol-relative prefix found in the download cell.
pub open spec fn proto_relative() -> Seq<char> {
    seq!['/', '/']
}

/// A download link is acceptable when it is protocol-relative or absolute
/// with an HTTP scheme; anything else makes the row malformed.
pub open spec fn url_shape_ok(u: Seq<char>) -> bool {
    has_prefix(u, https_scheme()) || has_prefix(u, http_scheme()) || has_prefix(
        u,
        proto_relative(),
    )
}

/// The link upgraded to an absolute secure URL.
pub open spec fn normalize_url(u: Seq<char>) -> Seq<char> {
    if has_prefix(u, https_scheme()) {
        u
    } else if has_prefix(u, http_scheme()) {
        https_scheme() + u.skip(7)
    } else if has_prefix(u, proto_relative()) {
        seq!['h', 't', 't', 'p', 's', ':'] + u
    } else {
        u
    }
}

/// A URL is secure when it starts with `https://`.
pub open spec fn url_secure(u: Seq<char>) -> bool {
    has_prefix(u, https_scheme())
}

/// An acceptable link always normalizes to a non-empty secure absolute URL.
pub proof fn lemma_normalize_secure(u: Seq<char>)
    requires
        url_shape_ok(u),
    ensures
        url_secure(normalize_url(u)),
        normalize_url(u).len() > 0,
{
    if has_prefix(u, https_scheme()) {
    } else if has_prefix(u, http_scheme()) {
        let r = https_scheme() + u.skip(7);
        assert(r.subrange(0, 8) =~= https_scheme());
    } else {
        let r = seq!['h', 't', 't', 'p', 's', ':'] + u;
        assert(u.subrange(0, 2) == proto_relative());
        assert(u[0] == '/' && u[1] == '/') by {
            assert(u.subrange(0, 2)[0] == u[0] && u.subrange(0, 2)[1] == u[1]);
        }
        assert(r.subrange(0, 8) =~= https_scheme());
    }
}

pub(crate) fn https_scheme_vec() -> (r: Vec<char>)
    ensures
        r@ == https_scheme(),
{
    let r = vec!['h', 't', 't', 'p', 's', ':', '/', '/'];
    proof {
        assert(r@ =~= https_scheme());
    }
    r
}

pub(crate) fn http_scheme_vec() -> (r: Vec<char>)
    ensures
        r@ == http_scheme(),
{
    let r = vec!['h', 't', 't', 'p', ':', '/', '/'];
    proof {
        assert(r@ =~= http_scheme());
    }
    r
}

/// Upgrades an acceptable link to its absolute secure form; leaves any other
/// sequence unchanged, as `normalize_url` does.
pub fn normalize_url_chars(u: &Vec<char>) -> (r: Vec<char>)
    ensures
        r@ == normalize_url(u@),
{
    let https = https_scheme_vec();
    let http = http_scheme_vec();
    let proto = vec!['/', '/'];
    proof {
        assert(proto@ =~= proto_relative());
    }
    if starts_with_chars(u, &https) {
        subvec(u, 0, u.len())
    } else if starts_with_chars(u, &http) {
        let tail = subvec(u, 7, u.len());
        let r = concat_chars(&https, &tail);
        proof {
            assert(u@.subrange(7, u@.len() as int) =~= u@.skip(7));
        }
        r
    } else if starts_with_chars(u, &proto) {
        let head = vec!['h', 't', 't', 'p', 's', ':'];
        proof {
            assert(head@ =~= seq!['h', 't', 't', 'p', 's', ':']);
        }
        concat_chars(&head, u)
    } else {
        subvec(u, 0, u.len())
    }
}

/// One record of the catalog listing, with every field already normalized.
pub struct RomHackDetails {
    pub name: String,
    pub added_timestamp: String,
    pub demo: String,
    pub featured: String,
    pub length: String,
    pub game_type: String,
    pub authors: String,
    pub rating: String,
    pub size: String,
    pub download_url: String,
    pub downloads: String,
}

impl RomHackDetails {
    /// The ten display fields, in the column order of the listing.
    pub fn ordered_fields(&self) -> (r: Vec<String>)
        ensures
            r@.len() == 10,
            r@[0]@ == self.name@,
            r@[1]@ == self.added_timestamp@,
            r@[2]@ == self.demo@,
            r@[3]@ == self.featured@,
            r@[4]@ == self.length@,
            r@[5]@ == self.game_type@,
            r@[6]@ == self.authors@,
            r@[7]@ == self.rating@,
            r@[8]@ == self.size@,
            r@[9]@ == self.downloads@,
    {
        let mut r: Vec<String> = Vec::new();
        r.push(self.name.clone());
        r.push(self.added_timestamp.clone());
        r.push(self.demo.clone());
        r.push(self.featured.clone());
        r.push(self.length.clone());
        r.push(self.game_type.clone());
        r.push(self.authors.clone());
        r.push(self.rating.clone());
        r.push(self.size.clone());
        r.push(self.downloads.clone());
        r
    }
}

/// The raw cell values scraped from one data row; `None` marks a cell or a
/// nested element that the row did not contain.
#[derive(Clone)]
pub struct RawRow {
    pub name: Option<String>,
    pub added: Option<String>,
    pub demo: Option<String>,
    pub featured: Option<String>,
    pub length: Option<String>,
    pub game_type: Option<String>,
    pub authors: Option<String>,
    pub rating: Option<String>,
    pub size: Option<String>,
    pub download_href: Option<String>,
    pub downloads: Option<String>,
}

/// The mathematical view of one raw row: what each cell reader yielded,
/// with `None` for anything the row did not contain.
pub struct RowModel {
    pub name: Option<Seq<char>>,
    pub added: Option<Seq<char>>,
    pub demo: Option<Seq<char>>,
    pub featured: Option<Seq<char>>,
    pub length: Option<Seq<char>>,
    pub game_type: Option<Seq<char>>,
    pub authors: Option<Seq<char>>,
    pub rating: Option<Seq<char>>,
    pub size: Option<Seq<char>>,
    pub download_href: Option<Seq<char>>,
    pub downloads: Option<Seq<char>>,
}

/// The view of a raw row.
pub open spec fn model_of(r: RawRow) -> RowModel {
    RowModel {
        name: r.name.deep_view(),
        added: r.added.deep_view(),
        demo: r.demo.deep_view(),
        featured: r.featured.deep_view(),
        length: r.length.deep_view(),
        game_type: r.game_type.deep_view(),
        authors: r.authors.deep_view(),
        rating: r.rating.deep_view(),
        size: r.size.deep_view(),
        download_href: r.download_href.deep_view(),
        downloads: r.downloads.deep_view(),
    }
}

/// A row is well-formed when every expected cell is present, the added-date
/// cell holds a space-separated date, and the download link has an
/// acceptable shape.
pub open spec fn row_ok(m: RowModel) -> bool {
    &&& m.name is Some
    &&& m.added is Some
    &&& m.demo is Some
    &&& m.featured is Some
    &&& m.length is Some
    &&& m.game_type is Some
    &&& m.authors is Some
    &&& m.rating is Some
    &&& m.size is Some
    &&& m.download_href is Some
    &&& m.downloads is Some
    &&& find_char(m.added->0, ' ') < m.added->0.len()
    &&& url_shape_ok(m.download_href->0)
}

/// How a record is built from a well-formed row: the date is the part of the
/// added cell before its first space, the flag and text cells are trimmed,
/// the size cell additionally has `&nbsp;` entities replaced, and the
/// download link is normalized to a secure absolute URL.
pub open spec fn record_matches(rec: RomHackDetails, m: RowModel) -> bool {
    &&& rec.name@ == m.name->0
    &&& rec.added_timestamp@ == m.added->0.take(find_char(m.added->0, ' '))
    &&& rec.demo@ == trim(m.demo->0)
    &&& rec.featured@ == trim(m.featured->0)
    &&& rec.length@ == trim(m.length->0)
    &&& rec.game_type@ == trim(m.game_type->0)
    &&& rec.authors@ == m.authors->0
    &&& rec.rating@ == trim(m.rating->0)
    &&& rec.size@ == replace_nbsp(trim(m.size->0))
    &&& rec.download_url@ == normalize_url(m.download_href->0)
    &&& rec.downloads@ == m.downloads->0
}

/// Why a search failed: the request itself, or a listing whose shape did not
/// match the expected table.
#[derive(Clone, Debug, PartialEq)]
pub enum SearchError {
    /// Transport failure or non-success status; raised by the caller that
    /// performs the request, with the offending URL or step in `detail`.
    Network { detail: String },
    /// The results table was malformed; `row` is the first bad data row.
    Parse { row: usize },
}

/// A well-formed row's record always carries a non-empty secure URL.
pub proof fn lemma_record_url_secure(rec: RomHackDetails, m: RowModel)
    requires
        row_ok(m),
        record_matches(rec, m),
    ensures
        url_secure(rec.download_url@),
        rec.download_url@.len() > 0,
{
    lemma_normalize_secure(m.download_href->0);
}

fn trimmed_string(s: &String) -> (r: String)
    ensures
        r@ == trim(s@),
{
    let chars = str_to_chars(s.as_str());
    let t = trim_chars(&chars);
    chars_to_string(&t)
}

/// Builds the result set from the scraped rows.  Strict by design: the first
/// malformed row fails the whole search with `Parse` and no partial records
/// escape; a well-formed listing yields one record per row, in order.
pub fn build_records(rows: &Vec<RawRow>) -> (r: Result<Vec<RomHackDetails>, SearchError>)
    ensures
        match r {
            Ok(v) => {
                &&& v@.len() == rows@.len()
                &&& forall|i: int| 0 <= i < rows@.len() ==> row_ok(model_of(#[trigger] rows@[i]))
                &&& forall|i: int|
                    0 <= i < rows@.len() ==> record_matches(#[trigger] v@[i], model_of(rows@[i]))
            },
            Err(e) => {
                &&& e matches SearchError::Parse { row }
                &&& e->row < rows@.len()
                &&& !row_ok(model_of(rows@[e->row as int]))
                &&& forall|j: int| 0 <= j < e->row ==> row_ok(model_of(#[trigger] rows@[j]))
            },
        },
{
    let n = rows.len();
    let mut out: Vec<RomHackDetails> = Vec::new();
    let mut i: usize = 0;
    while i < n
        invariant
            0 <= i <= n,
            n == rows@.len(),
            out@.len() == i,
            forall|j: int| 0 <= j < i ==> row_ok(model_of(#[trigger] rows@[j])),
            forall|j: int| 0 <= j < i ==> record_matches(#[trigger] out@[j], model_of(rows@[j])),
        decreases n - i,
    {
        let row = &rows[i];
        match (
            &row.name,
            &row.added,
            &row.demo,
            &row.featured,
            &row.length,
            &row.game_type,
            &row.authors,
            &row.rating,
            &row.size,
            &row.download_href,
            &row.downloads,
        ) {
            (
                Some(name),
                Some(added),
                Some(demo),
                Some(featured),
                Some(length),
                Some(game_type),
                Some(authors),
                Some(rating),
                Some(size),
                Some(href),
                Some(downloads),
            ) => {
                let added_chars = str_to_chars(added.as_str());
                let k = find_char_at(&added_chars, ' ');
                if k == added_chars.len() {
                    assert(!row_ok(model_of(rows@[i as int])));
                    return Err(SearchError::Parse { row: i });
                }
                let added_head = subvec(&added_chars, 0, k);
                proof {
                    assert(added_chars@.subrange(0, k as int) =~= added_chars@.take(k as int));
                }
                let href_chars = str_to_chars(href.as_str());
                let https = https_scheme_vec();
                let http = http_scheme_vec();
                let proto = vec!['/', '/'];
                proof {
                    assert(proto@ =~= proto_relative());
                }
                let shape_ok = starts_with_chars(&href_chars, &https) || starts_with_chars(
                    &href_chars,
                    &http,
                ) || starts_with_chars(&href_chars, &proto);
                if !shape_ok {
                    assert(!row_ok(model_of(rows@[i as int])));
                    return Err(SearchError::Parse { row: i });
                }
                let url = normalize_url_chars(&href_chars);
                let size_chars = str_to_chars(size.as_str());
                let size_trimmed = trim_chars(&size_chars);
                let size_done = replace_nbsp_chars(&size_trimmed);
                let rec = RomHackDetails {
                    name: name.clone(),
                    added_timestamp: chars_to_string(&added_head),
                    demo: trimmed_string(demo),
                    featured: trimmed_string(featured),
                    length: trimmed_string(length),
                    game_type: trimmed_string(game_type),
                    authors: authors.clone(),
                    rating: trimmed_string(rating),
                    size: chars_to_string(&size_done),
                    download_url: chars_to_string(&url),
                    downloads: downloads.clone(),
                };
                assert(row_ok(model_of(rows@[i as int])));
                assert(record_matches(rec, model_of(rows@[i as int])));
                out.push(rec);
            },
            _ => {
                assert(!row_ok(model_of(rows@[i as int])));
                return Err(SearchError::Parse { row: i });
            },
        }
        i = i + 1;
    }
    Ok(out)
}

/// Bytes that travel unescaped in a query value.
pub open spec fn is_unreserved_byte(b: u8) -> bool {
    (0x41 <= b <= 0x5a) || (0x61 <= b <= 0x7a) || (0x30 <= b <= 0x39) || b == 0x2d || b == 0x2e
        || b == 0x5f || b == 0x7e
}

/// The upper-case hex digit for a nibble.
pub open spec fn hex_char(n: u8) -> char
    recommends
        n < 16,
{
    if n < 10 {
        ((0x30 + n) as u8) as char
    } else {
        ((0x37 + n) as u8) as char
    }
}

/// UTF-8 bytes percent-encoded for use in a query value.
pub open spec fn percent_encode(bs: Seq<u8>) -> Seq<char>
    decreases bs.len(),
{
    if bs.len() == 0 {
        Seq::<char>::empty()
    } else {
        (if is_unreserved_byte(bs[0]) {
            seq![bs[0] as char]
        } else {
            seq!['%', hex_char(bs[0] / 16), hex_char(bs[0] % 16)]
        }) + percent_encode(bs.drop_first())
    }
}

fn hex_char_of(n: u8) -> (r: char)
    requires
        n < 16,
    ensures
        r == hex_char(n),
{
    if n < 10 {
        (0x30 + n) as char
    } else {
        (0x37 + n) as char
    }
}

/// The fixed catalog-search endpoint, up to and including the name filter
/// parameter that the escaped term is appended to.
pub open spec fn search_endpoint() -> Seq<char> {
    "https://www.smwcentral.net/?p=section&s=smwhacks&f%5Bname%5D="@
}

/// The full catalog request URL for a search term: the fixed endpoint with
/// the term percent-encoded into the name filter.
pub fn search_url(term: &str) -> (r: String)
    ensures
        r@ == search_endpoint() + percent_encode(term.spec_bytes()),
{
    let mut out = str_to_chars("https://www.smwcentral.net/?p=section&s=smwhacks&f%5Bname%5D=");
    let bs: Vec<u8> = vstd::slice::slice_to_vec(term.as_bytes());
    let n = bs.len();
    let mut i: usize = 0;
    proof {
        assert(bs@.skip(0) =~= bs@);
    }
    while i < n
        invariant
            0 <= i <= n,
            n == bs@.len(),
            search_endpoint() + percent_encode(bs@) == out@ + percent_encode(bs@.skip(i as int)),
        decreases n - i,
    {
        let b = bs[i];
        proof {
            let t = bs@.skip(i as int);
            assert(t[0] == bs@[i as int]);
            assert(t.drop_first() =~= bs@.skip(i + 1));
        }
        if (0x41 <= b && b <= 0x5a) || (0x61 <= b && b <= 0x7a) || (0x30 <= b && b <= 0x39) || b
            == 0x2d || b == 0x2e || b == 0x5f || b == 0x7e {
            proof {
                assert(out@ + (seq![bs@[i as int] as char] + percent_encode(bs@.skip(i + 1)))
                    =~= out@.push(b as char) + percent_encode(bs@.skip(i + 1)));
            }
            out.push(b as char);
        } else {
            let hi = hex_char_of(b / 16);
            let lo = hex_char_of(b % 16);
            proof {
                assert(out@ + (seq!['%', hex_char(b / 16), hex_char(b % 16)] + percent_encode(
                    bs@.skip(i + 1),
                )) =~= out@.push('%').push(hex_char(b / 16)).push(hex_char(b % 16))
                    + percent_encode(bs@.skip(i + 1)));
            }
            out.push('%');
            out.push(hi);
            out.push(lo);
        }
        i = i + 1;
    }
    proof {
        assert(bs@.skip(n as int) =~= Seq::<u8>::empty());
        assert(out@ + percent_encode(Seq::<u8>::empty()) =~= out@);
    }
    chars_to_string(&out)
}

} // verus!
