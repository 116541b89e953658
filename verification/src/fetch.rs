//! Deriving the local filename for a downloaded archive from the final
//! resolved URL: the last segment of the URL's path, or a fixed default
//! when the path has no usable segment.

use vstd::prelude::*;
use crate::catalog::{https_scheme, http_scheme, https_scheme_vec, http_scheme_vec};
use crate::text::{
    find_char, rfind_char, find_char_at, rfind_char_at, has_prefix, starts_with_chars,
    str_to_chars, chars_to_string, subvec,
};

verus! {

/// The fallback filename when the URL carries no usable path segment.
pub open spec fn default_archive_name() -> Seq<char> {
    "patch.zip"@
}

/// Length of the scheme prefix, so that slashes inside it are not taken for
/// path separators.
pub open spec fn scheme_len(u: Seq<char>) -> int {
    if has_prefix(u, https_scheme()) {
        8
    } else if has_prefix(u, http_scheme()) {
        7
    } else {
        0
    }
}

/// The filename derived from a URL: everything after the scheme is cut at
/// the first `?` or `#`; if what remains has no `/`, or its last segment is
/// empty, the default name is used, otherwise that last segment.
pub open spec fn derived_filename(u: Seq<char>) -> Seq<char> {
    let body = u.skip(scheme_len(u));
    let q = find_char(body, '?');
    let h = find_char(body, '#');
    let stop = if q < h {
        q
    } else {
        h
    };
    let hp = body.take(stop);
    if find_char(hp, '/') == hp.len() {
        default_archive_name()
    } else {
        let seg = hp.skip(rfind_char(hp, '/') + 1);
        if seg.len() == 0 {
            default_archive_name()
        } else {
            seg
        }
    }
}

/// Derives the local filename for a resolved URL, as `derived_filename`
/// states.
pub fn derive_filename(url: &Vec<char>) -> (r: Vec<char>)
    ensures
        r@ == derived_filename(url@),
{
    let https = https_scheme_vec();
    let http = http_scheme_vec();
    let sl: usize = if starts_with_chars(url, &https) {
        8
    } else if starts_with_chars(url, &http) {
        7
    } else {
        0
    };
    let body = subvec(url, sl, url.len());
    proof {
        assert(body@ =~= url@.skip(scheme_len(url@)));
    }
    let q = find_char_at(&body, '?');
    let h = find_char_at(&body, '#');
    let stop: usize = if q < h {
        q
    } else {
        h
    };
    let hp = subvec(&body, 0, stop);
    proof {
        assert(hp@ =~= body@.take(stop as int));
    }
    let slash = find_char_at(&hp, '/');
    if slash == hp.len() {
        return str_to_chars("patch.zip");
    }
    match rfind_char_at(&hp, '/') {
        Some(last) => {
            let seg = subvec(&hp, last + 1, hp.len());
            proof {
                assert(seg@ =~= hp@.skip(rfind_char(hp@, '/') + 1));
            }
            if seg.len() == 0 {
                str_to_chars("patch.zip")
            } else {
                seg
            }
        },
        None => {
            proof {
                assert(false);
            }
            str_to_chars("patch.zip")
        },
    }
}

/// String form of `derive_filename`, for callers that hold the URL as text.
pub fn filename_for_url(url: &str) -> (r: String)
    ensures
        r@ == derived_filename(url@),
{
    let chars = str_to_chars(url);
    let name = derive_filename(&chars);
    chars_to_string(&name)
}

} // verus!
