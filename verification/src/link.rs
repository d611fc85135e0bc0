//! Reducing links to paths.

use crate::text::{
    last_of_split, last_piece, lemma_last_piece_follows_last_separator,
    lemma_replaced_without_occurrence, nth_of_split, nth_piece, occurs_at, parse_u64,
    starts_with, unsigned_number,
};
use reqwest::Url;
use vstd::prelude::*;

verus! {

/// `reqwest::Url`, a parsed absolute URL. Nothing inside it is visible here.
#[verifier::external_type_specification]
#[verifier::external_body]
pub struct ExUrl(Url);

/// What `Url::parse` makes of `text`; `None` where it reports an error.
pub uninterp spec fn parsed_url(text: Seq<char>) -> Option<Url>;

/// The path component of `url`, as `Url::path` returns it.
pub uninterp spec fn path_of(url: Url) -> Seq<char>;

/// Calls `Url::parse`, which reads an absolute URL. Its result depends on the
/// text alone.
#[verifier::external_body]
fn parse_url(text: &str) -> (url: Option<Url>)
    ensures
        url == parsed_url(text@),
{
    match Url::parse(text) {
        Ok(url) => Some(url),
        Err(_) => None,
    }
}

/// Calls `Url::path`, which returns the path component of a URL.
#[verifier::external_body]
fn url_path(url: &Url) -> (path: String)
    ensures
        path@ == path_of(*url),
{
    url.path().to_string()
}

/// How an absolute link to a plain page begins.
pub const HTTP: &'static str = "http://";

/// How an absolute link to a secured page begins.
pub const HTTPS: &'static str = "https://";

/// Whether `href` names a scheme of the web and is therefore absolute.
pub open spec fn is_absolute(href: Seq<char>) -> bool {
    HTTP@.is_prefix_of(href) || HTTPS@.is_prefix_of(href)
}

/// The path that `href` leads to: the path component of an absolute link,
/// `None` where such a link is no URL, and a relative link as it is.
pub open spec fn normalized_link(href: Seq<char>) -> Option<Seq<char>> {
    if is_absolute(href) {
        match parsed_url(href) {
            Some(url) => Some(path_of(url)),
            None => None,
        }
    } else {
        Some(href)
    }
}

/// Reduces a link to its path: an absolute link to the path component of
/// its URL, a relative link to itself.
pub fn normalize_link(href: &str) -> (path: Option<String>)
    ensures
        path.deep_view() == normalized_link(href@),
        !is_absolute(href@) ==> path.deep_view() == Some(href@),
{
    if starts_with(href, HTTP) || starts_with(href, HTTPS) {
        match parse_url(href) {
            Some(url) => Some(url_path(&url)),
            None => None,
        }
    } else {
        Some(String::from_str(href))
    }
}

/// What separates the segments of a path.
pub const SLASH: &'static str = "/";

/// The number that `text` writes, where it writes one that fits 64 bits.
pub open spec fn number_of(text: Seq<char>) -> Option<u64> {
    match unsigned_number(text, u64::MAX as nat) {
        Some(n) => Some(n as u64),
        None => None,
    }
}

/// The number that the last segment of `path` writes.
pub open spec fn trailing_number(path: Option<Seq<char>>) -> Option<u64> {
    match path {
        Some(p) => number_of(last_piece(p, SLASH@)),
        None => None,
    }
}

/// The number that the segment of `path` with index `n` writes, the text
/// before the first slash being segment 0.
pub open spec fn number_at(path: Option<Seq<char>>, n: int) -> Option<u64> {
    match path {
        Some(p) => match nth_piece(p, SLASH@, n) {
            Some(segment) => number_of(segment),
            None => None,
        },
        None => None,
    }
}

/// Reads the identifier that ends a path. A missing path, or a last segment
/// that is no number, gives `None`.
pub fn trailing_id(path: &Option<String>) -> (id: Option<u64>)
    ensures
        id == trailing_number(path.deep_view()),
{
    match path {
        Some(p) => {
            let segment = last_of_split(p.as_str(), SLASH);
            parse_u64(segment.as_str())
        },
        None => None,
    }
}

/// Reads the identifier that stands at a fixed position of a path. A missing
/// path, a path with fewer segments, or a segment that is no number, gives
/// `None`.
pub fn id_at(path: &Option<String>, n: usize) -> (id: Option<u64>)
    ensures
        id == number_at(path.deep_view(), n as int),
{
    match path {
        Some(p) => match nth_of_split(p.as_str(), SLASH, n) {
            Some(segment) => parse_u64(segment.as_str()),
            None => None,
        },
        None => None,
    }
}

/// A relative link is its own path.
pub proof fn lemma_relative_link_passes(href: Seq<char>)
    requires
        !is_absolute(href),
    ensures
        normalized_link(href) == Some(href),
{
}

/// No path gives no identifier.
pub proof fn lemma_no_path_no_identifier(n: int)
    ensures
        trailing_number(None) is None,
        number_at(None, n) is None,
{
}

/// The identifier that ends a path is the number written behind its last
/// slash, and the number that the whole path writes where it has no slash.
pub proof fn lemma_identifier_follows_last_slash(path: Seq<char>, k: int)
    requires
        0 <= k <= path.len(),
        k > 0 ==> path[k - 1] == '/',
        forall|j: int| k <= j < path.len() ==> path[j] != '/',
    ensures
        trailing_number(Some(path)) == number_of(path.subrange(k, path.len() as int)),
{
    reveal_strlit("/");
    assert(SLASH@ == seq!['/']);
    if k > 0 {
        lemma_last_piece_follows_last_separator(path, '/', k - 1);
    } else {
        assert forall|j: int| 0 <= j < path.len() implies !occurs_at(path, SLASH@, j) by {
            if occurs_at(path, SLASH@, j) {
                assert(path.subrange(j, j + 1)[0] == SLASH@[0]);
            }
        }
        lemma_replaced_without_occurrence(path, SLASH@, SLASH@);
        assert(path.subrange(0, path.len() as int) == path);
    }
}

} // verus!
