//! URLs and HTTP headers as the crates `url` and `http` hold them (both
//! reached through `reqwest`), with the names that the contracts of this
//! crate use for what those crates compute.
//!
//! Nothing in this file is proved: each item states what the outside code
//! does, and the rest of the crate is verified against these statements.

use reqwest::header::{HeaderMap, HeaderValue};
use reqwest::Url;
use vstd::prelude::*;
use vstd::utf8::encode_utf8;

verus! {

/// `reqwest::Url`, which is `url::Url`: carried as it is, never looked into.
#[verifier::external_type_specification]
#[verifier::external_body]
pub struct ExUrl(reqwest::Url);

/// `reqwest::header::HeaderMap`, which is `http::HeaderMap`: carried as it
/// is, never looked into.
#[verifier::external_type_specification]
#[verifier::external_body]
#[verifier::reject_recursive_types(T)]
pub struct ExHeaderMap<T>(reqwest::header::HeaderMap<T>);

/// `reqwest::header::HeaderValue`, which is `http::HeaderValue`: carried as
/// it is, never looked into.
#[verifier::external_type_specification]
#[verifier::external_body]
pub struct ExHeaderValue(reqwest::header::HeaderValue);

/// Number of bytes that a text takes in UTF-8.
pub open spec fn utf8_len(text: Seq<char>) -> nat {
    encode_utf8(text).len()
}

/// The text of a URL: what `Url::as_str` returns for it. A URL holds more
/// than its text, the places where its parts begin, and two URLs of one
/// text can differ in them; so what a URL's parts are is said of the URL,
/// not of its text.
pub uninterp spec fn url_text(u: Url) -> Seq<char>;

/// The URL that `Url::parse` reads from `input`, where it reads one.
pub uninterp spec fn url_parsed(input: Seq<char>) -> Option<Url>;

/// What follows the first colon of a text: in the text of a URL, what
/// follows the scheme. Nothing where the text holds no colon.
pub open spec fn after_first_colon(text: Seq<char>) -> Seq<char>
    decreases text.len(),
{
    if text.len() == 0 {
        text
    } else if text[0] == ':' {
        text.drop_first()
    } else {
        after_first_colon(text.drop_first())
    }
}

/// Whether the URL of this text can serve as a base: a slash follows its
/// scheme and the colon.
pub open spec fn url_is_base(text: Seq<char>) -> bool {
    after_first_colon(text).len() > 0 && after_first_colon(text)[0] == '/'
}

/// The path of a URL: what `Url::path` returns for it.
pub uninterp spec fn url_path(u: Url) -> Seq<char>;

/// The URL that a URL without a path is after `Url::set_path` with the
/// single slash.
pub uninterp spec fn url_with_root(u: Url) -> Url;

/// Whether the URL of this text can take the single slash as its path
/// within 32-bit positions: the slash is written with at most three bytes.
pub open spec fn root_fits(text: Seq<char>) -> bool {
    utf8_len(text) + 3 <= u32::MAX
}

/// Whether the URL of this text can take one more query pair within 32-bit
/// positions: the pair is written with at most three bytes for each of its
/// own, a separator before it and an equals sign inside.
pub open spec fn pair_fits(text: Seq<char>, name: Seq<char>, value: Seq<char>) -> bool {
    utf8_len(text) + 3 * (utf8_len(name) + utf8_len(value)) + 2 <= u32::MAX
}

/// The URL that `Url::join` resolves `reference` to against the URL `base`,
/// where it resolves.
pub uninterp spec fn url_joined(base: Url, reference: Seq<char>) -> Option<Url>;

/// The URL that a URL is after the pair of `name` and `value` was appended
/// to its query.
pub uninterp spec fn url_with_pair(u: Url, name: Seq<char>, value: Seq<char>) -> Url;

/// `Url::parse`, without the reason of a failure: the URL read from `input`,
/// which depends on `input` alone.
#[verifier::external_body]
pub(crate) fn parse_url(input: &str) -> (r: Option<Url>)
    ensures
        r == url_parsed(input@),
{
    Url::parse(input).ok()
}

/// `Url::as_str`: the text of the URL.
pub assume_specification<'a>[ Url::as_str ](u: &'a Url) -> (r: &'a str)
    ensures
        r@ == url_text(*u),
;

/// `Url::cannot_be_a_base`: whether what follows the scheme and the colon
/// does not start with a slash.
pub assume_specification[ Url::cannot_be_a_base ](u: &Url) -> (r: bool)
    ensures
        r == !url_is_base(url_text(*u)),
;

/// `Url::path`: the path of the URL.
pub assume_specification<'a>[ Url::path ](u: &'a Url) -> (r: &'a str)
    ensures
        r@ == url_path(*u),
;

/// `Url::set_path`, for the single slash on a URL without a path: the URL
/// gets the root as its path, and so has one. Which URL comes out depends
/// on the URL alone. Other paths are left out: the function writes a path
/// of two leading slashes as it is, and the parser would not. Left out too
/// are texts so long that a position within them would not fit 32 bits, on
/// which the function panics.
pub assume_specification[ Url::set_path ](u: &mut Url, path: &str)
    requires
        path@ == "/"@,
        url_path(*old(u)).len() == 0,
        root_fits(url_text(*old(u))),
    ensures
        *final(u) == url_with_root(*old(u)),
        url_path(*final(u)).len() > 0,
;

/// `Url::join`, without the reason of a failure: `reference` resolved
/// against the URL `base`, which depends on the two alone.
#[verifier::external_body]
pub(crate) fn join_url(base: &Url, reference: &str) -> (r: Option<Url>)
    ensures
        r == url_joined(*base, reference@),
{
    base.join(reference).ok()
}

/// `Url::query_pairs_mut` and `append_pair` on what it returns: the pair is
/// appended to the query of the URL, both parts form-encoded. Positions
/// within the text are kept as 32-bit numbers here too, and the call panics
/// where one does not fit.
#[verifier::external_body]
pub(crate) fn append_query_pair(u: &mut Url, name: &str, value: &str)
    requires
        pair_fits(url_text(*old(u)), name@, value@),
    ensures
        *final(u) == url_with_pair(*old(u), name@, value@),
{
    u.query_pairs_mut().append_pair(name, value);
}

/// A character that this crate writes header names in: a small ASCII
/// letter or a hyphen.
pub open spec fn header_name_char(c: char) -> bool {
    ('a' <= c && c <= 'z') || c == '-'
}

/// Whether a text is a header name as this crate writes them: up to 64
/// small letters and hyphens, and at least one.
pub open spec fn header_name(text: Seq<char>) -> bool {
    &&& 1 <= text.len() <= 64
    &&& forall|i: int| 0 <= i < text.len() ==> header_name_char(#[trigger] text[i])
}

/// A character that may stand in a header's value: a tab, or any character
/// from the space on but the delete character.
pub open spec fn header_char(c: char) -> bool {
    c == '\t' || (' ' <= c && c != '\u{7f}')
}

/// Whether a text can be the value of a header.
pub open spec fn header_text(text: Seq<char>) -> bool {
    forall|i: int| 0 <= i < text.len() ==> header_char(#[trigger] text[i])
}

/// The bytes that a header value holds.
pub uninterp spec fn header_bytes(v: HeaderValue) -> Seq<u8>;

/// What a header map holds: for each header name the values under it, in
/// their order.
pub uninterp spec fn header_fields(m: HeaderMap<HeaderValue>) -> Map<Seq<char>, Seq<Seq<u8>>>;

/// The most names of a header map to which `insert_header` adds another.
/// `HeaderMap` panics where it would have to grow beyond 32768 slots; a map
/// of this many names never has to.
pub const MAX_HEADER_NAMES: usize = 1024;

/// `HeaderValue::from_str`, without the reason of a failure: a value of the
/// bytes of `text`, unless `text` holds a control character other than a
/// tab.
#[verifier::external_body]
pub(crate) fn header_value(text: &str) -> (r: Option<HeaderValue>)
    ensures
        match r {
            Some(v) => header_text(text@) && header_bytes(v) == encode_utf8(text@),
            None => !header_text(text@),
        },
{
    HeaderValue::from_str(text).ok()
}

/// The header map without headers.
pub open spec fn no_headers() -> Map<Seq<char>, Seq<Seq<u8>>> {
    Map::empty()
}

/// `HeaderMap::new`: a map without headers.
pub assume_specification[ HeaderMap::<HeaderValue>::new ]() -> (r: HeaderMap<HeaderValue>)
    ensures
        header_fields(r) == no_headers(),
;

/// `HeaderMap::insert` with a string as the name: the value becomes the
/// only one under that name. The function panics on a string that is no
/// header name, and a name in small letters and hyphens is one that is kept
/// as it is written.
#[verifier::external_body]
pub(crate) fn insert_header(m: &mut HeaderMap<HeaderValue>, name: &'static str, value: HeaderValue)
    requires
        header_name(name@),
        header_fields(*old(m)).dom().finite(),
        header_fields(*old(m)).dom().len() < MAX_HEADER_NAMES,
    ensures
        header_fields(*final(m)) == header_fields(*old(m)).insert(name@, seq![header_bytes(value)]),
{
    m.insert(name, value);
}

} // verus!
