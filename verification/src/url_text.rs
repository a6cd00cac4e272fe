//! URLs as text. A URL is held in its serialized form; parsing it and
//! changing its parts is left to the `url` crate, one call at a time.

use vstd::prelude::*;
use vstd::string::*;
use vstd::utf8::encode_utf8;

verus! {

/// The longest text, in bytes, that is handed to the URL parser.
pub const URL_TEXT_LIMIT: usize = 0x1000_0000;

#[verifier::external_type_specification]
#[verifier::external_body]
pub struct ExUrlParseError(url::ParseError);

/// The serialization of the URL that `Url::parse` makes of `input`, or
/// `None` where `input` is no absolute URL.
pub uninterp spec fn url_parsed(input: Seq<char>) -> Option<Seq<char>>;

/// The scheme of the URL `url`, as `Url::scheme` gives it.
pub uninterp spec fn url_scheme(url: Seq<char>) -> Option<Seq<char>>;

/// The path segments of the URL `url`, as `Url::path_segments` gives them;
/// the inner `None` stands for a URL without segments.
pub uninterp spec fn url_path_segments(url: Seq<char>) -> Option<Option<Seq<Seq<char>>>>;

/// The fragment of the URL `url`, as `Url::fragment` gives it; the inner
/// `None` stands for a URL without fragment.
pub uninterp spec fn url_fragment(url: Seq<char>) -> Option<Option<Seq<char>>>;

/// The URL `url` after `Url::set_scheme`, or `None` where the scheme
/// cannot be set.
pub uninterp spec fn url_with_scheme(url: Seq<char>, scheme: Seq<char>) -> Option<Seq<char>>;

/// The URL `url` after `Url::set_path`.
pub uninterp spec fn url_with_path(url: Seq<char>, path: Seq<char>) -> Option<Seq<char>>;

/// The URL `url` after `Url::set_query`.
pub uninterp spec fn url_with_query(url: Seq<char>, query: Option<Seq<char>>) -> Option<
    Seq<char>,
>;

/// The URL `url` after `Url::set_fragment`.
pub uninterp spec fn url_with_fragment(url: Seq<char>, fragment: Option<Seq<char>>) -> Option<
    Seq<char>,
>;

/// The view of a text that may be missing.
pub open spec fn text_of(text: Option<String>) -> Option<Seq<char>> {
    match text {
        Some(t) => Some(t@),
        None => None,
    }
}

/// The view of a borrowed text that may be missing.
pub open spec fn str_of(text: Option<&str>) -> Option<Seq<char>> {
    match text {
        Some(t) => Some(t@),
        None => None,
    }
}

/// The views of `texts`, in order.
pub open spec fn texts_of(texts: Seq<String>) -> Seq<Seq<char>> {
    Seq::new(texts.len(), |i: int| texts[i]@)
}

/// Calls `Url::parse` of `url` and serializes the result.
///
/// Trusted: the serialization is a function of the input.
#[verifier::external_body]
fn parse_call(input: &str) -> (result: Result<String, url::ParseError>)
    requires
        input.len() <= URL_TEXT_LIMIT,
    ensures
        match result {
            Ok(url) => url_parsed(input@) == Some(url@),
            Err(_) => url_parsed(input@) is None,
        },
{
    url::Url::parse(input).map(|url| url.to_string())
}

/// Calls `Url::scheme` of `url` on the URL with the serialization `url`.
///
/// Trusted: the scheme is a function of the serialization.
#[verifier::external_body]
fn scheme_call(url: &str) -> (scheme: Option<String>)
    requires
        url.len() <= URL_TEXT_LIMIT,
    ensures
        text_of(scheme) == url_scheme(url@),
{
    url::Url::parse(url).ok().map(|parsed| parsed.scheme().to_string())
}

/// Calls `Url::path_segments` of `url` on the URL with the serialization
/// `url`.
///
/// Trusted: the segments are a function of the serialization.
#[verifier::external_body]
fn path_segments_call(url: &str) -> (segments: Option<Option<Vec<String>>>)
    requires
        url.len() <= URL_TEXT_LIMIT,
    ensures
        url_path_segments(url@) == match segments {
            Some(Some(list)) => Some(Some(texts_of(list@))),
            Some(None) => Some(None),
            None => None,
        },
{
    url::Url::parse(url).ok().map(
        |parsed| parsed.path_segments().map(|split| split.map(|s| s.to_string()).collect()),
    )
}

/// Calls `Url::fragment` of `url` on the URL with the serialization `url`.
///
/// Trusted: the fragment is a function of the serialization.
#[verifier::external_body]
fn fragment_call(url: &str) -> (fragment: Option<Option<String>>)
    requires
        url.len() <= URL_TEXT_LIMIT,
    ensures
        url_fragment(url@) == match fragment {
            Some(inner) => Some(text_of(inner)),
            None => None,
        },
{
    url::Url::parse(url).ok().map(|parsed| parsed.fragment().map(|f| f.to_string()))
}

/// Calls `Url::set_scheme` of `url` on the URL with the serialization
/// `url`, and serializes the result.
///
/// Trusted: whether the scheme is taken, and the new serialization, are
/// functions of the old serialization and the scheme.
#[verifier::external_body]
fn set_scheme_call(url: &str, scheme: &str) -> (changed: Option<String>)
    requires
        url.len() <= URL_TEXT_LIMIT,
        scheme.len() <= URL_TEXT_LIMIT,
    ensures
        text_of(changed) == url_with_scheme(url@, scheme@),
{
    let mut parsed = url::Url::parse(url).ok()?;
    parsed.set_scheme(scheme).ok()?;
    Some(parsed.to_string())
}

/// Calls `Url::set_path` of `url` on the URL with the serialization `url`,
/// and serializes the result.
///
/// Trusted: the new serialization is a function of the old one and the
/// path.
#[verifier::external_body]
fn set_path_call(url: &str, path: &str) -> (changed: Option<String>)
    requires
        url.len() <= URL_TEXT_LIMIT,
        path.len() <= URL_TEXT_LIMIT,
    ensures
        text_of(changed) == url_with_path(url@, path@),
{
    let mut parsed = url::Url::parse(url).ok()?;
    parsed.set_path(path);
    Some(parsed.to_string())
}

/// Calls `Url::set_query` of `url` on the URL with the serialization `url`,
/// and serializes the result.
///
/// Trusted: the new serialization is a function of the old one and the
/// query.
#[verifier::external_body]
fn set_query_call(url: &str, query: Option<&str>) -> (changed: Option<String>)
    requires
        url.len() <= URL_TEXT_LIMIT,
        query matches Some(q) ==> q.len() <= URL_TEXT_LIMIT,
    ensures
        text_of(changed) == url_with_query(url@, str_of(query)),
{
    let mut parsed = url::Url::parse(url).ok()?;
    parsed.set_query(query);
    Some(parsed.to_string())
}

/// Calls `Url::set_fragment` of `url` on the URL with the serialization
/// `url`, and serializes the result.
///
/// Trusted: the new serialization is a function of the old one and the
/// fragment.
#[verifier::external_body]
fn set_fragment_call(url: &str, fragment: Option<&str>) -> (changed: Option<String>)
    requires
        url.len() <= URL_TEXT_LIMIT,
        fragment matches Some(f) ==> f.len() <= URL_TEXT_LIMIT,
    ensures
        text_of(changed) == url_with_fragment(url@, str_of(fragment)),
{
    let mut parsed = url::Url::parse(url).ok()?;
    parsed.set_fragment(fragment);
    Some(parsed.to_string())
}

/// Whether a text is short enough to be handed to the URL parser: its
/// length in bytes is within the limit.
pub open spec fn fits(text: Seq<char>) -> bool {
    encode_utf8(text).len() as usize <= URL_TEXT_LIMIT
}

/// Whether a text that may be missing is short enough.
pub open spec fn fits_if_any(text: Option<Seq<char>>) -> bool {
    match text {
        Some(t) => fits(t),
        None => true,
    }
}

/// The URL that `input` is, in serialized form.
pub open spec fn parse_of(input: Seq<char>) -> Option<Seq<char>> {
    if fits(input) {
        url_parsed(input)
    } else {
        None
    }
}

/// The scheme of `url`.
pub open spec fn scheme_of(url: Seq<char>) -> Option<Seq<char>> {
    if fits(url) {
        url_scheme(url)
    } else {
        None
    }
}

/// The path segments of `url`.
pub open spec fn segments_of(url: Seq<char>) -> Option<Option<Seq<Seq<char>>>> {
    if fits(url) {
        url_path_segments(url)
    } else {
        None
    }
}

/// The fragment of `url`.
pub open spec fn fragment_of(url: Seq<char>) -> Option<Option<Seq<char>>> {
    if fits(url) {
        url_fragment(url)
    } else {
        None
    }
}

/// `url` with another scheme.
pub open spec fn with_scheme_of(url: Seq<char>, scheme: Seq<char>) -> Option<Seq<char>> {
    if fits(url) && fits(scheme) {
        url_with_scheme(url, scheme)
    } else {
        None
    }
}

/// `url` with another path.
pub open spec fn with_path_of(url: Seq<char>, path: Seq<char>) -> Option<Seq<char>> {
    if fits(url) && fits(path) {
        url_with_path(url, path)
    } else {
        None
    }
}

/// `url` with another query, or none.
pub open spec fn with_query_of(url: Seq<char>, query: Option<Seq<char>>) -> Option<Seq<char>> {
    if fits(url) && fits_if_any(query) {
        url_with_query(url, query)
    } else {
        None
    }
}

/// `url` with another fragment, or none.
pub open spec fn with_fragment_of(url: Seq<char>, fragment: Option<Seq<char>>) -> Option<
    Seq<char>,
> {
    if fits(url) && fits_if_any(fragment) {
        url_with_fragment(url, fragment)
    } else {
        None
    }
}

/// Whether a text that may be missing is short enough.
fn fits_opt(text: &Option<&str>) -> (yes: bool)
    ensures
        yes == fits_if_any(str_of(*text)),
{
    match text {
        Some(t) => t.len() <= URL_TEXT_LIMIT,
        None => true,
    }
}

/// Parses `input` as an absolute URL and gives its serialization.
pub fn parse_url(input: &str) -> (url: Option<String>)
    ensures
        text_of(url) == parse_of(input@),
{
    if input.len() > URL_TEXT_LIMIT {
        return None;
    }
    match parse_call(input) {
        Ok(url) => Some(url),
        Err(_) => None,
    }
}

/// The scheme of `url`.
pub fn scheme(url: &str) -> (scheme: Option<String>)
    ensures
        text_of(scheme) == scheme_of(url@),
{
    if url.len() > URL_TEXT_LIMIT {
        return None;
    }
    scheme_call(url)
}

/// The path segments of `url`.
pub fn path_segments(url: &str) -> (segments: Option<Option<Vec<String>>>)
    ensures
        segments_of(url@) == match segments {
            Some(Some(list)) => Some(Some(texts_of(list@))),
            Some(None) => Some(None),
            None => None,
        },
{
    if url.len() > URL_TEXT_LIMIT {
        return None;
    }
    path_segments_call(url)
}

/// The fragment of `url`.
pub fn fragment(url: &str) -> (fragment: Option<Option<String>>)
    ensures
        fragment_of(url@) == match fragment {
            Some(inner) => Some(text_of(inner)),
            None => None,
        },
{
    if url.len() > URL_TEXT_LIMIT {
        return None;
    }
    fragment_call(url)
}

/// `url` with the scheme `scheme`.
pub fn with_scheme(url: &str, scheme: &str) -> (changed: Option<String>)
    ensures
        text_of(changed) == with_scheme_of(url@, scheme@),
{
    if url.len() > URL_TEXT_LIMIT || scheme.len() > URL_TEXT_LIMIT {
        return None;
    }
    set_scheme_call(url, scheme)
}

/// `url` with the path `path`.
pub fn with_path(url: &str, path: &str) -> (changed: Option<String>)
    ensures
        text_of(changed) == with_path_of(url@, path@),
{
    if url.len() > URL_TEXT_LIMIT || path.len() > URL_TEXT_LIMIT {
        return None;
    }
    set_path_call(url, path)
}

/// `url` with the query `query`, or without one.
pub fn with_query(url: &str, query: Option<&str>) -> (changed: Option<String>)
    ensures
        text_of(changed) == with_query_of(url@, str_of(query)),
{
    if url.len() > URL_TEXT_LIMIT || !fits_opt(&query) {
        return None;
    }
    set_query_call(url, query)
}

/// `url` with the fragment `fragment`, or without one.
pub fn with_fragment(url: &str, fragment: Option<&str>) -> (changed: Option<String>)
    ensures
        text_of(changed) == with_fragment_of(url@, str_of(fragment)),
{
    if url.len() > URL_TEXT_LIMIT || !fits_opt(&fragment) {
        return None;
    }
    set_fragment_call(url, fragment)
}

} // verus!
