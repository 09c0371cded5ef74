//! Composition of the request address from a base, a path segment and a
//! query, by the `url` crate.
//!
//! What the `url` crate computes is not restated here. Each of its results is
//! given a name, and the contracts of this module say how the names chain.

use vstd::prelude::*;
use vstd::utf8::encode_utf8;

verus! {

/// `url::Url`, a parsed URL, carried through as an opaque value.
#[verifier::external_type_specification]
#[verifier::external_body]
pub struct ExUrl(url::Url);

/// `url::ParseError`, the reason for which a text was refused as a URL,
/// carried through as an opaque value.
#[verifier::external_type_specification]
#[verifier::external_body]
pub struct ExUrlParseError(url::ParseError);

/// The serialization of a parsed URL: what `url::Url::as_str` returns.
pub uninterp spec fn url_text(url: url::Url) -> Seq<char>;

/// The serialization of the URL that `url::Url::parse` makes of `input`,
/// or `None` where it refuses `input`.
pub uninterp spec fn parsed_url(input: Seq<char>) -> Option<Seq<char>>;

/// The serialization of the URL `text` after `segment` was appended to its
/// path by `url::PathSegmentsMut::push`, or `None` where the URL has no
/// hierarchical path (`url::Url::path_segments_mut` refuses it).
pub uninterp spec fn url_with_segment(text: Seq<char>, segment: Seq<char>) -> Option<Seq<char>>;

/// The serialization of the URL `text` after `url::Url::set_query` replaced
/// its query by `query`.
pub uninterp spec fn url_with_query(text: Seq<char>, query: Seq<char>) -> Seq<char>;

/// Whether `addition` can be written into the URL `text` within the 32-bit
/// offsets that the `url` crate keeps: every byte of the addition may become
/// a three-byte escape, and at most two separators are written with it.
pub open spec fn room_for(text: Seq<char>, addition: Seq<char>) -> bool {
    encode_utf8(text).len() + 3 * encode_utf8(addition).len() + 2 <= u32::MAX
}

/// The address composed of `base`, one more path segment and a query, or
/// `None` where any step of the composition is refused.
pub open spec fn composed_url(base: Seq<char>, segment: Seq<char>, query: Seq<char>) -> Option<
    Seq<char>,
> {
    match parsed_url(base) {
        None => None,
        Some(root) => if !room_for(root, segment) {
            None
        } else {
            match url_with_segment(root, segment) {
                None => None,
                Some(path) => if !room_for(path, query) {
                    None
                } else {
                    Some(url_with_query(path, query))
                },
            }
        },
    }
}

/// Calls `url::Url::parse`. Trusted: the outcome is the named result
/// `parsed_url` of the input, and the URL handed back serializes to it.
#[verifier::external_body]
fn parse_url(input: &str) -> (res: Result<url::Url, url::ParseError>)
    ensures
        match res {
            Ok(url) => parsed_url(input@) == Some(url_text(url)),
            Err(_) => parsed_url(input@) is None,
        },
{
    url::Url::parse(input)
}

/// Calls `url::Url::path_segments_mut` and, where that grants access,
/// `url::PathSegmentsMut::push`. Trusted: the URL's new serialization is the
/// named result `url_with_segment`; where access is refused the URL is as it
/// was. The precondition keeps the serialization within the 32-bit offsets
/// on which the crate would otherwise panic.
#[verifier::external_body]
fn push_segment(url: &mut url::Url, segment: &str) -> (res: Result<(), ()>)
    requires
        room_for(url_text(*old(url)), segment@),
    ensures
        match res {
            Ok(_) => url_with_segment(url_text(*old(url)), segment@) == Some(
                url_text(*final(url)),
            ),
            Err(_) => url_with_segment(url_text(*old(url)), segment@) is None && url_text(
                *final(url),
            ) == url_text(*old(url)),
        },
{
    match url.path_segments_mut() {
        Ok(mut segments) => {
            segments.push(segment);
            Ok(())
        },
        Err(()) => Err(()),
    }
}

/// Calls `url::Url::set_query` with a query that is present. Trusted: the
/// URL's new serialization is the named result `url_with_query`. The
/// precondition keeps the serialization within the 32-bit offsets on which
/// the crate would otherwise panic.
#[verifier::external_body]
fn replace_query(url: &mut url::Url, query: &str)
    requires
        room_for(url_text(*old(url)), query@),
    ensures
        url_text(*final(url)) == url_with_query(url_text(*old(url)), query@),
{
    url.set_query(Some(query))
}

/// Calls `url::Url::as_str` and copies what it returns. Trusted: the text is
/// the URL's serialization.
#[verifier::external_body]
fn url_string(url: &url::Url) -> (text: String)
    ensures
        text@ == url_text(*url),
{
    url.as_str().to_owned()
}

/// Whether `addition` has room in `text`, by their lengths in bytes.
fn has_room(text: &str, addition: &str) -> (fits: bool)
    ensures
        fits == room_for(text@, addition@),
{
    let text_len: usize = text.as_bytes().len();
    let addition_len: usize = addition.as_bytes().len();
    text_len <= 0xFFFF_FFFF && addition_len <= 0x5555_5555 && text_len as u64 + 3 * (
    addition_len as u64) + 2 <= 0xFFFF_FFFF
}

/// Composes an address: parses `base`, appends `segment` to its path and
/// sets `query` as its query. Returns `None` exactly where the base does not
/// parse, where it has no hierarchical path, or where the result would outgrow
/// what a URL can hold.
pub fn compose_url(base: &str, segment: &str, query: &str) -> (address: Option<String>)
    ensures
        match address {
            Some(text) => composed_url(base@, segment@, query@) == Some(text@),
            None => composed_url(base@, segment@, query@) is None,
        },
{
    let mut url = match parse_url(base) {
        Ok(url) => url,
        Err(_) => {
            return None;
        },
    };
    let root = url_string(&url);
    if !has_room(root.as_str(), segment) {
        return None;
    }
    if push_segment(&mut url, segment).is_err() {
        return None;
    }
    let path = url_string(&url);
    if !has_room(path.as_str(), query) {
        return None;
    }
    replace_query(&mut url, query);
    Some(url_string(&url))
}

} // verus!
