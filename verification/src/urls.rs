use vstd::prelude::*;

verus! {

/// The serialization of a URL value, as `url::Url::as_str` returns it.
pub uninterp spec fn url_str(u: url::Url) -> Seq<char>;

/// What `url::Url::parse` makes of a string: the parsed URL's serialization,
/// or `None` where the string is not a parseable URL.
pub uninterp spec fn url_normalize(s: Seq<char>) -> Option<Seq<char>>;

/// The URL obtained by appending one form-urlencoded `key=value` query pair
/// to a URL.
pub uninterp spec fn url_with_pair(u: Seq<char>, key: Seq<char>, value: Seq<char>) -> Seq<char>;

/// The URL obtained by pushing one percent-encoded path segment onto a URL
/// (an empty final segment is dropped first).
pub uninterp spec fn url_with_segment(u: Seq<char>, segment: Seq<char>) -> Seq<char>;

/// Whether a URL can serve as a base: pushing a path segment works exactly on
/// such URLs.
pub uninterp spec fn url_is_base(u: Seq<char>) -> bool;

#[verifier::external_type_specification]
#[verifier::external_body]
pub struct ExUrl(url::Url);

#[verifier::external_type_specification]
#[verifier::external_body]
pub struct ExParseError(url::ParseError);

/// Relies on `url::Url::parse`: parses and normalizes a URL string.
#[verifier::external_body]
pub(crate) fn parse_url(s: &str) -> (r: Result<url::Url, url::ParseError>)
    ensures
        (match r {
            Ok(u) => url_normalize(s@) == Some(url_str(u)),
            Err(_) => url_normalize(s@) is None,
        }),
{
    url::Url::parse(s)
}

/// Relies on `url::Url::clone`: the copy serializes as the original does.
#[verifier::external_body]
pub(crate) fn clone_url(u: &url::Url) -> (r: url::Url)
    ensures
        url_str(r) == url_str(*u),
{
    u.clone()
}

/// Relies on `url::Url::cannot_be_a_base`.
#[verifier::external_body]
pub(crate) fn check_base_url(u: &url::Url) -> (r: bool)
    ensures
        r == url_is_base(url_str(*u)),
{
    !u.cannot_be_a_base()
}

/// Relies on `form_urlencoded::Serializer::append_pair`, reached through
/// `url::Url::query_pairs_mut`: appends one encoded `key=value` query pair.
#[verifier::external_body]
pub(crate) fn append_query_pair(u: &mut url::Url, key: &str, value: &str)
    ensures
        url_str(*final(u)) == url_with_pair(url_str(*old(u)), key@, value@),
{
    u.query_pairs_mut().append_pair(key, value);
}

/// Relies on `url::PathSegmentsMut::push` after `pop_if_empty`, reached
/// through `url::Url::path_segments_mut`: appends one encoded path segment.
/// It fails, changing nothing, exactly on URLs that cannot be a base.
#[verifier::external_body]
pub(crate) fn push_path_segment(u: &mut url::Url, segment: &str) -> (r: bool)
    ensures
        r == url_is_base(url_str(*old(u))),
        r ==> url_str(*final(u)) == url_with_segment(url_str(*old(u)), segment@),
        !r ==> url_str(*final(u)) == url_str(*old(u)),
{
    match u.path_segments_mut() {
        Ok(mut segments) => {
            segments.pop_if_empty().push(segment);
            true
        }
        Err(()) => false,
    }
}

/// Relies on `url::Url::as_str`: the URL's serialization.
#[verifier::external_body]
pub(crate) fn url_to_string(u: &url::Url) -> (r: String)
    ensures
        r@ == url_str(*u),
{
    u.as_str().to_string()
}

} // verus!
