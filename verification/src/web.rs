//! URLs, percent-encoding and Base64, computed by the `url`,
//! `percent-encoding` and `base64` crates.
use vstd::prelude::*;
use base64::Engine;
use vstd::utf8::*;

verus! {

/// The serialisation of the URL that `Url::parse` makes of `s`, or `None`
/// when `s` is no valid absolute URL.
pub uninterp spec fn parsed_url(s: Seq<char>) -> Option<Seq<char>>;

/// The decoded query pairs (`Url::query_pairs`) of the URL that `Url::parse`
/// makes of `s`, or `None` when `s` is no valid URL.
pub uninterp spec fn url_query(s: Seq<char>) -> Option<Seq<(Seq<char>, Seq<char>)>>;

/// The serialisation of the URL parsed from `s` after `Url::set_query` put
/// `query` in its query, or `None` when `s` is no valid URL.
pub uninterp spec fn url_with_query(s: Seq<char>, query: Seq<char>) -> Option<Seq<char>>;

/// The serialisation of the URL parsed from `s` after
/// `path_segments_mut().extend(segments)`, or `None` when `s` is no valid URL.
pub uninterp spec fn url_with_segments(s: Seq<char>, segments: Seq<Seq<char>>) -> Option<Seq<char>>;

/// The serialisation of the URL parsed from `s` after `Url::set_path(path)`,
/// or `None` when `s` is no valid URL.
pub uninterp spec fn url_with_path(s: Seq<char>, path: Seq<char>) -> Option<Seq<char>>;

/// The serialisation of the URL parsed from `s` after
/// `query_pairs_mut().append_pair(key, value)`, or `None` when `s` is no
/// valid URL.
pub uninterp spec fn url_with_pair(s: Seq<char>, key: Seq<char>, value: Seq<char>) -> Option<Seq<char>>;

/// What the standard Base64 engine (`general_purpose::STANDARD`) decodes from
/// the bytes, or `None` when they are no valid padded Base64.
pub uninterp spec fn base64_decoded(bytes: Seq<u8>) -> Option<Seq<u8>>;

/// The texts of a list of string pairs.
pub open spec fn pair_texts(v: Seq<(String, String)>) -> Seq<(Seq<char>, Seq<char>)> {
    v.map_values(|p: (String, String)| (p.0@, p.1@))
}

/// The texts of a list of strings.
pub open spec fn str_texts(v: Seq<&str>) -> Seq<Seq<char>> {
    v.map_values(|p: &str| p@)
}

/// Parses `s` as an absolute URL (`Url::parse`) and returns its
/// serialisation. The contract names the result.
#[verifier::external_body]
pub(crate) fn parse_url(s: &str) -> (r: Option<String>)
    ensures
        r matches Some(u) ==> parsed_url(s@) == Some(u@),
        r is None ==> parsed_url(s@) is None,
{
    url::Url::parse(s).ok().map(|u| u.as_str().to_owned())
}

/// The decoded query pairs of the URL `s` (`Url::parse`, `Url::query_pairs`).
/// The contract names the result.
#[verifier::external_body]
pub(crate) fn query_pairs(s: &str) -> (r: Option<Vec<(String, String)>>)
    ensures
        r matches Some(v) ==> url_query(s@) == Some(pair_texts(v@)),
        r is None ==> url_query(s@) is None,
{
    url::Url::parse(s).ok().map(
        |u| u.query_pairs().map(|(k, v)| (k.into_owned(), v.into_owned())).collect(),
    )
}

/// The URL `s` with its query set to `query` (`Url::set_query`). The contract
/// names the result.
#[verifier::external_body]
pub(crate) fn set_query(s: &str, query: &str) -> (r: Option<String>)
    ensures
        r matches Some(u) ==> url_with_query(s@, query@) == Some(u@),
        r is None ==> url_with_query(s@, query@) is None,
{
    url::Url::parse(s).ok().map(
        |mut u| {
            u.set_query(Some(query));
            u.as_str().to_owned()
        },
    )
}

/// The URL `s` with `segments` appended to its path
/// (`Url::path_segments_mut`, `PathSegmentsMut::extend`); a URL that cannot be
/// a base stays as it is. The contract names the result.
#[verifier::external_body]
pub(crate) fn extend_path(s: &str, segments: &Vec<&str>) -> (r: Option<String>)
    ensures
        r matches Some(u) ==> url_with_segments(s@, str_texts(segments@)) == Some(u@),
        r is None ==> url_with_segments(s@, str_texts(segments@)) is None,
{
    url::Url::parse(s).ok().map(
        |mut u| {
            if let Ok(mut path) = u.path_segments_mut() {
                path.extend(segments.iter());
            }
            u.as_str().to_owned()
        },
    )
}

/// The URL `s` with its path set to `path` (`Url::set_path`). The contract
/// names the result.
#[verifier::external_body]
pub(crate) fn set_path(s: &str, path: &str) -> (r: Option<String>)
    ensures
        r matches Some(u) ==> url_with_path(s@, path@) == Some(u@),
        r is None ==> url_with_path(s@, path@) is None,
{
    url::Url::parse(s).ok().map(
        |mut u| {
            u.set_path(path);
            u.as_str().to_owned()
        },
    )
}

/// The URL `s` with the pair `key=value` appended to its query
/// (`Url::query_pairs_mut`, `Serializer::append_pair`). The contract names the
/// result.
#[verifier::external_body]
pub(crate) fn append_pair(s: &str, key: &str, value: &str) -> (r: Option<String>)
    ensures
        r matches Some(u) ==> url_with_pair(s@, key@, value@) == Some(u@),
        r is None ==> url_with_pair(s@, key@, value@) is None,
{
    url::Url::parse(s).ok().map(
        |mut u| {
            u.query_pairs_mut().append_pair(key, value);
            u.as_str().to_owned()
        },
    )
}

/// Decodes standard, padded Base64 (`engine::general_purpose::STANDARD`).
/// The contract names the result.
#[verifier::external_body]
pub(crate) fn decode_base64(bytes: &[u8]) -> (r: Option<Vec<u8>>)
    ensures
        r matches Some(v) ==> base64_decoded(bytes@) == Some(v@),
        r is None ==> base64_decoded(bytes@) is None,
{
    base64::engine::general_purpose::STANDARD.decode(bytes).ok()
}

/// The string that the bytes encode in UTF-8 (`String::from_utf8`), or `None`
/// when they are not valid UTF-8.
#[verifier::external_body]
pub(crate) fn utf8_to_string(bytes: Vec<u8>) -> (r: Option<String>)
    ensures
        r is Some <==> valid_utf8(bytes@),
        r matches Some(s) ==> s@ == decode_utf8(bytes@),
{
    String::from_utf8(bytes).ok()
}

/// The percent-encoding of bytes with the `NON_ALPHANUMERIC` set: ASCII
/// letters and digits stay, every other byte becomes `%` and two upper-case
/// hexadecimal digits.
pub open spec fn percent_encoded(bytes: Seq<u8>) -> Seq<char>
    decreases bytes.len(),
{
    if bytes.len() == 0 {
        Seq::empty()
    } else {
        percent_encoded(bytes.drop_last()) + percent_encoded_byte(bytes.last())
    }
}

/// One byte, percent-encoded with the `NON_ALPHANUMERIC` set.
pub open spec fn percent_encoded_byte(b: u8) -> Seq<char> {
    if (48 <= b <= 57) || (65 <= b <= 90) || (97 <= b <= 122) {
        seq![b as char]
    } else {
        seq!['%', hex_upper(b / 16), hex_upper(b % 16)]
    }
}

/// An upper-case hexadecimal digit.
pub open spec fn hex_upper(d: u8) -> char {
    if d < 10 {
        (48 + d) as char
    } else {
        (55 + d) as char
    }
}

/// Percent-encodes the UTF-8 bytes of `s`, keeping only ASCII letters and
/// digits (`utf8_percent_encode` with `NON_ALPHANUMERIC`). The contract states
/// the encoding that the crate documents.
#[verifier::external_body]
pub(crate) fn percent_encode_non_alphanumeric(s: &str) -> (r: String)
    ensures
        r@ == percent_encoded(encode_utf8(s@)),
{
    percent_encoding::utf8_percent_encode(s, percent_encoding::NON_ALPHANUMERIC).to_string()
}

} // verus!
