//! URLs. Parsing, joining and query strings are the work of the `url` crate, reached here
//! through `reqwest::Url`; this module states what the rest of the library relies on.

use oauth2::url::ParseError;
use reqwest::Url;
use vstd::prelude::*;
use vstd::utf8::encode_utf8;

verus! {

/// `reqwest::Url`, the parsed URL of the `url` crate. Nothing inside it is read here.
#[verifier::external_type_specification]
#[verifier::external_body]
pub struct ExUrl(reqwest::Url);

/// `oauth2::url::ParseError`, the reasons for which the `url` crate refuses a text.
#[verifier::external_type_specification]
#[verifier::external_body]
pub struct ExParseError(oauth2::url::ParseError);

/// The serialization of a parsed URL: the text that `Url::as_str` hands out. URLs compare
/// like their serializations, so this text stands for the URL.
pub uninterp spec fn url_text(url: Url) -> Seq<char>;

/// What `Url::parse` makes of `input`: the serialization of the URL it returns, or its error.
pub uninterp spec fn parsed_url(input: Seq<char>) -> Result<Seq<char>, ParseError>;

/// What `Url::join` makes of `reference`, read against the URL whose serialization is
/// `base`: the serialization of the URL it returns, or its error.
pub uninterp spec fn joined_url(base: Seq<char>, reference: Seq<char>) -> Result<
    Seq<char>,
    ParseError,
>;

/// The serialization of the URL `url` after `append_pair(key, value)` on its query.
pub uninterp spec fn url_with_pair(url: Seq<char>, key: Seq<char>, value: Seq<char>) -> Seq<
    char,
>;

/// The name/value pairs that `Url::query_pairs` yields for the URL `url`, in order.
pub uninterp spec fn url_query_pairs(url: Seq<char>) -> Seq<(Seq<char>, Seq<char>)>;

/// The pairs of texts behind a vector of pairs of strings.
pub open spec fn pairs_view(pairs: Seq<(String, String)>) -> Seq<(Seq<char>, Seq<char>)> {
    Seq::new(pairs.len(), |i: int| (pairs[i].0@, pairs[i].1@))
}

/// Whether a pair can be appended to the query of `url` with every offset of the result
/// still below four gigabytes, however the pair is escaped.
pub open spec fn pair_fits(url: Seq<char>, key: Seq<char>, value: Seq<char>) -> bool {
    encode_utf8(url).len() + 3 * (encode_utf8(key).len() + encode_utf8(value).len()) + 3
        <= 0xFFFF_FFFF
}

/// `Url::parse`: an absolute URL read from `input`, or the parser's error.
#[verifier::external_body]
pub(crate) fn parse_url(input: &str) -> (r: Result<Url, ParseError>)
    ensures
        match r {
            Ok(url) => parsed_url(input@) == Ok::<Seq<char>, ParseError>(url_text(url)),
            Err(e) => parsed_url(input@) == Err::<Seq<char>, ParseError>(e),
        },
{
    Url::parse(input)
}

/// `Url::join`: `reference` resolved against `base`, or the parser's error.
#[verifier::external_body]
pub(crate) fn join_url(base: &Url, reference: &str) -> (r: Result<Url, ParseError>)
    ensures
        match r {
            Ok(url) => joined_url(url_text(*base), reference@) == Ok::<Seq<char>, ParseError>(
                url_text(url),
            ),
            Err(e) => joined_url(url_text(*base), reference@) == Err::<Seq<char>, ParseError>(e),
        },
{
    base.join(reference)
}

/// `Url::as_str`: the serialization of `url`.
#[verifier::external_body]
pub(crate) fn url_str(url: &Url) -> (s: &str)
    ensures
        s@ == url_text(*url),
{
    url.as_str()
}

/// `Url::query_pairs_mut` followed by `Serializer::append_pair`: one more name/value pair at
/// the end of the query. The call panics where an offset into the result passes four
/// gigabytes, which `pair_fits` rules out.
#[verifier::external_body]
pub(crate) fn append_pair(url: &mut Url, key: &str, value: &str)
    requires
        pair_fits(url_text(*old(url)), key@, value@),
    ensures
        url_text(*final(url)) == url_with_pair(url_text(*old(url)), key@, value@),
{
    url.query_pairs_mut().append_pair(key, value);
}

/// `Url::query_pairs`, each pair as owned strings: the decoded pairs of the query, in order.
#[verifier::external_body]
pub(crate) fn query_pairs(url: &Url) -> (pairs: Vec<(String, String)>)
    ensures
        pairs_view(pairs@) == url_query_pairs(url_text(*url)),
{
    url.query_pairs().into_owned().collect()
}

/// Appends a pair to the query of `url` where it fits, and says whether it did.
pub fn try_append_pair(url: &mut Url, key: &str, value: &str) -> (done: bool)
    ensures
        done == pair_fits(url_text(*old(url)), key@, value@),
        done ==> url_text(*final(url)) == url_with_pair(url_text(*old(url)), key@, value@),
        !done ==> *final(url) == *old(url),
{
    let have: u128 = url_str(url).as_bytes().len() as u128;
    let key_len: u128 = key.as_bytes().len() as u128;
    let value_len: u128 = value.as_bytes().len() as u128;
    if have + 3 * (key_len + value_len) + 3 <= 0xFFFF_FFFF {
        append_pair(url, key, value);
        true
    } else {
        false
    }
}

} // verus!
