//! URIs, through the `url` crate (as re-exported by `reqwest`): parsing, and query strings in
//! the `application/x-www-form-urlencoded` form.
use vstd::prelude::*;

verus! {

#[verifier::external_type_specification]
#[verifier::external_body]
pub struct ExUrlParseError(url::ParseError);

/// The serialization of the URL that `base` parses to, with `pairs` appended to its query in
/// order; `None` where `base` is not a valid URL.
pub uninterp spec fn url_with_query_pairs(
    base: Seq<char>,
    pairs: Seq<(Seq<char>, Seq<char>)>,
) -> Option<Seq<char>>;

/// The query of the URL that `uri` parses to, decoded into its name/value pairs in order;
/// `None` where `uri` is not a valid URL.
pub uninterp spec fn url_query_pairs(uri: Seq<char>) -> Option<Seq<(Seq<char>, Seq<char>)>>;

/// Relies on `Url::parse_with_params`: parses `base` and appends each pair to its query,
/// form-urlencoded; the result depends on the arguments alone.
#[verifier::external_body]
pub(crate) fn serialize_with_query(base: &str, pairs: &Vec<(String, String)>) -> (r: Result<
    String,
    url::ParseError,
>)
    ensures
        match r {
            Ok(u) => url_with_query_pairs(base@, pairs.deep_view()) == Some(u@),
            Err(_) => url_with_query_pairs(base@, pairs.deep_view()) is None,
        },
{
    reqwest::Url::parse_with_params(base, pairs.iter()).map(String::from)
}

/// Relies on `Url::parse` and on `Url::query_pairs` of the parsed URL: the decoded name/value
/// pairs of the query, in order; the result depends on `uri` alone.
#[verifier::external_body]
pub(crate) fn parse_query_pairs(uri: &str) -> (r: Result<Vec<(String, String)>, url::ParseError>)
    ensures
        match r {
            Ok(pairs) => url_query_pairs(uri@) == Some(pairs.deep_view()),
            Err(_) => url_query_pairs(uri@) is None,
        },
{
    reqwest::Url::parse(uri).map(|u| u.query_pairs().into_owned().collect())
}

} // verus!
