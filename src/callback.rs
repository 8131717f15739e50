//! The provider's redirect back to the client, and the authorization code it carries.
use crate::error::LogtoError;
use crate::text::{compare_str, is_prefix, starts_with};
use crate::uri::{parse_query_pairs, url_query_pairs};
use core::cmp::Ordering;
use vstd::prelude::*;

verus! {

/// A callback URI as the browser delivered it, with what it is checked against.
pub struct UnverifiedUris {
    pub callback_uri: String,
    pub redirect_uri: String,
    /// The state sent with the authorization request.
    pub state: String,
}

/// The value of the query parameter `name`; where it occurs more than once, the last one counts.
pub open spec fn query_value(q: Seq<(Seq<char>, Seq<char>)>, name: Seq<char>) -> Option<Seq<char>>
    decreases q.len(),
{
    if q.len() == 0 {
        None
    } else if q.last().0 == name {
        Some(q.last().1)
    } else {
        query_value(q.drop_last(), name)
    }
}

/// `r` is what a callback whose query is `q` yields when `expected_state` was sent: checked in
/// this order, an `error` parameter, then the `state`, then the `code`.
pub open spec fn callback_outcome(
    q: Seq<(Seq<char>, Seq<char>)>,
    expected_state: Seq<char>,
    r: Result<String, LogtoError>,
) -> bool {
    match r {
        Ok(code) => query_value(q, "error"@) is None && query_value(q, "state"@) == Some(
            expected_state,
        ) && query_value(q, "code"@) == Some(code@),
        Err(LogtoError::ProviderError(e)) => query_value(q, "error"@) == Some(e@),
        Err(LogtoError::StateMismatch) => query_value(q, "error"@) is None && query_value(
            q,
            "state"@,
        ) != Some(expected_state),
        Err(LogtoError::MissingAuthorizationCode) => query_value(q, "error"@) is None
            && query_value(q, "state"@) == Some(expected_state) && query_value(q, "code"@) is None,
        Err(_) => false,
    }
}

/// The value of the query parameter `name` in `q`.
pub fn find_query_value(q: &Vec<(String, String)>, name: &str) -> (r: Option<String>)
    ensures
        r.deep_view() == query_value(q.deep_view(), name@),
{
    let ghost dq = q.deep_view();
    let mut n: usize = q.len();
    assert(dq.subrange(0, n as int) == dq);
    while n > 0
        invariant
            n <= q@.len(),
            dq == q.deep_view(),
            query_value(dq, name@) == query_value(dq.subrange(0, n as int), name@),
        decreases n,
    {
        let ghost sub = dq.subrange(0, n as int);
        assert(sub.last() == q@[n - 1].deep_view());
        assert(sub.drop_last() == dq.subrange(0, n - 1));
        match compare_str(q[n - 1].0.as_str(), name) {
            Ordering::Equal => {
                return Some(q[n - 1].1.clone());
            },
            _ => {},
        }
        n = n - 1;
    }
    None
}

/// The authorization code of a callback whose query is `q`, when `expected_state` was sent.
pub fn code_from_query(q: &Vec<(String, String)>, expected_state: &str) -> (r: Result<
    String,
    LogtoError,
>)
    ensures
        callback_outcome(q.deep_view(), expected_state@, r),
{
    match find_query_value(q, "error") {
        Some(e) => {
            return Err(LogtoError::ProviderError(e));
        },
        None => {},
    }
    let state_matches = match find_query_value(q, "state") {
        Some(s) => match compare_str(s.as_str(), expected_state) {
            Ordering::Equal => true,
            _ => false,
        },
        None => false,
    };
    if !state_matches {
        return Err(LogtoError::StateMismatch);
    }
    match find_query_value(q, "code") {
        Some(code) => Ok(code),
        None => Err(LogtoError::MissingAuthorizationCode),
    }
}

/// Checks a callback URI and takes the authorization code from it. The callback must extend
/// the redirect URI, parse as a URI, carry no `error`, carry the expected `state`, and carry
/// a `code`; the first check that fails gives the error.
pub fn verify_and_parse_code_from_callback_uri(params: UnverifiedUris) -> (r: Result<
    String,
    LogtoError,
>)
    ensures
        !is_prefix(params.redirect_uri@, params.callback_uri@) ==> r == Err::<String, LogtoError>(
            LogtoError::RedirectMismatch,
        ),
        is_prefix(params.redirect_uri@, params.callback_uri@) ==> match url_query_pairs(
            params.callback_uri@,
        ) {
            Some(q) => callback_outcome(q, params.state@, r),
            None => r == Err::<String, LogtoError>(LogtoError::UriParseError),
        },
{
    if !starts_with(params.callback_uri.as_str(), params.redirect_uri.as_str()) {
        return Err(LogtoError::RedirectMismatch);
    }
    match parse_query_pairs(params.callback_uri.as_str()) {
        Ok(q) => code_from_query(&q, params.state.as_str()),
        Err(_) => Err(LogtoError::UriParseError),
    }
}

} // verus!
