//! The redirect that ends the browser step, and the checks it has to pass.

use crate::errors::{ErrorView, MyError};
use crate::web::{pairs_view, parse_url, parsed_url, query_pairs, url_query_pairs};
use vstd::prelude::*;

verus! {

/// The value of the parameter `key` among `pairs`. Where the name occurs more than once,
/// the last occurrence counts.
pub open spec fn query_value(pairs: Seq<(Seq<char>, Seq<char>)>, key: Seq<char>) -> Option<
    Seq<char>,
>
    decreases pairs.len(),
{
    if pairs.len() == 0 {
        None
    } else if pairs.last().0 == key {
        Some(pairs.last().1)
    } else {
        query_value(pairs.drop_last(), key)
    }
}

/// What the parameters of a redirect say to an attempt that expects the issuer `issuer`
/// and the state token `state`.
///
/// The checks run in this order, and the first that fails decides: `iss` is there and
/// equals `issuer`; `state` is there and equals `state`; `error` and `error_description`
/// are not both there. After them `code`, where it is there, is the authorization code. A
/// redirect that passes the checks and has no `code` says nothing: `None`.
///
/// The message of a refusal is a fixed text. The one for another issuer names the
/// parameter, in braces, and not what the redirect carried in it.
pub open spec fn callback_outcome(
    pairs: Seq<(Seq<char>, Seq<char>)>,
    issuer: Seq<char>,
    state: Seq<char>,
) -> Option<Result<Seq<char>, ErrorView>> {
    match query_value(pairs, "iss"@) {
        None => Some(Err(ErrorView::Validation("No issuer found"@))),
        Some(found) => if found != issuer {
            Some(Err(ErrorView::Validation("Invalid issuer: {iss}"@)))
        } else {
            match query_value(pairs, "state"@) {
                None => Some(Err(ErrorView::Validation("No state found"@))),
                Some(token) => if token != state {
                    Some(Err(ErrorView::Validation("Mismatched state"@)))
                } else {
                    match (query_value(pairs, "error"@), query_value(pairs, "error_description"@)) {
                        (Some(error), Some(description)) => Some(
                            Err(ErrorView::Auth { message: description, err_type: error }),
                        ),
                        _ => match query_value(pairs, "code"@) {
                            Some(code) => Some(Ok(code)),
                            None => None,
                        },
                    }
                }
            }
        },
    }
}

/// What a redirect to the address `url` says: `callback_outcome` of its query, or the
/// failure to read `url` as a URL.
pub open spec fn callback_verdict(url: Seq<char>, issuer: Seq<char>, state: Seq<char>) -> Option<
    Result<Seq<char>, ErrorView>,
> {
    match parsed_url(url) {
        Ok(parsed) => callback_outcome(url_query_pairs(parsed), issuer, state),
        Err(e) => Some(Err(ErrorView::Parse(e))),
    }
}

/// A verdict with its texts as sequences of characters.
pub open spec fn verdict_view(verdict: Option<Result<String, MyError>>) -> Option<
    Result<Seq<char>, ErrorView>,
> {
    match verdict {
        Some(Ok(code)) => Some(Ok(code@)),
        Some(Err(e)) => Some(Err(e@)),
        None => None,
    }
}

/// The value of the parameter `key` among `pairs`, the last one where there are several.
pub fn find_value<'a>(pairs: &'a Vec<(String, String)>, key: &str) -> (value: Option<&'a String>)
    ensures
        match value {
            Some(v) => query_value(pairs_view(pairs@), key@) == Some(v@),
            None => query_value(pairs_view(pairs@), key@) is None,
        },
{
    let wanted = String::from_str(key);
    let ghost all = pairs_view(pairs@);
    let mut i: usize = pairs.len();
    assert(all.take(i as int) =~= all);
    while i > 0
        invariant
            i <= pairs.len(),
            wanted@ == key@,
            all == pairs_view(pairs@),
            query_value(all, key@) == query_value(all.take(i as int), key@),
        decreases i,
    {
        i -= 1;
        proof {
            let upto = all.take(i + 1);
            assert(upto.last() == all[i as int]);
            assert(upto.drop_last() =~= all.take(i as int));
        }
        if pairs[i].0 == wanted {
            return Some(&pairs[i].1);
        }
    }
    assert(all.take(0).len() == 0);
    None
}

fn refuse(message: &str) -> (verdict: Option<Result<String, MyError>>)
    ensures
        verdict_view(verdict) == Some(
            Err::<Seq<char>, ErrorView>(ErrorView::Validation(message@)),
        ),
{
    Some(Err(MyError::ValidationError(String::from_str(message))))
}

/// Checks the parameters of a redirect against the issuer and the state token of the
/// attempt it is meant for.
pub fn check_callback(pairs: &Vec<(String, String)>, issuer: &str, state: &str) -> (verdict: Option<
    Result<String, MyError>,
>)
    ensures
        verdict_view(verdict) == callback_outcome(pairs_view(pairs@), issuer@, state@),
{
    let expected_issuer = String::from_str(issuer);
    let expected_state = String::from_str(state);
    match find_value(pairs, "iss") {
        None => {
            return refuse("No issuer found");
        },
        Some(found) => {
            if *found != expected_issuer {
                return refuse("Invalid issuer: {iss}");
            }
        },
    }
    match find_value(pairs, "state") {
        None => {
            return refuse("No state found");
        },
        Some(token) => {
            if *token != expected_state {
                return refuse("Mismatched state");
            }
        },
    }
    let error = find_value(pairs, "error");
    let description = find_value(pairs, "error_description");
    if let Some(err_type) = error {
        if let Some(message) = description {
            return Some(
                Err(MyError::AuthError { message: message.clone(), err_type: err_type.clone() }),
            );
        }
    }
    match find_value(pairs, "code") {
        Some(code) => Some(Ok(code.clone())),
        None => None,
    }
}

/// Checks the redirect to the address `url` against the issuer and the state token of the
/// attempt it is meant for.
pub fn callback_result(url: &str, issuer: &str, state: &str) -> (verdict: Option<
    Result<String, MyError>,
>)
    ensures
        verdict_view(verdict) == callback_verdict(url@, issuer@, state@),
{
    match parse_url(url) {
        Ok(parsed) => {
            let pairs = query_pairs(&parsed);
            check_callback(&pairs, issuer, state)
        },
        Err(e) => Some(Err(MyError::ParseError(e))),
    }
}

/// A redirect whose issuer is missing or is another one is refused, whatever else it
/// carries.
pub proof fn lemma_issuer_is_checked_first(
    pairs: Seq<(Seq<char>, Seq<char>)>,
    issuer: Seq<char>,
    state: Seq<char>,
)
    requires
        query_value(pairs, "iss"@) != Some(issuer),
    ensures
        callback_outcome(pairs, issuer, state) == Some(
            Err::<Seq<char>, ErrorView>(
                ErrorView::Validation(
                    if query_value(pairs, "iss"@) is None {
                        "No issuer found"@
                    } else {
                        "Invalid issuer: {iss}"@
                    },
                ),
            ),
        ),
{
}

/// A redirect from the right issuer whose state token is missing or is another one is
/// refused before its code is looked at: a code that it carries changes nothing.
pub proof fn lemma_state_is_checked_before_code(
    pairs: Seq<(Seq<char>, Seq<char>)>,
    issuer: Seq<char>,
    state: Seq<char>,
)
    requires
        query_value(pairs, "iss"@) == Some(issuer),
        query_value(pairs, "state"@) != Some(state),
    ensures
        callback_outcome(pairs, issuer, state) == Some(
            Err::<Seq<char>, ErrorView>(
                ErrorView::Validation(
                    if query_value(pairs, "state"@) is None {
                        "No state found"@
                    } else {
                        "Mismatched state"@
                    },
                ),
            ),
        ),
{
}

/// A code comes out only of a redirect that names the expected issuer and the expected
/// state token and does not report an error, and it is the code of that redirect.
pub proof fn lemma_code_passed_every_check(
    pairs: Seq<(Seq<char>, Seq<char>)>,
    issuer: Seq<char>,
    state: Seq<char>,
    code: Seq<char>,
)
    requires
        callback_outcome(pairs, issuer, state) == Some(Ok::<Seq<char>, ErrorView>(code)),
    ensures
        query_value(pairs, "iss"@) == Some(issuer),
        query_value(pairs, "state"@) == Some(state),
        query_value(pairs, "error"@) is None || query_value(pairs, "error_description"@) is None,
        query_value(pairs, "code"@) == Some(code),
{
}

/// The last pair of a query decides the value of its name.
pub proof fn lemma_last_pair_counts(
    pairs: Seq<(Seq<char>, Seq<char>)>,
    key: Seq<char>,
    value: Seq<char>,
)
    ensures
        query_value(pairs.push((key, value)), key) == Some(value),
        forall|other: Seq<char>|
            other != key ==> query_value(pairs.push((key, value)), other) == query_value(
                pairs,
                other,
            ),
{
    let longer = pairs.push((key, value));
    assert(longer.last() == (key, value));
    assert(longer.drop_last() =~= pairs);
}

} // verus!
