//! Which API key a request presents.
use vstd::prelude::*;
use crate::shared::errors::AppError;
use crate::shared::text::{lemma_stripped_prefix_rest, strip_prefix, stripped_prefix};

verus! {

/// The key a request presents: its `X-API-Key` header if it has a readable
/// one, else the token of an `Authorization: Bearer <token>` header;
/// refused as unauthorized when it has neither.
pub open spec fn presented_key(x_api_key: Option<Seq<char>>, authorization: Option<Seq<char>>) -> Option<
    Seq<char>,
> {
    match x_api_key {
        Some(key) => Some(key),
        None => match authorization {
            Some(value) => stripped_prefix(value, "Bearer "@),
            None => None,
        },
    }
}

/// Picks the API key out of the readable values of the request's
/// `X-API-Key` and `Authorization` headers.
pub fn extract_api_key<'a>(x_api_key: Option<&'a str>, authorization: Option<&'a str>) -> (res:
    Result<&'a str, AppError>)
    ensures
        match presented_key(
            match x_api_key {
                Some(k) => Some(k@),
                None => None,
            },
            match authorization {
                Some(a) => Some(a@),
                None => None,
            },
        ) {
            Some(key) => res matches Ok(k) && k@ == key,
            None => res matches Err(AppError::Unauthorized),
        },
{
    match x_api_key {
        Some(key) => Ok(key),
        None => match authorization {
            Some(value) => match strip_prefix(value, "Bearer ") {
                Some(token) => Ok(token),
                None => Err(AppError::Unauthorized),
            },
            None => Err(AppError::Unauthorized),
        },
    }
}

/// A readable `X-API-Key` header is the key, whatever else the request
/// carries; without it, `Authorization: Bearer <token>` presents `<token>`,
/// and any other authorization value presents no key.
pub proof fn lemma_presented_key_sources(key: Seq<char>, authorization: Option<Seq<char>>, token: Seq<char>)
    ensures
        presented_key(Some(key), authorization) == Some(key),
        presented_key(None, Some("Bearer "@ + token)) == Some(token),
        presented_key(None, None) is None,
        presented_key(None, authorization) matches Some(t) ==> authorization == Some("Bearer "@ + t),
{
    lemma_stripped_prefix_rest("Bearer "@ + token, "Bearer "@);
    lemma_stripped_prefix_rest(token, "Bearer "@);
    if let Some(a) = authorization {
        lemma_stripped_prefix_rest(a, "Bearer "@);
    }
}

} // verus!
