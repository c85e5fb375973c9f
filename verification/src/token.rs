//! The answer of a token endpoint: a JSON text that holds the token.

use crate::text::text_of;
use vstd::prelude::*;

verus! {

/// Whether `serde_json::from_str` reads `body` as a JSON value.
pub uninterp spec fn is_json(body: Seq<char>) -> bool;

/// The string that the JSON value read from `body` holds under `key`
/// (`serde_json::Value::get`, then `serde_json::Value::as_str`): `None`
/// where that value is no object, has no member `key`, or has one that is no
/// string. Meaningful where `is_json(body)`.
pub uninterp spec fn json_string_member(body: Seq<char>, key: Seq<char>) -> Option<Seq<char>>;

/// Reads `body` with `serde_json::from_str` as a `serde_json::Value`, looks
/// `key` up in it with `Value::get` and takes the member as a string with
/// `Value::as_str`; where `serde_json` rejects `body`, hands back its message.
/// Trusted: a message comes exactly where `body` is no JSON text, and
/// otherwise the result is `json_string_member(body, key)`. Nothing is
/// claimed of what the message says.
#[verifier::external_body]
fn read_string_member(body: &str, key: &str) -> (member: Result<Option<String>, String>)
    ensures
        member is Ok <==> is_json(body@),
        member matches Ok(text) ==> text_of(text) == json_string_member(body@, key@),
{
    match serde_json::from_str::<serde_json::Value>(body) {
        Ok(value) => Ok(value.get(key).and_then(|member| member.as_str()).map(String::from)),
        Err(error) => Err(error.to_string()),
    }
}

/// Why the answer of a token endpoint holds no token.
#[derive(Debug)]
pub enum TokenError {
    /// The answer is no JSON text; the message says why.
    NotJson(String),
    /// The answer is JSON, and holds no string named `token`.
    NoToken,
}

/// The kinds of [`TokenError`]: each variant without what it carries.
pub enum TokenErrorKind {
    NotJson,
    NoToken,
}

impl View for TokenError {
    type V = TokenErrorKind;

    open spec fn view(&self) -> TokenErrorKind {
        match self {
            TokenError::NotJson(_) => TokenErrorKind::NotJson,
            TokenError::NoToken => TokenErrorKind::NoToken,
        }
    }
}

/// The token that the answer `body` holds.
pub open spec fn token_of(body: Seq<char>) -> Result<Seq<char>, TokenErrorKind> {
    if !is_json(body) {
        Err(TokenErrorKind::NotJson)
    } else {
        match json_string_member(body, "token"@) {
            Some(token) => Ok(token),
            None => Err(TokenErrorKind::NoToken),
        }
    }
}

/// A token or the failure to find one, as specifications see it.
pub open spec fn token_view(token: Result<String, TokenError>) -> Result<
    Seq<char>,
    TokenErrorKind,
> {
    match token {
        Ok(token) => Ok(token@),
        Err(error) => Err(error@),
    }
}

/// The token in what was read of a token endpoint's answer: `member` is the
/// string found under `token`, or the reason for which the answer is no
/// JSON text.
pub fn token_from_member(member: Result<Option<String>, String>) -> (token: Result<
    String,
    TokenError,
>)
    ensures
        match member {
            Ok(Some(text)) => token == Ok::<String, TokenError>(text),
            Ok(None) => token == Err::<String, TokenError>(TokenError::NoToken),
            Err(message) => token == Err::<String, TokenError>(TokenError::NotJson(message)),
        },
{
    match member {
        Ok(Some(text)) => Ok(text),
        Ok(None) => Err(TokenError::NoToken),
        Err(message) => Err(TokenError::NotJson(message)),
    }
}

/// The token in the answer `body` of a token endpoint.
pub fn extract_token(body: &str) -> (token: Result<String, TokenError>)
    ensures
        token_view(token) == token_of(body@),
{
    token_from_member(read_string_member(body, "token"))
}

} // verus!
