//! JSON text for request bodies.

use vstd::prelude::*;
use crate::error::{AppError, AppErrorView};

verus! {

/// The error of `serde_json`, carried through as it is.
#[verifier::external_type_specification]
#[verifier::external_body]
pub struct ExJsonError(serde_json::Error);

/// The JSON text that `serde_json::to_string` writes for a string of these
/// characters: the string in double quotes, with the escapes that JSON asks
/// for.
pub uninterp spec fn json_string_text(text: Seq<char>) -> Seq<char>;

/// Has `serde_json::to_string` write a string as JSON text. For a string it
/// always succeeds: the text goes into a byte vector, and the one error
/// that writing a string can pass on is an error of the writer, which a
/// byte vector never gives. The text is the one named `json_string_text`.
#[verifier::external_body]
fn encode_string(text: &str) -> (encoded: Result<String, serde_json::Error>)
    ensures
        encoded is Ok,
        encoded->Ok_0@ == json_string_text(text@),
{
    serde_json::to_string(text)
}

/// The message of the transport error for a body that could not be encoded.
pub open spec fn encoding_failed_message() -> Seq<char> {
    "request body could not be encoded"@
}

/// What becomes of each answer of an encoder: the text, or a
/// `TransportError`, since a request whose body cannot be written cannot be
/// sent.
pub fn literal_from(encoded: Result<String, serde_json::Error>) -> (literal: Result<
    String,
    AppError,
>)
    ensures
        match encoded {
            Ok(json) => literal == Ok::<String, AppError>(json),
            Err(_) => literal is Err && literal->Err_0@ == AppErrorView::Transport(
                encoding_failed_message(),
            ),
        },
{
    match encoded {
        Ok(json) => Ok(json),
        Err(_) => Err(AppError::TransportError("request body could not be encoded".to_owned())),
    }
}

/// A string as a JSON string literal. Every string has one.
pub fn string_literal(text: &str) -> (literal: Result<String, AppError>)
    ensures
        literal is Ok,
        literal->Ok_0@ == json_string_text(text@),
{
    literal_from(encode_string(text))
}

} // verus!
