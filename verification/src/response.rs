//! What the completion service answered.
//!
//! The caller sends the request and reads the body; this file decides what
//! the answer is: a completion, a structured error, or neither.

use vstd::prelude::*;
use vstd::string::*;
use crate::error::{JSONParseError, RequestError};
use crate::types::{CompletionResponse, OpenAIError, OpenAIResponse};

verus! {

/// The address that completion requests go to.
pub const ENDPOINT: &'static str = "https://api.openai.com/v1/chat/completions";

/// What came of one request.
#[derive(Debug)]
pub enum Delivery {
    /// The request could not be completed.
    Failed(RequestError),
    /// A body arrived. `completion` is the body read as a completion, or the
    /// parser's words on why it is none; `failure` is the body read as a
    /// structured error, if it is one.
    Arrived { body: String, completion: Result<CompletionResponse, String>, failure: Option<OpenAIError> },
}

/// The value of the `Authorization` header for a credential.
pub open spec fn authorization_text(api_key: Seq<char>) -> Seq<char> {
    "Bearer "@ + api_key
}

/// The value of the `Authorization` header for a credential.
pub fn authorization(api_key: &str) -> (header: String)
    ensures
        header@ == authorization_text(api_key@),
{
    let mut header = String::from_str("Bearer ");
    header.append(api_key);
    header
}

/// Decides what the service answered.
///
/// A body that reads as a completion is a success, whatever the completion
/// holds. Otherwise a body that reads as a structured error is a failure of
/// the service. A body that is neither is a parse failure, whose text keeps
/// the parser's words on the completion and the body as it came, and a
/// request that was not completed gives the text of its error.
pub fn get_response(delivery: Delivery) -> (response: Result<OpenAIResponse, String>)
    ensures
        match delivery {
            Delivery::Failed(failed) => response is Err && response->Err_0@ == failed.text(),
            Delivery::Arrived { body, completion, failure } => match completion {
                Ok(c) => response == Ok::<OpenAIResponse, String>(OpenAIResponse::Success(c)),
                Err(words) => match failure {
                    Some(e) => response == Ok::<OpenAIResponse, String>(OpenAIResponse::Failure(e)),
                    None => response is Err && response->Err_0@ == JSONParseError::json(
                        words@,
                        body@,
                    ),
                },
            },
        },
{
    match delivery {
        Delivery::Failed(failed) => Err(failed.to_string()),
        Delivery::Arrived { body, completion, failure } => match completion {
            Ok(c) => Ok(OpenAIResponse::Success(c)),
            Err(words) => match failure {
                Some(e) => Ok(OpenAIResponse::Failure(e)),
                None => Err(JSONParseError::new(words, body).to_string()),
            },
        },
    }
}

} // verus!
