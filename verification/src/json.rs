//! The JSON texts that the library writes: the request body, the snapshot of
//! a context for the error log, and the text of a structured error.
//!
//! Objects and arrays are framed here; string literals come from
//! `serde_json`, so that escaping is its business.

use vstd::prelude::*;
use vstd::string::*;
use crate::text::{json_quoted, json_string};
use crate::types::{role_name, CompletionRequest, Message, MessageView, OpenAIError};

verus! {

/// The JSON object for a message: its role and its content.
pub open spec fn message_json_text(message: MessageView) -> Seq<char> {
    "{\"role\":"@ + json_quoted(role_name(message.role)) + ",\"content\":"@ + json_quoted(
        message.content,
    ) + "}"@
}

/// The JSON objects of the first `count` messages, separated by commas.
pub open spec fn messages_json_items(messages: Seq<Message>, count: nat) -> Seq<char>
    decreases count,
{
    if count == 0 {
        Seq::empty()
    } else if count == 1 {
        message_json_text(messages[0]@)
    } else {
        messages_json_items(messages, (count - 1) as nat) + ","@ + message_json_text(
            messages[count - 1]@,
        )
    }
}

/// The JSON array of a list of messages.
pub open spec fn context_json_text(messages: Seq<Message>) -> Seq<char> {
    "["@ + messages_json_items(messages, messages.len()) + "]"@
}

/// The JSON body of a completion request: the model and the messages.
pub open spec fn request_json_text(model: Seq<char>, messages: Seq<Message>) -> Seq<char> {
    "{\"model\":"@ + json_quoted(model) + ",\"messages\":"@ + context_json_text(messages) + "}"@
}

/// The JSON text of an optional string: `null` where there is none.
pub open spec fn optional_json_text(text: Option<String>) -> Seq<char> {
    match text {
        Some(t) => json_quoted(t@),
        None => "null"@,
    }
}

/// The JSON text of a structured error, its fields in alphabetical order.
pub open spec fn api_error_json_text(error: OpenAIError) -> Seq<char> {
    "{\"error\":{\"code\":"@ + json_quoted(error.error.code@) + ",\"message\":"@ + json_quoted(
        error.error.message@,
    ) + ",\"param\":"@ + optional_json_text(error.error.param) + ",\"type\":"@ + json_quoted(
        error.error.kind@,
    ) + "}}"@
}

/// Writes a message as a JSON object.
pub fn message_json(message: &Message) -> (text: String)
    ensures
        text@ == message_json_text(message@),
{
    let mut text = String::from_str("{\"role\":");
    text.append(json_string(message.role.name()).as_str());
    text.append(",\"content\":");
    text.append(json_string(message.content.as_str()).as_str());
    text.append("}");
    text
}

/// Writes a list of messages as a JSON array, in their order.
pub fn context_json(messages: &Vec<Message>) -> (text: String)
    ensures
        text@ == context_json_text(messages@),
{
    let mut text = String::from_str("[");
    let mut next: usize = 0;
    while next < messages.len()
        invariant
            next <= messages@.len(),
            text@ == "["@ + messages_json_items(messages@, next as nat),
        decreases messages@.len() - next,
    {
        if next > 0 {
            text.append(",");
        }
        text.append(message_json(&messages[next]).as_str());
        next = next + 1;
        assert(text@ =~= "["@ + messages_json_items(messages@, next as nat));
    }
    text.append("]");
    text
}

/// Writes the body of a completion request.
pub fn request_json(model: &str, messages: &Vec<Message>) -> (text: String)
    ensures
        text@ == request_json_text(model@, messages@),
{
    let mut text = String::from_str("{\"model\":");
    text.append(json_string(model).as_str());
    text.append(",\"messages\":");
    text.append(context_json(messages).as_str());
    text.append("}");
    text
}

impl CompletionRequest {
    /// This request as the JSON body to send.
    pub fn to_json(&self) -> (text: String)
        ensures
            text@ == request_json_text(self.model@, self.messages@),
    {
        request_json(self.model.as_str(), &self.messages)
    }
}

/// Writes an optional string: the string literal, or `null`.
pub fn optional_json(text: &Option<String>) -> (json: String)
    ensures
        json@ == optional_json_text(*text),
{
    match text {
        Some(t) => json_string(t.as_str()),
        None => String::from_str("null"),
    }
}

/// Writes a structured error as JSON.
pub fn api_error_json(error: &OpenAIError) -> (text: String)
    ensures
        text@ == api_error_json_text(*error),
{
    let mut text = String::from_str("{\"error\":{\"code\":");
    text.append(json_string(error.error.code.as_str()).as_str());
    text.append(",\"message\":");
    text.append(json_string(error.error.message.as_str()).as_str());
    text.append(",\"param\":");
    text.append(optional_json(&error.error.param).as_str());
    text.append(",\"type\":");
    text.append(json_string(error.error.kind.as_str()).as_str());
    text.append("}}");
    text
}

} // verus!
