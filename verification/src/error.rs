//! The errors that the library reports.

use vstd::prelude::*;
use vstd::string::*;
use crate::json::{optional_json, optional_json_text};
use crate::sql::describe;
use crate::text::{json_quoted, json_string};

verus! {

/// A failed operation on the store.
#[derive(Debug)]
pub enum StoreError {
    /// The engine refused or failed the operation; its description.
    Engine(String),
    /// The message with this id carries a role outside the closed
    /// enumeration.
    UnknownRole(u32),
    /// The row with this id carries a time that cannot be read.
    BadTimestamp(u32),
    /// A token count is too large for the store's integers.
    TokenCountTooLarge(u64),
    /// The engine reported no usable id for a row just inserted.
    MissingRowId,
    /// The schema state table exists and holds no version.
    MissingVersion,
    /// The store records a schema version that this library does not know.
    UnknownVersion(i64),
}

impl StoreError {
    /// The error that stands for a failure of the engine.
    pub(crate) fn from_engine(error: &rusqlite::Error) -> (mapped: StoreError)
        ensures
            mapped is Engine,
    {
        StoreError::Engine(describe(error))
    }
}

/// A command-line argument that could not be used.
#[derive(Debug)]
pub struct ArgumentError {
    pub argument: String,
    message: String,
}

impl ArgumentError {
    /// The name of the argument.
    pub closed spec fn name(&self) -> Seq<char> {
        self.argument@
    }

    /// What is wrong with the argument.
    pub closed spec fn message(&self) -> Seq<char> {
        self.message@
    }

    /// The text that describes an error of this argument and message.
    pub open spec fn description(argument: Seq<char>, message: Seq<char>) -> Seq<char> {
        "Error when reading argument "@ + argument + ": "@ + message
    }

    /// An error about the argument `arg`.
    pub fn new(arg: &str, msg: &str) -> (error: ArgumentError)
        ensures
            error.name() == arg@,
            error.message() == msg@,
    {
        ArgumentError { argument: arg.to_owned(), message: msg.to_owned() }
    }

    /// The name of the argument.
    pub fn argument_name(&self) -> (name: &str)
        ensures
            name@ == self.name(),
    {
        self.argument.as_str()
    }

    /// The description of this error.
    pub fn to_string(&self) -> (text: String)
        ensures
            text@ == Self::description(self.name(), self.message()),
    {
        let mut text = String::from_str("Error when reading argument ");
        text.append(self.argument.as_str());
        text.append(": ");
        text.append(self.message.as_str());
        text
    }
}

/// A request that could not be completed: the status and the address where
/// they are known, and the description of the failure.
#[derive(Debug)]
pub struct RequestError {
    status: Option<String>,
    url: Option<String>,
    error: String,
}

impl RequestError {
    /// The JSON text of a failed request.
    pub open spec fn json(status: Option<String>, url: Option<String>, error: Seq<char>) -> Seq<
        char,
    > {
        "{\"status\":"@ + optional_json_text(status) + ",\"url\":"@ + optional_json_text(url)
            + ",\"error\":"@ + json_quoted(error) + "}"@
    }

    /// The JSON text of this error.
    pub closed spec fn text(&self) -> Seq<char> {
        Self::json(self.status, self.url, self.error@)
    }

    /// A failed request.
    pub fn new(status: Option<String>, url: Option<String>, error: String) -> (failed: RequestError)
        ensures
            failed.text() == Self::json(status, url, error@),
    {
        RequestError { status, url, error }
    }

    /// This error as JSON: its status, address and description.
    pub fn to_string(&self) -> (text: String)
        ensures
            text@ == self.text(),
    {
        let mut text = String::from_str("{\"status\":");
        text.append(optional_json(&self.status).as_str());
        text.append(",\"url\":");
        text.append(optional_json(&self.url).as_str());
        text.append(",\"error\":");
        text.append(json_string(self.error.as_str()).as_str());
        text.append("}");
        text
    }
}

/// A response body that is neither a completion nor a structured error: what
/// the parser said, and the body as it came.
#[derive(Debug)]
pub struct JSONParseError {
    error: String,
    original: String,
}

impl JSONParseError {
    /// The JSON text of a parse failure.
    pub open spec fn json(error: Seq<char>, original: Seq<char>) -> Seq<char> {
        "{\"error\":"@ + json_quoted(error) + ",\"original\":"@ + json_quoted(original) + "}"@
    }

    /// The JSON text of this error.
    pub closed spec fn text(&self) -> Seq<char> {
        Self::json(self.error@, self.original@)
    }

    /// A parse failure. The body is kept as it came.
    pub fn new(err: String, text: String) -> (failed: JSONParseError)
        ensures
            failed.text() == Self::json(err@, text@),
    {
        JSONParseError { error: err, original: text }
    }

    /// This error as JSON: the parser's words and the body as it came.
    pub fn to_string(&self) -> (text: String)
        ensures
            text@ == self.text(),
    {
        let mut text = String::from_str("{\"error\":");
        text.append(json_string(self.error.as_str()).as_str());
        text.append(",\"original\":");
        text.append(json_string(self.original.as_str()).as_str());
        text.append("}");
        text
    }
}

} // verus!
