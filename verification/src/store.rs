//! The conversation store: conversations, their messages and the error log,
//! kept in the tables that the schema registry maintains.
//!
//! Each operation fixes the statement and the values that go to the engine,
//! and decodes the rows that come back. What the engine does with them is
//! outside this library; `model` states what is expected of it.

use vstd::prelude::*;
use crate::error::StoreError;
use crate::json::{context_json, context_json_text};
use crate::schema::SchemaV1;
use crate::sql::{
    execute,
    param_views,
    query_integers,
    query_listing_rows,
    query_message_rows,
    ListingRow,
    MessageRow,
    SqlParam,
    SqlParamView,
};
use crate::text::{trim, trimmed};
use crate::time::{parse_stored_time, stored_time};
use crate::types::{
    role_name,
    role_named,
    CompletionResponse,
    ConversationListing,
    Message,
    MessageRole,
    OpenAIError,
    SavedMessage,
};

verus! {

/// Inserts a conversation.
pub const INSERT_CONVERSATION_SQL: &'static str =
    "INSERT INTO conversation (title, key) VALUES (?, ?);";

/// Asks for the id of the row inserted last.
pub const LAST_ROW_ID_SQL: &'static str = "SELECT last_insert_rowid();";

/// Lists the conversations of a key with their usage and latest activity, oldest
/// activity first.
pub const LIST_CONVERSATIONS_SQL: &'static str = "
SELECT
    a.id AS ID,
    a.title AS Title,
    IFNULL(SUM(b.prompt_tokens) + SUM(b.completion_tokens), 0) AS TotalUsage,
    IFNULL(MAX(b.updateat), a.updateat) AS LastUpdate
FROM conversation a
LEFT JOIN message b ON a.id = b.conversation_id
WHERE a.key = ?
GROUP BY a.id
ORDER BY LastUpdate ASC, a.id ASC;
";

/// Lists the messages of a conversation in the order of their creation.
pub const LIST_MESSAGES_SQL: &'static str = "
SELECT id, conversation_id, role, content, prompt_tokens, completion_tokens, updateat
FROM message
WHERE conversation_id = ?
ORDER BY updateat ASC, id ASC;
";

/// Inserts a message.
pub const INSERT_MESSAGE_SQL: &'static str = "
INSERT INTO message (conversation_id, role, content, prompt_tokens, completion_tokens)
VALUES (?, ?, ?, ?, ?);
";

/// Inserts an entry of the error log.
pub const INSERT_ERROR_SQL: &'static str = "
INSERT INTO error (key, context, error, message, code, type, param)
VALUES (?, ?, ?, ?, ?, ?, ?);
";

/// The values of a new conversation: its title, verbatim, and the key that
/// owns it.
pub open spec fn conversation_params(title: Seq<char>, key: Seq<char>) -> Seq<SqlParamView> {
    seq![SqlParamView::Text(title), SqlParamView::Text(key)]
}

/// The values of a new message: the conversation, the role by its name, the
/// content without the white space at its ends, and the two token counts.
pub open spec fn message_params(
    conversation_id: u32,
    role: MessageRole,
    content: Seq<char>,
    prompt_tokens: u64,
    completion_tokens: u64,
) -> Seq<SqlParamView> {
    seq![
        SqlParamView::Integer(conversation_id as int),
        SqlParamView::Text(role_name(role)),
        SqlParamView::Text(trimmed(content)),
        SqlParamView::Integer(prompt_tokens as int),
        SqlParamView::Integer(completion_tokens as int),
    ]
}

/// The value of an optional text: the text, or SQL's null.
pub open spec fn optional_param(text: Option<Seq<char>>) -> SqlParamView {
    match text {
        Some(t) => SqlParamView::Text(t),
        None => SqlParamView::Null,
    }
}

/// The values of an entry of the error log: the key, the context as JSON, the
/// raw error, and the message, code, type and parameter of a structured
/// error, each null where there is none.
pub open spec fn error_log_params(
    key: Seq<char>,
    context: Seq<Message>,
    error: Seq<char>,
    api_error: Option<OpenAIError>,
) -> Seq<SqlParamView> {
    seq![
        SqlParamView::Text(key),
        SqlParamView::Text(context_json_text(context)),
        SqlParamView::Text(error),
        optional_param(
            match api_error {
                Some(e) => Some(e.error.message@),
                None => None,
            },
        ),
        optional_param(
            match api_error {
                Some(e) => Some(e.error.code@),
                None => None,
            },
        ),
        optional_param(
            match api_error {
                Some(e) => Some(e.error.kind@),
                None => None,
            },
        ),
        optional_param(
            match api_error {
                Some(e) => match e.error.param {
                    Some(p) => Some(p@),
                    None => None,
                },
                None => None,
            },
        ),
    ]
}

/// The values to insert for a new conversation.
pub fn conversation_insert(title: &str, key: &str) -> (params: Vec<SqlParam>)
    ensures
        param_views(params@) == conversation_params(title@, key@),
{
    let params = vec![SqlParam::Text(title.to_owned()), SqlParam::Text(key.to_owned())];
    assert(param_views(params@) =~= conversation_params(title@, key@));
    params
}

/// Why a message with these token counts is refused before it reaches the
/// engine, if it is: a count is beyond the store's integers, the prompt count
/// first.
pub open spec fn token_refusal(prompt_tokens: u64, completion_tokens: u64) -> Option<StoreError> {
    if prompt_tokens > i64::MAX {
        Some(StoreError::TokenCountTooLarge(prompt_tokens))
    } else if completion_tokens > i64::MAX {
        Some(StoreError::TokenCountTooLarge(completion_tokens))
    } else {
        None
    }
}

/// The values to insert for a new message. A token count beyond the store's
/// integers is refused, the prompt count first.
pub fn message_insert(
    conversation_id: u32,
    role: MessageRole,
    content: &str,
    prompt_tokens: u64,
    completion_tokens: u64,
) -> (params: Result<Vec<SqlParam>, StoreError>)
    ensures
        prompt_tokens > i64::MAX ==> params == Err::<Vec<SqlParam>, StoreError>(
            StoreError::TokenCountTooLarge(prompt_tokens),
        ),
        prompt_tokens <= i64::MAX && completion_tokens > i64::MAX ==> params == Err::<
            Vec<SqlParam>,
            StoreError,
        >(StoreError::TokenCountTooLarge(completion_tokens)),
        prompt_tokens <= i64::MAX && completion_tokens <= i64::MAX ==> params is Ok && param_views(
            params->Ok_0@,
        ) == message_params(conversation_id, role, content@, prompt_tokens, completion_tokens),
{
    if prompt_tokens > i64::MAX as u64 {
        return Err(StoreError::TokenCountTooLarge(prompt_tokens));
    }
    if completion_tokens > i64::MAX as u64 {
        return Err(StoreError::TokenCountTooLarge(completion_tokens));
    }
    let params = vec![
        SqlParam::Integer(conversation_id as i64),
        SqlParam::Text(role.name().to_owned()),
        SqlParam::Text(trim(content)),
        SqlParam::Integer(prompt_tokens as i64),
        SqlParam::Integer(completion_tokens as i64),
    ];
    assert(param_views(params@) =~= message_params(
        conversation_id,
        role,
        content@,
        prompt_tokens,
        completion_tokens,
    ));
    Ok(params)
}

/// The value to bind for an optional text.
fn optional_value(text: Option<&String>) -> (param: SqlParam)
    ensures
        param@ == optional_param(
            match text {
                Some(t) => Some(t@),
                None => None,
            },
        ),
{
    match text {
        Some(t) => SqlParam::Text(t.clone()),
        None => SqlParam::Null,
    }
}

/// The values to insert for an entry of the error log.
pub fn error_log_insert(
    key: &str,
    context: &Vec<Message>,
    error: &str,
    openai_error: Option<&OpenAIError>,
) -> (params: Vec<SqlParam>)
    ensures
        param_views(params@) == error_log_params(
            key@,
            context@,
            error@,
            match openai_error {
                Some(e) => Some(*e),
                None => None,
            },
        ),
{
    let (message, code, kind, param) = match openai_error {
        Some(e) => (
            optional_value(Some(&e.error.message)),
            optional_value(Some(&e.error.code)),
            optional_value(Some(&e.error.kind)),
            optional_value(e.error.param.as_ref()),
        ),
        None => (SqlParam::Null, SqlParam::Null, SqlParam::Null, SqlParam::Null),
    };
    let params = vec![
        SqlParam::Text(key.to_owned()),
        SqlParam::Text(context_json(context)),
        SqlParam::Text(error.to_owned()),
        message,
        code,
        kind,
        param,
    ];
    assert(param_views(params@) =~= error_log_params(
        key@,
        context@,
        error@,
        match openai_error {
            Some(e) => Some(*e),
            None => None,
        },
    ));
    params
}

/// The id of the row just inserted, from the engine's answer: the first
/// number, if it is a positive id that fits.
pub open spec fn row_id_read(rows: Seq<i64>) -> Result<u32, StoreError> {
    if rows.len() > 0 && 0 < rows[0] <= u32::MAX {
        Ok(rows[0] as u32)
    } else {
        Err(StoreError::MissingRowId)
    }
}

/// Decodes the id of the row just inserted.
pub fn decode_row_id(rows: &Vec<i64>) -> (id: Result<u32, StoreError>)
    ensures
        id == row_id_read(rows@),
{
    if rows.len() > 0 && 0 < rows[0] && rows[0] <= u32::MAX as i64 {
        Ok(rows[0] as u32)
    } else {
        Err(StoreError::MissingRowId)
    }
}

/// Why a listing row cannot be decoded, if it cannot: its time is unreadable.
pub open spec fn listing_fault(row: ListingRow) -> Option<StoreError> {
    if stored_time(row.lastupdate@) is None {
        Some(StoreError::BadTimestamp(row.id))
    } else {
        None
    }
}

/// Whether a listing is what a row decodes to.
pub open spec fn listing_of(row: ListingRow, listing: ConversationListing) -> bool {
    &&& listing.id == row.id
    &&& listing.title@ == row.title@
    &&& listing.usage == row.usage
    &&& stored_time(row.lastupdate@) == Some(listing.lastupdate)
}

/// Why a message row cannot be decoded, if it cannot: its role is none of the
/// three, or else its time is unreadable.
pub open spec fn message_fault(row: MessageRow) -> Option<StoreError> {
    if role_named(row.role@) is None {
        Some(StoreError::UnknownRole(row.id))
    } else if stored_time(row.updateat@) is None {
        Some(StoreError::BadTimestamp(row.id))
    } else {
        None
    }
}

/// Whether a saved message is what a row decodes to.
pub open spec fn saved_message_of(row: MessageRow, saved: SavedMessage) -> bool {
    &&& saved.id == row.id
    &&& saved.conversation_id == row.conversation_id
    &&& role_named(row.role@) == Some(saved.role)
    &&& saved.content@ == row.content@
    &&& saved.prompt_tokens == row.prompt_tokens
    &&& saved.completion_tokens == row.completion_tokens
    &&& stored_time(row.updateat@) == Some(saved.updateat)
}

/// Decodes one row of the listing.
pub fn decode_listing(row: &ListingRow) -> (listing: Result<ConversationListing, StoreError>)
    ensures
        listing is Err <==> listing_fault(*row) is Some,
        listing is Err ==> Some(listing->Err_0) == listing_fault(*row),
        listing is Ok ==> listing_of(*row, listing->Ok_0),
{
    match parse_stored_time(row.lastupdate.as_str()) {
        Some(seconds) => Ok(
            ConversationListing {
                id: row.id,
                title: row.title.clone(),
                usage: row.usage,
                lastupdate: seconds,
            },
        ),
        None => Err(StoreError::BadTimestamp(row.id)),
    }
}

/// Decodes one row of the message table. A role outside the closed
/// enumeration is an error, not a crash.
pub fn decode_message(row: &MessageRow) -> (saved: Result<SavedMessage, StoreError>)
    ensures
        saved is Err <==> message_fault(*row) is Some,
        saved is Err ==> Some(saved->Err_0) == message_fault(*row),
        saved is Ok ==> saved_message_of(*row, saved->Ok_0),
{
    let role = match MessageRole::from_name(row.role.as_str()) {
        Some(role) => role,
        None => {
            return Err(StoreError::UnknownRole(row.id));
        },
    };
    match parse_stored_time(row.updateat.as_str()) {
        Some(seconds) => Ok(
            SavedMessage {
                id: row.id,
                conversation_id: row.conversation_id,
                role,
                content: row.content.clone(),
                prompt_tokens: row.prompt_tokens,
                completion_tokens: row.completion_tokens,
                updateat: seconds,
            },
        ),
        None => Err(StoreError::BadTimestamp(row.id)),
    }
}

/// Decodes the rows of the listing in their order. The first row that cannot
/// be decoded decides the error.
pub fn decode_listings(rows: &Vec<ListingRow>) -> (listings: Result<
    Vec<ConversationListing>,
    StoreError,
>)
    ensures
        listings is Ok <==> forall|i: int| 0 <= i < rows@.len() ==> listing_fault(rows@[i]) is None,
        listings is Ok ==> listings->Ok_0@.len() == rows@.len() && forall|i: int|
            0 <= i < rows@.len() ==> listing_of(rows@[i], #[trigger] listings->Ok_0@[i]),
        listings is Err ==> exists|i: int|
            0 <= i < rows@.len() && listing_fault(rows@[i]) == Some(listings->Err_0) && forall|j: int|
                0 <= j < i ==> listing_fault(rows@[j]) is None,
{
    let mut listings: Vec<ConversationListing> = Vec::new();
    let mut next: usize = 0;
    while next < rows.len()
        invariant
            next <= rows@.len(),
            listings@.len() == next,
            forall|i: int| 0 <= i < next ==> listing_fault(rows@[i]) is None,
            forall|i: int| 0 <= i < next ==> listing_of(rows@[i], #[trigger] listings@[i]),
        decreases rows@.len() - next,
    {
        match decode_listing(&rows[next]) {
            Ok(listing) => {
                listings.push(listing);
            },
            Err(error) => {
                assert(listing_fault(rows@[next as int]) == Some(error));
                return Err(error);
            },
        }
        next = next + 1;
    }
    Ok(listings)
}

/// Decodes the rows of the message table in their order. The first row that
/// cannot be decoded decides the error.
pub fn decode_messages(rows: &Vec<MessageRow>) -> (messages: Result<Vec<SavedMessage>, StoreError>)
    ensures
        messages is Ok <==> forall|i: int| 0 <= i < rows@.len() ==> message_fault(rows@[i]) is None,
        messages is Ok ==> messages->Ok_0@.len() == rows@.len() && forall|i: int|
            0 <= i < rows@.len() ==> saved_message_of(rows@[i], #[trigger] messages->Ok_0@[i]),
        messages is Err ==> exists|i: int|
            0 <= i < rows@.len() && message_fault(rows@[i]) == Some(messages->Err_0) && forall|j: int|
                0 <= j < i ==> message_fault(rows@[j]) is None,
{
    let mut messages: Vec<SavedMessage> = Vec::new();
    let mut next: usize = 0;
    while next < rows.len()
        invariant
            next <= rows@.len(),
            messages@.len() == next,
            forall|i: int| 0 <= i < next ==> message_fault(rows@[i]) is None,
            forall|i: int| 0 <= i < next ==> saved_message_of(rows@[i], #[trigger] messages@[i]),
        decreases rows@.len() - next,
    {
        match decode_message(&rows[next]) {
            Ok(saved) => {
                messages.push(saved);
            },
            Err(error) => {
                assert(message_fault(rows@[next as int]) == Some(error));
                return Err(error);
            },
        }
        next = next + 1;
    }
    Ok(messages)
}

/// Runs an insert and maps the engine's error.
fn insert(conn: &rusqlite::Connection, sql: &str, params: &Vec<SqlParam>) -> (done: Result<
    usize,
    StoreError,
>)
    ensures
        done is Err ==> done->Err_0 is Engine,
{
    match execute(conn, sql, params) {
        Ok(changed) => Ok(changed),
        Err(error) => Err(StoreError::from_engine(&error)),
    }
}

impl SchemaV1 {
    /// Inserts a conversation with this title, owned by `key`, and returns the
    /// id that the store gave it.
    pub fn add_conversation(conn: &rusqlite::Connection, title: &str, key: &str) -> (id: Result<
        u32,
        StoreError,
    >)
        ensures
            id is Ok ==> id->Ok_0 > 0,
            id is Err ==> id->Err_0 is Engine || id->Err_0 is MissingRowId,
    {
        let params = conversation_insert(title, key);
        insert(conn, INSERT_CONVERSATION_SQL, &params)?;
        let none: Vec<String> = Vec::new();
        match query_integers(conn, LAST_ROW_ID_SQL, &none) {
            Ok(rows) => decode_row_id(&rows),
            Err(error) => Err(StoreError::from_engine(&error)),
        }
    }

    /// Lists the conversations owned by `key`, oldest activity first, as the
    /// store returns them.
    pub fn get_all_conversations(conn: &rusqlite::Connection, key: &str) -> (listings: Result<
        Vec<ConversationListing>,
        StoreError,
    >)
        ensures
            listings is Err ==> listings->Err_0 is Engine || listings->Err_0 is BadTimestamp,
    {
        match query_listing_rows(conn, LIST_CONVERSATIONS_SQL, key) {
            Ok(rows) => decode_listings(&rows),
            Err(error) => Err(StoreError::from_engine(&error)),
        }
    }

    /// Lists the messages of a conversation in the order of their creation,
    /// as the store returns them.
    pub fn get_all_messages_in_conversation(conn: &rusqlite::Connection, id: u32) -> (messages:
        Result<Vec<SavedMessage>, StoreError>)
        ensures
            messages is Err ==> messages->Err_0 is Engine || messages->Err_0 is UnknownRole
                || messages->Err_0 is BadTimestamp,
    {
        match query_message_rows(conn, LIST_MESSAGES_SQL, id) {
            Ok(rows) => decode_messages(&rows),
            Err(error) => Err(StoreError::from_engine(&error)),
        }
    }

    /// Appends a message of the user to a conversation. It carries no token
    /// counts.
    pub fn add_client_message(conn: &rusqlite::Connection, id: u32, msg: &str) -> (done: Result<
        usize,
        StoreError,
    >)
        ensures
            done is Err ==> done->Err_0 is Engine,
    {
        match message_insert(id, MessageRole::User, msg, 0, 0) {
            Ok(params) => insert(conn, INSERT_MESSAGE_SQL, &params),
            Err(error) => Err(error),
        }
    }

    /// Appends the reply of a completion to a conversation, with the role of
    /// its first choice and the token counts that came with it.
    pub fn add_server_message(conn: &rusqlite::Connection, id: u32, msg: &CompletionResponse) -> (done:
        Result<usize, StoreError>)
        requires
            msg.has_reply(),
        ensures
            token_refusal(msg.usage.prompt_tokens, msg.usage.completion_tokens) is Some ==> done
                == Err::<usize, StoreError>(
                token_refusal(msg.usage.prompt_tokens, msg.usage.completion_tokens)->0,
            ),
            token_refusal(msg.usage.prompt_tokens, msg.usage.completion_tokens) is None ==> (done
                is Err ==> done->Err_0 is Engine),
    {
        let reply = &msg.choices[0].message;
        match message_insert(
            id,
            reply.role,
            reply.content.as_str(),
            msg.usage.prompt_tokens,
            msg.usage.completion_tokens,
        ) {
            Ok(params) => insert(conn, INSERT_MESSAGE_SQL, &params),
            Err(error) => Err(error),
        }
    }

    /// Appends an entry to the error log: the key, the context that was about
    /// to be sent, the raw error, and the fields of a structured error where
    /// there is one.
    pub fn add_error_log(
        conn: &rusqlite::Connection,
        key: &str,
        context: &Vec<Message>,
        error: &str,
        openai_error: Option<&OpenAIError>,
    ) -> (done: Result<usize, StoreError>)
        ensures
            done is Err ==> done->Err_0 is Engine,
    {
        let params = error_log_insert(key, context, error, openai_error);
        insert(conn, INSERT_ERROR_SQL, &params)
    }
}


/// One row that a turn adds to the store.
#[derive(Debug)]
pub enum StoreWrite {
    /// A message of a conversation.
    Message {
        conversation_id: u32,
        role: MessageRole,
        content: String,
        prompt_tokens: u64,
        completion_tokens: u64,
    },
    /// An entry of the error log.
    ErrorLog { key: String, context: Vec<Message>, error: String, api_error: Option<OpenAIError> },
}

impl StoreWrite {
    /// The statement that carries out this write.
    pub open spec fn sql(&self) -> Seq<char> {
        match self {
            StoreWrite::Message { .. } => INSERT_MESSAGE_SQL@,
            StoreWrite::ErrorLog { .. } => INSERT_ERROR_SQL@,
        }
    }

    /// The values that this write binds, or the error that refuses it.
    pub open spec fn params(&self) -> Result<Seq<SqlParamView>, StoreError> {
        match self {
            StoreWrite::Message {
                conversation_id,
                role,
                content,
                prompt_tokens,
                completion_tokens,
            } => if *prompt_tokens > i64::MAX {
                Err(StoreError::TokenCountTooLarge(*prompt_tokens))
            } else if *completion_tokens > i64::MAX {
                Err(StoreError::TokenCountTooLarge(*completion_tokens))
            } else {
                Ok(
                    message_params(
                        *conversation_id,
                        *role,
                        content@,
                        *prompt_tokens,
                        *completion_tokens,
                    ),
                )
            },
            StoreWrite::ErrorLog { key, context, error, api_error } => Ok(
                error_log_params(key@, context@, error@, *api_error),
            ),
        }
    }

    /// The statement and the values of this write.
    pub fn statement(&self) -> (stated: Result<(&'static str, Vec<SqlParam>), StoreError>)
        ensures
            stated is Ok <==> self.params() is Ok,
            stated is Ok ==> stated->Ok_0.0@ == self.sql() && param_views(stated->Ok_0.1@)
                == self.params()->Ok_0,
            stated is Err ==> stated->Err_0 == self.params()->Err_0,
    {
        match self {
            StoreWrite::Message {
                conversation_id,
                role,
                content,
                prompt_tokens,
                completion_tokens,
            } => {
                match message_insert(
                    *conversation_id,
                    *role,
                    content.as_str(),
                    *prompt_tokens,
                    *completion_tokens,
                ) {
                    Ok(params) => Ok((INSERT_MESSAGE_SQL, params)),
                    Err(error) => Err(error),
                }
            },
            StoreWrite::ErrorLog { key, context, error, api_error } => {
                let params = error_log_insert(
                    key.as_str(),
                    context,
                    error.as_str(),
                    api_error.as_ref(),
                );
                Ok((INSERT_ERROR_SQL, params))
            },
        }
    }
}

/// Carries out one write. A write that is refused does not reach the engine;
/// any other failure is the engine's.
pub fn apply_write(conn: &rusqlite::Connection, write: &StoreWrite) -> (done: Result<
    usize,
    StoreError,
>)
    ensures
        write.params() is Err ==> done == Err::<usize, StoreError>(write.params()->Err_0),
        write.params() is Ok ==> (done is Err ==> done->Err_0 is Engine),
{
    match write.statement() {
        Ok((sql, params)) => insert(conn, sql, &params),
        Err(error) => Err(error),
    }
}

/// The error of the first write of a list that is refused, if one is.
pub open spec fn first_refusal(writes: Seq<StoreWrite>) -> Option<StoreError>
    decreases writes.len(),
{
    if writes.len() == 0 {
        None
    } else if writes[0].params() is Err {
        Some(writes[0].params()->Err_0)
    } else {
        first_refusal(writes.drop_first())
    }
}

/// No write of a list is refused exactly if each of them has its values.
pub proof fn lemma_first_refusal(writes: Seq<StoreWrite>)
    ensures
        first_refusal(writes) is None <==> forall|i: int|
            0 <= i < writes.len() ==> (#[trigger] writes[i]).params() is Ok,
    decreases writes.len(),
{
    if writes.len() > 0 {
        let rest = writes.drop_first();
        lemma_first_refusal(rest);
        if writes[0].params() is Ok {
            if first_refusal(rest) is None {
                assert forall|i: int| 0 <= i < writes.len() implies (#[trigger] writes[i]).params()
                    is Ok by {
                    if i > 0 {
                        assert(writes[i] == rest[i - 1]);
                    }
                }
            } else {
                let i = choose|i: int| 0 <= i < rest.len() && !((#[trigger] rest[i]).params() is Ok);
                assert(writes[i + 1] == rest[i]);
            }
        }
    }
}

/// Carries out a list of writes as a whole: the statement of every write is
/// made first, and only if none is refused the writes go to the engine, in
/// order, up to the first that the engine fails. So a list with a refused
/// write leaves the store as it was.
pub fn apply_writes(conn: &rusqlite::Connection, writes: &Vec<StoreWrite>) -> (done: Result<
    usize,
    StoreError,
>)
    ensures
        first_refusal(writes@) is Some ==> done == Err::<usize, StoreError>(
            first_refusal(writes@)->0,
        ),
        first_refusal(writes@) is None ==> (done is Err ==> done->Err_0 is Engine),
        done is Ok ==> done->Ok_0 == writes@.len(),
        writes@.len() == 0 ==> done is Ok,
{
    let mut statements: Vec<(&'static str, Vec<SqlParam>)> = Vec::new();
    let mut next: usize = 0;
    assert(writes@.subrange(0, writes@.len() as int) =~= writes@);
    while next < writes.len()
        invariant
            next <= writes@.len(),
            statements@.len() == next,
            first_refusal(writes@) == first_refusal(
                writes@.subrange(next as int, writes@.len() as int),
            ),
        decreases writes@.len() - next,
    {
        let ghost rest = writes@.subrange(next as int, writes@.len() as int);
        assert(rest[0] == writes@[next as int]);
        assert(rest.drop_first() =~= writes@.subrange(next + 1, writes@.len() as int));
        match writes[next].statement() {
            Ok(stated) => {
                statements.push(stated);
            },
            Err(error) => {
                return Err(error);
            },
        }
        next = next + 1;
    }
    let mut applied: usize = 0;
    while applied < statements.len()
        invariant
            applied <= statements@.len(),
            statements@.len() == writes@.len(),
            first_refusal(writes@) is None,
        decreases statements@.len() - applied,
    {
        insert(conn, statements[applied].0, &statements[applied].1)?;
        applied = applied + 1;
    }
    Ok(applied)
}

/// Inserts a conversation and returns its id. See
/// [`SchemaV1::add_conversation`].
pub fn add_conversation(conn: &rusqlite::Connection, title: &str, key: &str) -> (id: Result<
    u32,
    StoreError,
>)
    ensures
        id is Ok ==> id->Ok_0 > 0,
        id is Err ==> id->Err_0 is Engine || id->Err_0 is MissingRowId,
{
    SchemaV1::add_conversation(conn, title, key)
}

/// Lists the conversations owned by `key`. See
/// [`SchemaV1::get_all_conversations`].
pub fn get_all_conversations(conn: &rusqlite::Connection, key: &str) -> (listings: Result<
    Vec<ConversationListing>,
    StoreError,
>)
    ensures
        listings is Err ==> listings->Err_0 is Engine || listings->Err_0 is BadTimestamp,
{
    SchemaV1::get_all_conversations(conn, key)
}

/// Lists the messages of a conversation. See
/// [`SchemaV1::get_all_messages_in_conversation`].
pub fn get_all_messages_in_conversation(conn: &rusqlite::Connection, id: u32) -> (messages: Result<
    Vec<SavedMessage>,
    StoreError,
>)
    ensures
        messages is Err ==> messages->Err_0 is Engine || messages->Err_0 is UnknownRole
            || messages->Err_0 is BadTimestamp,
{
    SchemaV1::get_all_messages_in_conversation(conn, id)
}

/// Appends a message of the user. See [`SchemaV1::add_client_message`].
pub fn add_client_message(conn: &rusqlite::Connection, id: u32, msg: &str) -> (done: Result<
    usize,
    StoreError,
>)
    ensures
        done is Err ==> done->Err_0 is Engine,
{
    SchemaV1::add_client_message(conn, id, msg)
}

/// Appends the reply of a completion. See [`SchemaV1::add_server_message`].
pub fn add_server_message(conn: &rusqlite::Connection, id: u32, msg: &CompletionResponse) -> (done:
    Result<usize, StoreError>)
    requires
        msg.has_reply(),
    ensures
        token_refusal(msg.usage.prompt_tokens, msg.usage.completion_tokens) is Some ==> done
            == Err::<usize, StoreError>(
            token_refusal(msg.usage.prompt_tokens, msg.usage.completion_tokens)->0,
        ),
        token_refusal(msg.usage.prompt_tokens, msg.usage.completion_tokens) is None ==> (done
            is Err ==> done->Err_0 is Engine),
{
    SchemaV1::add_server_message(conn, id, msg)
}

} // verus!
