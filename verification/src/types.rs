//! The values that the library exchanges with the completion service and
//! reads back from the store.

use vstd::prelude::*;

verus! {

/// Who authored a message. The enumeration is closed: a stored role outside
/// these three is a decoding error, never a fourth case.
#[derive(Clone, Copy, Debug, PartialEq, Eq, Structural)]
pub enum MessageRole {
    Assistant,
    User,
    System,
}

/// The lower-case name under which a role is stored and sent.
pub open spec fn role_name(role: MessageRole) -> Seq<char> {
    match role {
        MessageRole::Assistant => "assistant"@,
        MessageRole::User => "user"@,
        MessageRole::System => "system"@,
    }
}

/// The role that a stored name stands for, if it is one of the three.
pub open spec fn role_named(name: Seq<char>) -> Option<MessageRole> {
    if name == "assistant"@ {
        Some(MessageRole::Assistant)
    } else if name == "user"@ {
        Some(MessageRole::User)
    } else if name == "system"@ {
        Some(MessageRole::System)
    } else {
        None
    }
}

/// The three names are pairwise distinct, so a role is found again from its
/// name.
pub proof fn lemma_role_name_round_trip(role: MessageRole)
    ensures
        role_named(role_name(role)) == Some(role),
{
    reveal_strlit("assistant");
    reveal_strlit("user");
    reveal_strlit("system");
    assert("assistant"@.len() == 9);
    assert("user"@.len() == 4);
    assert("system"@.len() == 6);
}

impl MessageRole {
    /// The name of this role.
    pub fn name(&self) -> (text: &'static str)
        ensures
            text@ == role_name(*self),
    {
        match self {
            MessageRole::Assistant => "assistant",
            MessageRole::User => "user",
            MessageRole::System => "system",
        }
    }

    /// Decodes a stored role name. Any name but the three known ones is
    /// rejected.
    pub fn from_name(text: &str) -> (role: Option<MessageRole>)
        ensures
            role == role_named(text@),
    {
        if text_eq(text, "assistant") {
            Some(MessageRole::Assistant)
        } else if text_eq(text, "user") {
            Some(MessageRole::User)
        } else if text_eq(text, "system") {
            Some(MessageRole::System)
        } else {
            None
        }
    }
}

/// Whether two string slices hold the same characters.
pub fn text_eq(left: &str, right: &str) -> (same: bool)
    ensures
        same == (left@ == right@),
{
    let a = left.to_owned();
    let b = right.to_owned();
    a == b
}

/// A message as it is exchanged with the completion service.
#[derive(Debug)]
pub struct Message {
    pub role: MessageRole,
    pub content: String,
}

/// The mathematical content of a [`Message`].
pub struct MessageView {
    pub role: MessageRole,
    pub content: Seq<char>,
}

impl View for Message {
    type V = MessageView;

    open spec fn view(&self) -> MessageView {
        MessageView { role: self.role, content: self.content@ }
    }
}

impl Message {
    /// A copy with the same role and content.
    pub fn duplicate(&self) -> (copy: Message)
        ensures
            copy@ == self@,
    {
        Message { role: self.role, content: self.content.clone() }
    }
}

/// The views of a sequence of messages, element by element.
pub open spec fn message_views(messages: Seq<Message>) -> Seq<MessageView> {
    messages.map_values(|m: Message| m@)
}

/// Token accounting that the completion service returns with a reply.
#[derive(Clone, Copy, Debug, PartialEq, Eq, Structural)]
pub struct TokenUsage {
    pub prompt_tokens: u64,
    pub completion_tokens: u64,
    pub total_tokens: u64,
}

/// One alternative reply inside a completion.
#[derive(Debug)]
pub struct ResponseChoice {
    pub index: u64,
    pub finish_reason: Option<String>,
    pub message: Message,
}

/// The body of a completion request.
#[derive(Debug)]
pub struct CompletionRequest {
    pub model: String,
    pub messages: Vec<Message>,
}

/// A successful completion.
#[derive(Debug)]
pub struct CompletionResponse {
    pub id: String,
    pub object: String,
    pub created: u64,
    pub model: String,
    pub usage: TokenUsage,
    pub choices: Vec<ResponseChoice>,
}

impl CompletionResponse {
    /// Whether the completion carries a reply at all.
    pub open spec fn has_reply(&self) -> bool {
        self.choices@.len() > 0
    }

    /// The message of the first choice.
    pub open spec fn reply(&self) -> MessageView {
        self.choices@[0].message@
    }

    /// The text of the first choice.
    pub fn msg(&self) -> (text: String)
        requires
            self.has_reply(),
        ensures
            text@ == self.reply().content,
    {
        self.choices[0].message.content.clone()
    }

    /// Whether this value is the marker that stands for a failed request.
    pub fn error(&self) -> (marked: bool)
        ensures
            marked == (self.id@ == "Request error"@),
    {
        text_eq(self.id.as_str(), "Request error")
    }
}

/// The fields of a structured error of the completion service.
#[derive(Debug)]
pub struct CompletionError {
    pub message: String,
    pub kind: String,
    pub param: Option<String>,
    pub code: String,
}

/// A structured error payload.
#[derive(Debug)]
pub struct OpenAIError {
    pub error: CompletionError,
}

/// What the completion service answered: a completion or a structured error.
#[derive(Debug)]
pub enum OpenAIResponse {
    Success(CompletionResponse),
    Failure(OpenAIError),
}

/// One line of the conversation listing: a conversation with its total token
/// usage and the time of its latest activity, in seconds since the epoch.
#[derive(Debug)]
pub struct ConversationListing {
    pub id: u32,
    pub title: String,
    pub usage: u64,
    pub lastupdate: i64,
}

/// A message as it is read back from the store.
#[derive(Debug)]
pub struct SavedMessage {
    pub id: u32,
    pub conversation_id: u32,
    pub role: MessageRole,
    pub content: String,
    pub prompt_tokens: u64,
    pub completion_tokens: u64,
    pub updateat: i64,
}

impl SavedMessage {
    /// The message that this row is sent as: its role and content.
    pub open spec fn message(&self) -> MessageView {
        MessageView { role: self.role, content: self.content@ }
    }
}

} // verus!
