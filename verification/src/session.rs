//! The session controller: the decisions of an interactive session.
//!
//! A session chooses a conversation, and then runs turns. The caller reads
//! the lines, sends the request of a turn and hands back what came of it;
//! every decision in between is made here. A turn that succeeds adds the
//! prompt and the reply to the conversation; a turn that fails adds an entry
//! to the error log and leaves the conversation alone.

use vstd::prelude::*;
use vstd::string::*;
use crate::context::{build_context, context_of, lemma_kept_count};
use crate::error::StoreError;
use crate::json::{api_error_json, api_error_json_text};
use crate::schema::SchemaV1;
use crate::store::{apply_writes, first_refusal, lemma_first_refusal, StoreWrite};
use crate::text::{is_trimmed, lemma_trimmed, number_read, parse_number, trim, trimmed};
use crate::types::{
    message_views,
    CompletionResponse,
    Message,
    MessageRole,
    MessageView,
    OpenAIError,
    OpenAIResponse,
    SavedMessage,
};

verus! {

/// A conversation in progress: its id, its stored history and the prompt of
/// the current turn.
#[derive(Debug)]
pub struct ChatSession {
    pub conversation_id: u32,
    pub history: Vec<SavedMessage>,
    pub prompt: String,
}

/// What a session runs on: the budgets of a context, the credential, the
/// store, the proxy and model of the requests, and the session once there
/// is one.
pub struct ChatManager {
    pub max_token: u64,
    pub max_dialog: u64,
    pub api_key: String,
    pub connection: rusqlite::Connection,
    pub proxy: Option<String>,
    pub model: String,
    pub current_session: Option<ChatSession>,
}

/// What a line means while a conversation is being chosen.
#[derive(Debug)]
pub enum Choice {
    /// The line is empty: ask again.
    Again,
    /// The line is a number and no listed conversation has it: ask again.
    Unknown(u32),
    /// The line is the number of a listed conversation.
    Resume(u32),
    /// The line is a text: the title, and first prompt, of a new conversation.
    Create(String),
}

/// Whether a number is among the listed ids.
pub fn is_listed(known: &Vec<u32>, id: u32) -> (listed: bool)
    ensures
        listed == known@.contains(id),
{
    let mut next: usize = 0;
    while next < known.len()
        invariant
            next <= known@.len(),
            forall|i: int| 0 <= i < next ==> known@[i] != id,
        decreases known@.len() - next,
    {
        if known[next] == id {
            return true;
        }
        next = next + 1;
    }
    false
}

/// Decides what a line chooses. The line is trimmed first. A number chooses
/// the conversation with that id if it is listed, and nothing otherwise; any
/// other text that is not empty becomes a new conversation.
pub fn choose_conversation(known: &Vec<u32>, line: &str) -> (choice: Choice)
    ensures
        trimmed(line@).len() == 0 ==> choice is Again,
        trimmed(line@).len() > 0 ==> match number_read(trimmed(line@)) {
            Some(id) => if known@.contains(id) {
                choice == Choice::Resume(id)
            } else {
                choice == Choice::Unknown(id)
            },
            None => choice matches Choice::Create(title) && title@ == trimmed(line@),
        },
{
    let text = trim(line);
    if text.as_str().is_empty() {
        return Choice::Again;
    }
    match parse_number(text.as_str()) {
        Some(id) => if is_listed(known, id) {
            Choice::Resume(id)
        } else {
            Choice::Unknown(id)
        },
        None => Choice::Create(text),
    }
}

/// The name under which the author of a message is shown.
pub fn speaker(role: MessageRole) -> (name: &'static str)
    ensures
        name@ == match role {
            MessageRole::Assistant => "ChatGPT"@,
            MessageRole::User => "You"@,
            MessageRole::System => "System"@,
        },
{
    match role {
        MessageRole::Assistant => "ChatGPT",
        MessageRole::User => "You",
        MessageRole::System => "System",
    }
}

/// Opens the session that a choice asks for: the chosen conversation with its
/// stored history, or a new conversation under the given title. The text that
/// creates a conversation is also its first prompt: the session opens with it
/// and [`first_turn`] sends it. A choice that asks again opens nothing and
/// does not touch the store.
pub fn open_session(conn: &rusqlite::Connection, key: &str, choice: Choice) -> (opened: Result<
    Option<ChatSession>,
    StoreError,
>)
    ensures
        choice is Again || choice is Unknown ==> opened is Ok && opened->Ok_0 is None,
        opened is Ok && choice is Resume ==> opened->Ok_0 is Some
            && opened->Ok_0->0.conversation_id == choice->Resume_0 && opened->Ok_0->0.prompt@.len()
            == 0,
        opened is Ok && choice is Create ==> opened->Ok_0 is Some
            && opened->Ok_0->0.conversation_id > 0 && opened->Ok_0->0.history@.len() == 0
            && opened->Ok_0->0.prompt@ == choice->Create_0@,
        opened is Err && choice is Resume ==> opened->Err_0 is Engine || opened->Err_0
            is UnknownRole || opened->Err_0 is BadTimestamp,
        opened is Err && choice is Create ==> opened->Err_0 is Engine || opened->Err_0
            is MissingRowId,
{
    match choice {
        Choice::Again => Ok(None),
        Choice::Unknown(_) => Ok(None),
        Choice::Resume(id) => {
            let history = SchemaV1::get_all_messages_in_conversation(conn, id)?;
            Ok(Some(ChatSession { conversation_id: id, history, prompt: String::new() }))
        },
        Choice::Create(title) => {
            let id = SchemaV1::add_conversation(conn, title.as_str(), key)?;
            Ok(Some(ChatSession { conversation_id: id, history: Vec::new(), prompt: title }))
        },
    }
}

/// How a turn starts.
#[derive(Debug)]
pub enum TurnStart {
    /// The prompt is empty: nothing happens.
    Idle,
    /// The prompt is a command, given here without its slash. No command is
    /// known, so nothing is sent.
    Command(String),
    /// The prompt is to be sent with this context.
    Request(Vec<Message>),
}

/// Starts a turn from a line. The trimmed line becomes the prompt of the
/// session; the history stays as it is. An empty prompt starts nothing, a
/// prompt with a leading slash is a command, and any other prompt gets the
/// context that the budgets allow.
pub fn begin_turn(session: &mut ChatSession, line: &str, max_dialog: u64, max_token: u64) -> (start:
    TurnStart)
    ensures
        final(session).conversation_id == old(session).conversation_id,
        final(session).history == old(session).history,
        final(session).prompt@ == trimmed(line@),
        trimmed(line@).len() == 0 ==> start is Idle,
        trimmed(line@).len() > 0 && trimmed(line@)[0] == '/' ==> (start matches TurnStart::Command(
            name,
        ) && name@ == trimmed(line@).subrange(1, trimmed(line@).len() as int)),
        trimmed(line@).len() > 0 && trimmed(line@)[0] != '/' ==> (start matches TurnStart::Request(
            context,
        ) && message_views(context@) == context_of(
            old(session).history@,
            trimmed(line@),
            max_dialog as nat,
            max_token as nat,
        )),
{
    let prompt = trim(line);
    let length = prompt.as_str().unicode_len();
    let start = if length == 0 {
        TurnStart::Idle
    } else if prompt.as_str().get_char(0) == '/' {
        TurnStart::Command(prompt.as_str().substring_char(1, length).to_owned())
    } else {
        TurnStart::Request(build_context(&session.history, prompt.as_str(), max_dialog, max_token))
    };
    session.prompt = prompt;
    start
}

/// Starts the first turn of a session from the prompt that it was opened
/// with: the text that created the conversation, or nothing for a
/// conversation that was resumed. It is [`begin_turn`] on that prompt.
pub fn first_turn(session: &mut ChatSession, max_dialog: u64, max_token: u64) -> (start: TurnStart)
    ensures
        final(session).conversation_id == old(session).conversation_id,
        final(session).history == old(session).history,
        final(session).prompt@ == trimmed(old(session).prompt@),
        trimmed(old(session).prompt@).len() == 0 ==> start is Idle,
        trimmed(old(session).prompt@).len() > 0 && trimmed(old(session).prompt@)[0] == '/' ==> (
        start matches TurnStart::Command(name) && name@ == trimmed(old(session).prompt@).subrange(
            1,
            trimmed(old(session).prompt@).len() as int,
        )),
        trimmed(old(session).prompt@).len() > 0 && trimmed(old(session).prompt@)[0] != '/' ==> (
        start matches TurnStart::Request(context) && message_views(context@) == context_of(
            old(session).history@,
            trimmed(old(session).prompt@),
            max_dialog as nat,
            max_token as nat,
        )),
{
    let line = session.prompt.clone();
    begin_turn(session, line.as_str(), max_dialog, max_token)
}

/// What is logged and shown for a completion that holds no choice.
pub const NO_CHOICE: &'static str = "the completion holds no choice";

/// What a turn shows when it is over.
#[derive(Debug)]
pub enum TurnReport {
    /// The reply of the service, trimmed.
    Reply(String),
    /// The message of a structured error of the service.
    ApiError(String),
    /// The text of a failure of the request or of its parsing.
    Failure(String),
}

/// What a turn does to the store and what it shows.
#[derive(Debug)]
pub struct TurnPlan {
    /// The rows to add, in order.
    pub writes: Vec<StoreWrite>,
    /// Whether the history is read again from the store afterwards.
    pub reload: bool,
    pub report: TurnReport,
}

/// Whether a write is this message.
pub open spec fn writes_message(
    write: StoreWrite,
    id: u32,
    author: MessageRole,
    text: Seq<char>,
    prompt_count: u64,
    completion_count: u64,
) -> bool {
    write matches StoreWrite::Message {
        conversation_id,
        role,
        content,
        prompt_tokens,
        completion_tokens,
    } && conversation_id == id && role == author && content@ == text && prompt_tokens
        == prompt_count && completion_tokens == completion_count
}

/// Whether a plan is that of a successful turn: it adds the prompt as a
/// message of the user, without token counts, and then the reply with the
/// counts that came with it; it reads the history again and shows the reply.
pub open spec fn plans_exchange(
    plan: TurnPlan,
    id: u32,
    prompt: Seq<char>,
    completion: CompletionResponse,
) -> bool {
    &&& plan.reload
    &&& plan.writes@.len() == 2
    &&& writes_message(plan.writes@[0], id, MessageRole::User, prompt, 0, 0)
    &&& writes_message(
        plan.writes@[1],
        id,
        completion.reply().role,
        completion.reply().content,
        completion.usage.prompt_tokens,
        completion.usage.completion_tokens,
    )
    &&& plan.report matches TurnReport::Reply(text) && text@ == trimmed(completion.reply().content)
}

/// Whether a plan is that of a failed turn: its one write is an entry of the
/// error log with this key, context, raw error and structured error, and the
/// history is not read again.
pub open spec fn plans_error_log(
    plan: TurnPlan,
    owner: Seq<char>,
    sent: Vec<Message>,
    raw: Seq<char>,
    structured: Option<OpenAIError>,
) -> bool {
    &&& !plan.reload
    &&& plan.writes@.len() == 1
    &&& plan.writes@[0] matches StoreWrite::ErrorLog { key, context, error, api_error }
    &&& key@ == owner
    &&& context == sent
    &&& error@ == raw
    &&& api_error == structured
}

/// Plans the end of a turn from what came of its request.
///
/// A completion with a reply is persisted as a pair: the prompt, then the
/// reply. Everything else persists no message. A structured error is logged
/// with its fields and its JSON text; a failed or unreadable request is
/// logged with its text; a completion without a choice is logged as such.
pub fn plan_turn(
    conversation_id: u32,
    prompt: &str,
    api_key: &str,
    context: Vec<Message>,
    outcome: Result<OpenAIResponse, String>,
) -> (plan: TurnPlan)
    ensures
        match outcome {
            Ok(OpenAIResponse::Success(completion)) => if completion.has_reply() {
                plans_exchange(plan, conversation_id, prompt@, completion)
            } else {
                &&& plans_error_log(plan, api_key@, context, NO_CHOICE@, None)
                &&& plan.report matches TurnReport::Failure(text) && text@ == NO_CHOICE@
            },
            Ok(OpenAIResponse::Failure(failure)) => {
                &&& plans_error_log(
                    plan,
                    api_key@,
                    context,
                    api_error_json_text(failure),
                    Some(failure),
                )
                &&& plan.report matches TurnReport::ApiError(text) && text@
                    == failure.error.message@
            },
            Err(words) => {
                &&& plans_error_log(plan, api_key@, context, words@, None)
                &&& plan.report matches TurnReport::Failure(text) && text@ == words@
            },
        },
{
    match outcome {
        Ok(OpenAIResponse::Success(completion)) => {
            if completion.choices.len() > 0 {
                let reply = &completion.choices[0].message;
                let writes = vec![
                    StoreWrite::Message {
                        conversation_id,
                        role: MessageRole::User,
                        content: prompt.to_owned(),
                        prompt_tokens: 0,
                        completion_tokens: 0,
                    },
                    StoreWrite::Message {
                        conversation_id,
                        role: reply.role,
                        content: reply.content.clone(),
                        prompt_tokens: completion.usage.prompt_tokens,
                        completion_tokens: completion.usage.completion_tokens,
                    },
                ];
                let shown = trim(reply.content.as_str());
                TurnPlan { writes, reload: true, report: TurnReport::Reply(shown) }
            } else {
                let writes = vec![
                    StoreWrite::ErrorLog {
                        key: api_key.to_owned(),
                        context,
                        error: String::from_str(NO_CHOICE),
                        api_error: None,
                    },
                ];
                TurnPlan {
                    writes,
                    reload: false,
                    report: TurnReport::Failure(String::from_str(NO_CHOICE)),
                }
            }
        },
        Ok(OpenAIResponse::Failure(failure)) => {
            let shown = failure.error.message.clone();
            let raw = api_error_json(&failure);
            let writes = vec![
                StoreWrite::ErrorLog {
                    key: api_key.to_owned(),
                    context,
                    error: raw,
                    api_error: Some(failure),
                },
            ];
            TurnPlan { writes, reload: false, report: TurnReport::ApiError(shown) }
        },
        Err(words) => {
            let shown = words.clone();
            let writes = vec![
                StoreWrite::ErrorLog {
                    key: api_key.to_owned(),
                    context,
                    error: words,
                    api_error: None,
                },
            ];
            TurnPlan { writes, reload: false, report: TurnReport::Failure(shown) }
        },
    }
}

/// Carries out the plan of a turn: adds its rows, reads the history again
/// where the plan says so, and gives the report.
///
/// The rows are added as a whole: if one of them is refused, none reaches the
/// store, and the turn ends with that refusal. Any other failure is the
/// store's, and a failed write of the error log is such a failure. The
/// history of the session changes only where the plan reads it again and the
/// store answers.
pub fn conclude_turn(conn: &rusqlite::Connection, session: &mut ChatSession, plan: TurnPlan) -> (done:
    Result<TurnReport, StoreError>)
    ensures
        final(session).conversation_id == old(session).conversation_id,
        final(session).prompt == old(session).prompt,
        !plan.reload || done is Err ==> final(session).history == old(session).history,
        done is Ok ==> done->Ok_0 == plan.report,
        first_refusal(plan.writes@) is Some ==> done == Err::<TurnReport, StoreError>(
            first_refusal(plan.writes@)->0,
        ),
        first_refusal(plan.writes@) is None && done is Err ==> done->Err_0 is Engine || (plan.reload
            && (done->Err_0 is UnknownRole || done->Err_0 is BadTimestamp)),
        (forall|i: int| 0 <= i < plan.writes@.len() ==> (#[trigger] plan.writes@[i]).params() is Ok)
            && !plan.reload ==> (done is Err ==> done->Err_0 is Engine),
        done is Ok ==> forall|i: int|
            0 <= i < plan.writes@.len() ==> (#[trigger] plan.writes@[i]).params() is Ok,
        plan.writes@.len() == 0 && !plan.reload ==> done is Ok,
{
    proof {
        lemma_first_refusal(plan.writes@);
    }
    let TurnPlan { writes, reload, report } = plan;
    match apply_writes(conn, &writes) {
        Ok(_) => {},
        Err(error) => {
            return Err(error);
        },
    }
    if reload {
        match SchemaV1::get_all_messages_in_conversation(conn, session.conversation_id) {
            Ok(history) => {
                session.history = history;
            },
            Err(error) => {
                return Err(error);
            },
        }
    }
    Ok(report)
}

/// Where a session stands.
#[derive(Clone, Copy, Debug, PartialEq, Eq, Structural)]
pub enum Phase {
    /// Nothing is known of the store yet.
    Uninitialized,
    /// The schema is at its latest version; no conversation is chosen.
    SchemaConverged,
    /// A conversation is chosen and its first turn has not begun.
    ConversationChosen,
    /// A turn is over and no request is under way.
    TurnIdle,
    /// A request is under way.
    TurnInFlight,
}

/// What moves a session on.
#[derive(Clone, Copy, Debug, PartialEq, Eq, Structural)]
pub enum Event {
    /// The schema converged.
    Converged,
    /// A line opened nothing: it was empty or named no listed conversation.
    NothingChosen,
    /// A line chose or created a conversation.
    ConversationOpened,
    /// A prompt was empty or a command: nothing is sent.
    PromptSkipped,
    /// A prompt was sent.
    RequestSent,
    /// The request under way came to an end: answered, failed or cancelled.
    TurnEnded,
}

/// The phase after an event, or `None` where the event has no place in the
/// phase. In particular no request is sent while one is under way, and none
/// before a conversation is chosen. The first turn of a chosen conversation
/// starts like any other: with a request, or with nothing to send.
pub open spec fn phase_after(phase: Phase, event: Event) -> Option<Phase> {
    match (phase, event) {
        (Phase::Uninitialized, Event::Converged) => Some(Phase::SchemaConverged),
        (Phase::SchemaConverged, Event::NothingChosen) => Some(Phase::SchemaConverged),
        (Phase::SchemaConverged, Event::ConversationOpened) => Some(Phase::ConversationChosen),
        (Phase::ConversationChosen, Event::PromptSkipped) => Some(Phase::TurnIdle),
        (Phase::ConversationChosen, Event::RequestSent) => Some(Phase::TurnInFlight),
        (Phase::TurnIdle, Event::PromptSkipped) => Some(Phase::TurnIdle),
        (Phase::TurnIdle, Event::RequestSent) => Some(Phase::TurnInFlight),
        (Phase::TurnInFlight, Event::TurnEnded) => Some(Phase::TurnIdle),
        _ => None,
    }
}

/// Moves a session on by one event.
pub fn advance(phase: Phase, event: Event) -> (next: Option<Phase>)
    ensures
        next == phase_after(phase, event),
{
    match (phase, event) {
        (Phase::Uninitialized, Event::Converged) => Some(Phase::SchemaConverged),
        (Phase::SchemaConverged, Event::NothingChosen) => Some(Phase::SchemaConverged),
        (Phase::SchemaConverged, Event::ConversationOpened) => Some(Phase::ConversationChosen),
        (Phase::ConversationChosen, Event::PromptSkipped) => Some(Phase::TurnIdle),
        (Phase::ConversationChosen, Event::RequestSent) => Some(Phase::TurnInFlight),
        (Phase::TurnIdle, Event::PromptSkipped) => Some(Phase::TurnIdle),
        (Phase::TurnIdle, Event::RequestSent) => Some(Phase::TurnInFlight),
        (Phase::TurnInFlight, Event::TurnEnded) => Some(Phase::TurnIdle),
        _ => None,
    }
}

impl Choice {
    /// The event that this choice is for a session.
    pub fn event(&self) -> (event: Event)
        ensures
            event == if *self is Again || *self is Unknown {
                Event::NothingChosen
            } else {
                Event::ConversationOpened
            },
    {
        match self {
            Choice::Again => Event::NothingChosen,
            Choice::Unknown(_) => Event::NothingChosen,
            Choice::Resume(_) => Event::ConversationOpened,
            Choice::Create(_) => Event::ConversationOpened,
        }
    }
}

impl TurnStart {
    /// The event that this start of a turn is for a session.
    pub fn event(&self) -> (event: Event)
        ensures
            event == if *self is Request {
                Event::RequestSent
            } else {
                Event::PromptSkipped
            },
    {
        match self {
            TurnStart::Idle => Event::PromptSkipped,
            TurnStart::Command(_) => Event::PromptSkipped,
            TurnStart::Request(_) => Event::RequestSent,
        }
    }
}

/// A request is under way only between its sending and its end: sending is
/// possible only once a conversation is chosen and no request is under way,
/// it leads to the phase in flight, and the only way on from there is the end
/// of the turn, which leads to the idle phase. So no second request is sent
/// before the first has come to an end.
pub proof fn lemma_one_turn_in_flight(phase: Phase, event: Event)
    ensures
        phase_after(phase, Event::RequestSent) is Some <==> phase == Phase::TurnIdle || phase
            == Phase::ConversationChosen,
        phase_after(phase, event) == Some(Phase::TurnInFlight) <==> (phase == Phase::TurnIdle
            || phase == Phase::ConversationChosen) && event == Event::RequestSent,
        phase_after(Phase::TurnInFlight, event) is Some <==> event == Event::TurnEnded,
        phase_after(Phase::TurnInFlight, Event::TurnEnded) == Some(Phase::TurnIdle),
        phase_after(phase, Event::PromptSkipped) is Some ==> phase_after(
            phase,
            Event::PromptSkipped,
        ) == Some(Phase::TurnIdle),
        phase_after(phase, event) == Some(Phase::ConversationChosen) <==> phase
            == Phase::SchemaConverged && event == Event::ConversationOpened,
{
}

/// The text that creates a conversation is its first turn: a session opened
/// for a text `title` that is trimmed, not empty and no command starts its
/// first turn with a request whose context is that text alone, as a message
/// of the user.
pub proof fn lemma_title_is_first_prompt(title: Seq<char>, max_messages: nat, max_tokens: nat)
    requires
        is_trimmed(title),
    ensures
        trimmed(title) == title,
        context_of(Seq::<SavedMessage>::empty(), trimmed(title), max_messages, max_tokens) == seq![
            MessageView { role: MessageRole::User, content: title },
        ],
{
    lemma_trimmed(title);
    lemma_kept_count(Seq::<SavedMessage>::empty(), max_messages, max_tokens);
    assert(context_of(Seq::<SavedMessage>::empty(), title, max_messages, max_tokens) =~= seq![
        MessageView { role: MessageRole::User, content: title },
    ]);
}

} // verus!
