use chatgpt_player::error::StoreError;
use chatgpt_player::schema::init_schemas;
use chatgpt_player::session::{
    advance, begin_turn, choose_conversation, conclude_turn, first_turn, is_listed, open_session,
    plan_turn, speaker, ChatSession, Choice, Event, Phase, TurnReport, TurnStart,
};
use chatgpt_player::store::{
    add_conversation, get_all_conversations, get_all_messages_in_conversation, StoreWrite,
};
use chatgpt_player::types::{
    CompletionError, CompletionResponse, Message, MessageRole, OpenAIError, OpenAIResponse,
    ResponseChoice, TokenUsage,
};
use rusqlite::Connection;

fn memory_store() -> Connection {
    let conn = Connection::open_in_memory().unwrap();
    init_schemas(&conn).unwrap();
    conn
}

fn completion(choices: Vec<(&str, MessageRole)>, prompt_tokens: u64, completion_tokens: u64) -> CompletionResponse {
    CompletionResponse {
        id: "chatcmpl-1".to_string(),
        object: "chat.completion".to_string(),
        created: 1,
        model: "gpt-3.5-turbo".to_string(),
        usage: TokenUsage {
            prompt_tokens,
            completion_tokens,
            total_tokens: prompt_tokens + completion_tokens,
        },
        choices: choices
            .into_iter()
            .enumerate()
            .map(|(index, (text, role))| ResponseChoice {
                index: index as u64,
                finish_reason: None,
                message: Message { role, content: text.to_string() },
            })
            .collect(),
    }
}

fn rate_limited() -> OpenAIError {
    OpenAIError {
        error: CompletionError {
            message: "rate limited".to_string(),
            kind: "rate_limit".to_string(),
            param: None,
            code: "429".to_string(),
        },
    }
}

fn context_of(prompt: &str) -> Vec<Message> {
    vec![Message { role: MessageRole::User, content: prompt.to_string() }]
}

fn session_of(conn: &Connection, key: &str, title: &str) -> ChatSession {
    open_session(conn, key, Choice::Create(title.to_string())).unwrap().unwrap()
}

fn error_rows(conn: &Connection) -> i64 {
    conn.query_row("SELECT COUNT(*) FROM error", [], |row| row.get(0)).unwrap()
}

#[test]
fn a_line_chooses_a_conversation() {
    let known = vec![1, 4, 7];
    assert!(matches!(choose_conversation(&known, ""), Choice::Again));
    assert!(matches!(choose_conversation(&known, "  \t\n"), Choice::Again));
    assert!(matches!(choose_conversation(&known, "4\n"), Choice::Resume(4)));
    assert!(matches!(choose_conversation(&known, " +7 "), Choice::Resume(7)));
    assert!(matches!(choose_conversation(&known, "007"), Choice::Resume(7)));
    assert!(matches!(choose_conversation(&known, "5"), Choice::Unknown(5)));
    assert!(matches!(choose_conversation(&known, "0"), Choice::Unknown(0)));
    assert!(matches!(choose_conversation(&Vec::new(), "1"), Choice::Unknown(1)));
    assert!(matches!(choose_conversation(&known, "4294967295"), Choice::Unknown(u32::MAX)));
    for text in ["4294967296", "-4", "4 7", "4.0", "four", "+", "1e3", "99999999999999999999999"] {
        match choose_conversation(&known, &format!(" {} \n", text)) {
            Choice::Create(title) => assert_eq!(title, text),
            other => panic!("{:?}", other),
        }
    }
    assert!(is_listed(&known, 7));
    assert!(!is_listed(&known, 2));
}

#[test]
fn speakers_have_their_names() {
    assert_eq!(speaker(MessageRole::Assistant), "ChatGPT");
    assert_eq!(speaker(MessageRole::User), "You");
    assert_eq!(speaker(MessageRole::System), "System");
}

#[test]
fn a_choice_opens_a_session() {
    let conn = memory_store();
    assert!(open_session(&conn, "k1", Choice::Again).unwrap().is_none());
    assert!(open_session(&conn, "k1", Choice::Unknown(3)).unwrap().is_none());
    assert!(get_all_conversations(&conn, "k1").unwrap().is_empty());
    let created = session_of(&conn, "k1", "a long first prompt, kept whole as the title");
    assert_eq!(created.conversation_id, 1);
    assert!(created.history.is_empty());
    assert_eq!(created.prompt, "a long first prompt, kept whole as the title");
    let listed = get_all_conversations(&conn, "k1").unwrap();
    assert_eq!(listed[0].title, "a long first prompt, kept whole as the title");
    let mut session = created;
    let plan = plan_turn(1, "hello", "k1", context_of("hello"), Ok(OpenAIResponse::Success(
        completion(vec![("hi", MessageRole::Assistant)], 1, 1),
    )));
    conclude_turn(&conn, &mut session, plan).unwrap();
    let resumed = open_session(&conn, "k1", Choice::Resume(1)).unwrap().unwrap();
    assert_eq!(resumed.conversation_id, 1);
    assert_eq!(resumed.history.len(), 2);
    assert_eq!(resumed.history[1].content, "hi");
    assert_eq!(resumed.prompt, "");
}

#[test]
fn an_empty_prompt_starts_nothing() {
    let conn = memory_store();
    let mut session = session_of(&conn, "k1", "t");
    assert!(matches!(begin_turn(&mut session, "   \n", 32, 3800), TurnStart::Idle));
    assert_eq!(session.prompt, "");
    assert!(get_all_messages_in_conversation(&conn, 1).unwrap().is_empty());
    assert_eq!(error_rows(&conn), 0);
}

#[test]
fn a_slash_makes_a_command() {
    let conn = memory_store();
    let mut session = session_of(&conn, "k1", "t");
    match begin_turn(&mut session, " /help me \n", 32, 3800) {
        TurnStart::Command(name) => assert_eq!(name, "help me"),
        other => panic!("{:?}", other),
    }
    assert_eq!(session.prompt, "/help me");
    match begin_turn(&mut session, "/", 32, 3800) {
        TurnStart::Command(name) => assert_eq!(name, ""),
        other => panic!("{:?}", other),
    }
}

#[test]
fn a_prompt_gets_its_context() {
    let conn = memory_store();
    let mut session = session_of(&conn, "k1", "t");
    let first = plan_turn(1, "one", "k1", context_of("one"), Ok(OpenAIResponse::Success(
        completion(vec![("two", MessageRole::Assistant)], 1, 1),
    )));
    conclude_turn(&conn, &mut session, first).unwrap();
    match begin_turn(&mut session, "  three \n", 32, 3800) {
        TurnStart::Request(context) => {
            let texts: Vec<&str> = context.iter().map(|m| m.content.as_str()).collect();
            assert_eq!(texts, vec!["one", "two", "three"]);
            assert_eq!(context[1].role, MessageRole::Assistant);
            assert_eq!(context[2].role, MessageRole::User);
        }
        other => panic!("{:?}", other),
    }
    assert_eq!(session.prompt, "three");
    assert_eq!(session.history.len(), 2);
    match begin_turn(&mut session, "four", 0, 3800) {
        TurnStart::Request(context) => assert_eq!(context.len(), 2),
        other => panic!("{:?}", other),
    }
}

#[test]
fn a_successful_turn_adds_the_pair() {
    let conn = memory_store();
    let mut session = session_of(&conn, "k1", "hello");
    let before = get_all_messages_in_conversation(&conn, 1).unwrap().len();
    let plan = plan_turn(
        1,
        "hello",
        "k1",
        context_of("hello"),
        Ok(OpenAIResponse::Success(completion(
            vec![("  general kenobi \n", MessageRole::Assistant), ("other", MessageRole::User)],
            5,
            7,
        ))),
    );
    assert!(plan.reload);
    assert_eq!(plan.writes.len(), 2);
    assert!(matches!(
        &plan.writes[0],
        StoreWrite::Message { conversation_id: 1, role: MessageRole::User, content, prompt_tokens: 0, completion_tokens: 0 }
            if content == "hello"
    ));
    assert!(matches!(
        &plan.writes[1],
        StoreWrite::Message { conversation_id: 1, role: MessageRole::Assistant, content, prompt_tokens: 5, completion_tokens: 7 }
            if content == "  general kenobi \n"
    ));
    match conclude_turn(&conn, &mut session, plan).unwrap() {
        TurnReport::Reply(text) => assert_eq!(text, "general kenobi"),
        other => panic!("{:?}", other),
    }
    let after = get_all_messages_in_conversation(&conn, 1).unwrap();
    assert_eq!(after.len(), before + 2);
    assert_eq!(session.history.len(), 2);
    assert_eq!(session.history[0].content, "hello");
    assert_eq!(session.history[0].role, MessageRole::User);
    assert_eq!(session.history[1].content, "general kenobi");
    assert_eq!(session.history[1].role, MessageRole::Assistant);
    assert_eq!(get_all_conversations(&conn, "k1").unwrap()[0].usage, 12);
    assert_eq!(error_rows(&conn), 0);
}

#[test]
fn a_structured_error_is_logged_and_nothing_is_persisted() {
    let conn = memory_store();
    let mut session = session_of(&conn, "k1", "hello");
    let plan = plan_turn(1, "hello", "k1", context_of("hello"), Ok(OpenAIResponse::Failure(rate_limited())));
    assert!(!plan.reload);
    assert_eq!(plan.writes.len(), 1);
    match &plan.writes[0] {
        StoreWrite::ErrorLog { key, context, error, api_error } => {
            assert_eq!(key, "k1");
            assert_eq!(context.len(), 1);
            assert_eq!(
                error,
                "{\"error\":{\"code\":\"429\",\"message\":\"rate limited\",\"param\":null,\"type\":\"rate_limit\"}}"
            );
            assert_eq!(api_error.as_ref().unwrap().error.code, "429");
        }
        other => panic!("{:?}", other),
    }
    match conclude_turn(&conn, &mut session, plan).unwrap() {
        TurnReport::ApiError(text) => assert_eq!(text, "rate limited"),
        other => panic!("{:?}", other),
    }
    assert!(get_all_messages_in_conversation(&conn, 1).unwrap().is_empty());
    assert!(session.history.is_empty());
    let row: (String, String, String, String, Option<String>) = conn
        .query_row("SELECT key, message, type, code, param FROM error", [], |r| {
            Ok((r.get(0)?, r.get(1)?, r.get(2)?, r.get(3)?, r.get(4)?))
        })
        .unwrap();
    assert_eq!(row.0, "k1");
    assert_eq!(row.1, "rate limited");
    assert_eq!(row.2, "rate_limit");
    assert_eq!(row.3, "429");
    assert!(row.4.is_none());
    assert_eq!(error_rows(&conn), 1);
}

#[test]
fn a_failed_request_is_logged_with_its_text() {
    let conn = memory_store();
    let mut session = session_of(&conn, "k1", "hello");
    let plan = plan_turn(1, "hello", "k1", context_of("hello"), Err("connection reset".to_string()));
    match conclude_turn(&conn, &mut session, plan).unwrap() {
        TurnReport::Failure(text) => assert_eq!(text, "connection reset"),
        other => panic!("{:?}", other),
    }
    assert!(get_all_messages_in_conversation(&conn, 1).unwrap().is_empty());
    let row: (String, String, Option<String>) = conn
        .query_row("SELECT context, error, message FROM error", [], |r| {
            Ok((r.get(0)?, r.get(1)?, r.get(2)?))
        })
        .unwrap();
    assert_eq!(row.0, "[{\"role\":\"user\",\"content\":\"hello\"}]");
    assert_eq!(row.1, "connection reset");
    assert!(row.2.is_none());
}

#[test]
fn a_completion_without_a_choice_is_a_failed_turn() {
    let conn = memory_store();
    let mut session = session_of(&conn, "k1", "hello");
    let plan = plan_turn(1, "hello", "k1", context_of("hello"), Ok(OpenAIResponse::Success(
        completion(Vec::new(), 1, 1),
    )));
    assert!(matches!(conclude_turn(&conn, &mut session, plan).unwrap(), TurnReport::Failure(_)));
    assert!(get_all_messages_in_conversation(&conn, 1).unwrap().is_empty());
    assert_eq!(error_rows(&conn), 1);
}

#[test]
fn a_failing_log_write_is_an_error_of_its_own() {
    let conn = memory_store();
    let mut session = session_of(&conn, "k1", "hello");
    conn.execute("DROP TABLE error", []).unwrap();
    let plan = plan_turn(1, "hello", "k1", context_of("hello"), Err("timeout".to_string()));
    assert!(matches!(conclude_turn(&conn, &mut session, plan), Err(StoreError::Engine(_))));
    assert!(session.history.is_empty());
}

#[test]
fn a_refused_reply_fails_the_turn() {
    let conn = memory_store();
    let mut session = session_of(&conn, "k1", "hello");
    let plan = plan_turn(1, "hello", "k1", context_of("hello"), Ok(OpenAIResponse::Success(
        completion(vec![("hi", MessageRole::Assistant)], u64::MAX, 0),
    )));
    assert!(matches!(
        conclude_turn(&conn, &mut session, plan),
        Err(StoreError::TokenCountTooLarge(u64::MAX))
    ));
    assert!(session.history.is_empty());
    assert!(get_all_messages_in_conversation(&conn, 1).unwrap().is_empty());
    assert_eq!(error_rows(&conn), 0);
}

#[test]
fn the_text_that_creates_a_conversation_is_its_first_turn() {
    let conn = memory_store();
    let choice = choose_conversation(&Vec::new(), "  tell me a story \n");
    assert_eq!(choice.event(), Event::ConversationOpened);
    let mut session = open_session(&conn, "k1", choice).unwrap().unwrap();
    assert!(session.conversation_id > 0);
    assert_eq!(get_all_conversations(&conn, "k1").unwrap()[0].title, "tell me a story");
    let start = first_turn(&mut session, 32, 3800);
    assert_eq!(start.event(), Event::RequestSent);
    let context = match start {
        TurnStart::Request(context) => context,
        other => panic!("{:?}", other),
    };
    assert_eq!(context.len(), 1);
    assert_eq!(context[0].role, MessageRole::User);
    assert_eq!(context[0].content, "tell me a story");
    assert_eq!(session.prompt, "tell me a story");
    let plan = plan_turn(
        session.conversation_id,
        &session.prompt,
        "k1",
        context,
        Ok(OpenAIResponse::Success(completion(vec![("once upon a time", MessageRole::Assistant)], 2, 3))),
    );
    conclude_turn(&conn, &mut session, plan).unwrap();
    let stored = get_all_messages_in_conversation(&conn, session.conversation_id).unwrap();
    assert_eq!(stored.len(), 2);
    assert_eq!(stored[0].content, "tell me a story");
    assert_eq!(stored[0].role, MessageRole::User);
    assert_eq!(stored[1].content, "once upon a time");
}

#[test]
fn a_resumed_conversation_has_no_first_prompt() {
    let conn = memory_store();
    let mut created = session_of(&conn, "k1", "hello");
    let start = first_turn(&mut created, 32, 3800);
    let context = match start {
        TurnStart::Request(context) => context,
        other => panic!("{:?}", other),
    };
    let plan = plan_turn(1, "hello", "k1", context, Ok(OpenAIResponse::Success(
        completion(vec![("hi", MessageRole::Assistant)], 1, 1),
    )));
    conclude_turn(&conn, &mut created, plan).unwrap();
    let mut resumed = open_session(&conn, "k1", choose_conversation(&vec![1], "1")).unwrap().unwrap();
    let start = first_turn(&mut resumed, 32, 3800);
    assert!(matches!(start, TurnStart::Idle));
    assert_eq!(start.event(), Event::PromptSkipped);
    assert_eq!(resumed.history.len(), 2);
    assert_eq!(get_all_messages_in_conversation(&conn, 1).unwrap().len(), 2);
    let mut command = session_of(&conn, "k1", "/help");
    assert!(matches!(first_turn(&mut command, 32, 3800), TurnStart::Command(name) if name == "help"));
}

#[test]
fn several_turns_grow_the_history_by_two_each() {
    let conn = memory_store();
    add_conversation(&conn, "other", "k1").unwrap();
    let mut session = session_of(&conn, "k1", "t");
    assert_eq!(session.conversation_id, 2);
    for turn in 1..=3usize {
        let prompt = format!("prompt {}", turn);
        let known = session.history.len();
        let start = begin_turn(&mut session, &prompt, 32, 3800);
        let context = match start {
            TurnStart::Request(context) => context,
            other => panic!("{:?}", other),
        };
        assert_eq!(context.len(), known + 1);
        let outcome = if turn == 2 {
            Err("dropped".to_string())
        } else {
            Ok(OpenAIResponse::Success(completion(vec![("reply", MessageRole::Assistant)], 1, 1)))
        };
        let plan = plan_turn(session.conversation_id, &session.prompt, "k1", context, outcome);
        conclude_turn(&conn, &mut session, plan).unwrap();
        let stored = get_all_messages_in_conversation(&conn, 2).unwrap().len();
        assert_eq!(stored, if turn == 1 { 2 } else if turn == 2 { 2 } else { 4 });
        assert_eq!(session.history.len(), stored);
        assert_eq!(session.history[0].content, "prompt 1");
    }
    assert!(get_all_messages_in_conversation(&conn, 1).unwrap().is_empty());
    assert_eq!(error_rows(&conn), 1);
}

#[test]
fn a_session_moves_through_its_phases() {
    let mut phase = Phase::Uninitialized;
    for (event, expected) in [
        (Event::Converged, Phase::SchemaConverged),
        (Event::NothingChosen, Phase::SchemaConverged),
        (Event::ConversationOpened, Phase::ConversationChosen),
        (Event::PromptSkipped, Phase::TurnIdle),
        (Event::PromptSkipped, Phase::TurnIdle),
        (Event::RequestSent, Phase::TurnInFlight),
        (Event::TurnEnded, Phase::TurnIdle),
        (Event::RequestSent, Phase::TurnInFlight),
    ] {
        phase = advance(phase, event).unwrap();
        assert_eq!(phase, expected);
    }
    assert_eq!(
        advance(Phase::ConversationChosen, Event::RequestSent),
        Some(Phase::TurnInFlight)
    );
    assert_eq!(advance(Phase::ConversationChosen, Event::TurnEnded), None);
    assert_eq!(advance(Phase::ConversationChosen, Event::ConversationOpened), None);
    assert_eq!(advance(Phase::TurnInFlight, Event::RequestSent), None);
    assert_eq!(advance(Phase::TurnInFlight, Event::PromptSkipped), None);
    assert_eq!(advance(Phase::Uninitialized, Event::RequestSent), None);
    assert_eq!(advance(Phase::SchemaConverged, Event::RequestSent), None);
    assert_eq!(advance(Phase::TurnIdle, Event::Converged), None);
    assert_eq!(advance(Phase::TurnIdle, Event::TurnEnded), None);
    assert_eq!(Choice::Again.event(), Event::NothingChosen);
    assert_eq!(Choice::Unknown(3).event(), Event::NothingChosen);
    assert_eq!(Choice::Resume(3).event(), Event::ConversationOpened);
    assert_eq!(Choice::Create("t".to_string()).event(), Event::ConversationOpened);
    assert_eq!(TurnStart::Idle.event(), Event::PromptSkipped);
    assert_eq!(TurnStart::Command("x".to_string()).event(), Event::PromptSkipped);
    assert_eq!(TurnStart::Request(Vec::new()).event(), Event::RequestSent);
}
