use chatgpt_player::config::{locate, select_key, PathBase};
use chatgpt_player::error::{ArgumentError, JSONParseError, RequestError};
use chatgpt_player::json::{api_error_json, context_json, message_json, optional_json, request_json};
use chatgpt_player::response::{authorization, get_response, Delivery, ENDPOINT};
use chatgpt_player::text::{parse_number, trim};
use chatgpt_player::time::parse_stored_time;
use chatgpt_player::types::{
    text_eq, CompletionError, CompletionResponse, Message, MessageRole, OpenAIError,
    OpenAIResponse, ResponseChoice, TokenUsage,
};

fn completion(id: &str, replies: Vec<&str>) -> CompletionResponse {
    CompletionResponse {
        id: id.to_string(),
        object: "chat.completion".to_string(),
        created: 1,
        model: "gpt-3.5-turbo".to_string(),
        usage: TokenUsage { prompt_tokens: 1, completion_tokens: 2, total_tokens: 3 },
        choices: replies
            .into_iter()
            .map(|text| ResponseChoice {
                index: 0,
                finish_reason: Some("stop".to_string()),
                message: Message { role: MessageRole::Assistant, content: text.to_string() },
            })
            .collect(),
    }
}

fn failure(param: Option<&str>) -> OpenAIError {
    OpenAIError {
        error: CompletionError {
            message: "rate limited".to_string(),
            kind: "rate_limit".to_string(),
            param: param.map(|p| p.to_string()),
            code: "429".to_string(),
        },
    }
}

#[test]
fn trimming_cuts_white_space_at_both_ends_only() {
    assert_eq!(trim(""), "");
    assert_eq!(trim(" \t\r\n"), "");
    assert_eq!(trim("a"), "a");
    assert_eq!(trim("  a  b \n"), "a  b");
    assert_eq!(trim("\u{a0}\u{3000}x y\u{2003}"), "x y");
    assert_eq!(trim("\u{e9}t\u{e9} "), "\u{e9}t\u{e9}");
    assert_eq!(trim("_ a _"), "_ a _");
    for text in ["", "  a", "a  ", " \n mixed \u{2028} text \t", "\u{1F600} "] {
        assert_eq!(trim(text), text.trim());
    }
}

#[test]
fn white_space_is_the_listed_code_points() {
    let listed = |code: u32| {
        (0x0009..=0x000D).contains(&code)
            || [0x0020, 0x0085, 0x00A0, 0x1680, 0x2028, 0x2029, 0x202F, 0x205F, 0x3000]
                .contains(&code)
            || (0x2000..=0x200A).contains(&code)
    };
    let mut white = 0;
    for code in 0..=0x10FFFFu32 {
        if let Some(c) = char::from_u32(code) {
            let text = format!("{}x", c);
            let cut = trim(&text) == "x";
            assert_eq!(cut, listed(code));
            assert_eq!(cut, c.is_whitespace());
            if cut {
                white += 1;
            }
        }
    }
    assert_eq!(white, 25);
}

#[test]
fn numbers_are_digits_after_an_optional_plus() {
    assert_eq!(parse_number("0"), Some(0));
    assert_eq!(parse_number("42"), Some(42));
    assert_eq!(parse_number("+42"), Some(42));
    assert_eq!(parse_number("0042"), Some(42));
    assert_eq!(parse_number("4294967295"), Some(u32::MAX));
    assert_eq!(parse_number("4294967296"), None);
    assert_eq!(parse_number("00000000004294967295"), Some(u32::MAX));
    assert_eq!(parse_number("99999999999999999999999999"), None);
    for text in ["", "+", "-1", "++1", "1+", " 1", "1 ", "1_000", "0x10", "\u{663}", "12a", "a12"] {
        assert_eq!(parse_number(text), None);
        assert_eq!(parse_number(text), text.parse::<u32>().ok());
    }
    for value in [0u32, 7, 10, 99, 100, 65_535, 1_000_000, u32::MAX - 1] {
        assert_eq!(parse_number(&value.to_string()), Some(value));
    }
}

#[test]
fn stored_times_are_read_as_utc() {
    assert_eq!(parse_stored_time("1970-01-01 00:00:00"), Some(0));
    assert_eq!(parse_stored_time("1970-01-02 00:00:00"), Some(86_400));
    assert_eq!(parse_stored_time("2023-03-05 12:30:15"), Some(1_678_019_415));
    assert_eq!(parse_stored_time("1969-12-31 23:59:59"), Some(-1));
    assert_eq!(parse_stored_time("2023-03-05"), None);
    assert_eq!(parse_stored_time("2023-13-05 12:30:15"), None);
    assert_eq!(parse_stored_time(""), None);
}

#[test]
fn roles_have_their_names() {
    assert_eq!(MessageRole::Assistant.name(), "assistant");
    assert_eq!(MessageRole::User.name(), "user");
    assert_eq!(MessageRole::System.name(), "system");
    for role in [MessageRole::Assistant, MessageRole::User, MessageRole::System] {
        assert_eq!(MessageRole::from_name(role.name()), Some(role));
    }
    assert_eq!(MessageRole::from_name("User"), None);
    assert_eq!(MessageRole::from_name(""), None);
    assert_eq!(MessageRole::from_name("user "), None);
    assert!(text_eq("abc", "abc"));
    assert!(!text_eq("abc", "abd"));
}

#[test]
fn a_message_copies_and_a_completion_gives_its_first_reply() {
    let message = Message { role: MessageRole::System, content: "be brief".to_string() };
    let copy = message.duplicate();
    assert_eq!(copy.role, MessageRole::System);
    assert_eq!(copy.content, "be brief");
    let answer = completion("chatcmpl-1", vec![" first ", "second"]);
    assert_eq!(answer.msg(), " first ");
    assert!(!answer.error());
    assert!(completion("Request error", vec!["x"]).error());
    assert!(!completion("Request error ", vec!["x"]).error());
}

#[test]
fn json_texts_are_framed_and_escaped() {
    let message = Message { role: MessageRole::User, content: "say \"hi\"\n\\ \u{1} \u{e9}".to_string() };
    assert_eq!(
        message_json(&message),
        "{\"role\":\"user\",\"content\":\"say \\\"hi\\\"\\n\\\\ \\u0001 \u{e9}\"}"
    );
    assert_eq!(context_json(&Vec::new()), "[]");
    let context = vec![
        Message { role: MessageRole::System, content: "s".to_string() },
        Message { role: MessageRole::User, content: "u".to_string() },
        Message { role: MessageRole::Assistant, content: "a".to_string() },
    ];
    assert_eq!(
        context_json(&context),
        "[{\"role\":\"system\",\"content\":\"s\"},{\"role\":\"user\",\"content\":\"u\"},{\"role\":\"assistant\",\"content\":\"a\"}]"
    );
    assert_eq!(
        request_json("gpt-3.5-turbo", &context[1..2].iter().map(|m| m.duplicate()).collect()),
        "{\"model\":\"gpt-3.5-turbo\",\"messages\":[{\"role\":\"user\",\"content\":\"u\"}]}"
    );
    let parsed: serde_json::Value = serde_json::from_str(&request_json("m\"", &context)).unwrap();
    assert_eq!(parsed["model"], "m\"");
    assert_eq!(parsed["messages"][2]["content"], "a");
    assert_eq!(optional_json(&None), "null");
    assert_eq!(optional_json(&Some("a\tb".to_string())), "\"a\\tb\"");
    assert_eq!(
        api_error_json(&failure(None)),
        "{\"error\":{\"code\":\"429\",\"message\":\"rate limited\",\"param\":null,\"type\":\"rate_limit\"}}"
    );
    assert_eq!(
        api_error_json(&failure(Some("model"))),
        "{\"error\":{\"code\":\"429\",\"message\":\"rate limited\",\"param\":\"model\",\"type\":\"rate_limit\"}}"
    );
}

#[test]
fn errors_describe_themselves() {
    let argument = ArgumentError::new("api_key", "No API Key!");
    assert_eq!(argument.argument, "api_key");
    assert_eq!(argument.argument_name(), "api_key");
    assert_eq!(argument.to_string(), "Error when reading argument api_key: No API Key!");
    let request = RequestError::new(
        Some("404 Not Found".to_string()),
        None,
        "error \"sending\" request".to_string(),
    );
    assert_eq!(
        request.to_string(),
        "{\"status\":\"404 Not Found\",\"url\":null,\"error\":\"error \\\"sending\\\" request\"}"
    );
    let parse = JSONParseError::new("missing field `id`".to_string(), "{\"a\":1}".to_string());
    assert_eq!(
        parse.to_string(),
        "{\"error\":\"missing field `id`\",\"original\":\"{\\\"a\\\":1}\"}"
    );
}

#[test]
fn paths_and_keys_are_resolved() {
    let marked = locate("$api_key");
    assert_eq!(marked.base, PathBase::Executable);
    assert_eq!(marked.path, "api_key");
    let plain = locate("keys/api_key");
    assert_eq!(plain.base, PathBase::Working);
    assert_eq!(plain.path, "keys/api_key");
    assert_eq!(locate("$").path, "");
    assert_eq!(locate("$").base, PathBase::Executable);
    assert_eq!(locate("").base, PathBase::Working);
    assert_eq!(locate("a$b").path, "a$b");
    assert_eq!(locate("$$x").path, "$x");

    assert_eq!(select_key(Some("k".to_string()), Some("f".to_string())).unwrap(), "k");
    assert_eq!(select_key(None, Some("from file\n".to_string())).unwrap(), "from file\n");
    let missing = select_key(None, None).unwrap_err();
    assert_eq!(missing.argument, "api_key");
    assert_eq!(missing.to_string(), "Error when reading argument api_key: No API Key!");
    assert!(select_key(None, Some(String::new())).is_err());
    assert!(select_key(Some(String::new()), Some("f".to_string())).is_err());
}

#[test]
fn a_delivery_becomes_a_response() {
    assert_eq!(ENDPOINT, "https://api.openai.com/v1/chat/completions");
    assert_eq!(authorization("sk-1"), "Bearer sk-1");
    let success = get_response(Delivery::Arrived {
        body: "{}".to_string(),
        completion: Ok(completion("chatcmpl-9", vec!["hi"])),
        failure: Some(failure(None)),
    });
    match success {
        Ok(OpenAIResponse::Success(c)) => assert_eq!(c.id, "chatcmpl-9"),
        other => panic!("{:?}", other),
    }
    let structured = get_response(Delivery::Arrived {
        body: "{}".to_string(),
        completion: Err("missing field `id`".to_string()),
        failure: Some(failure(None)),
    });
    match structured {
        Ok(OpenAIResponse::Failure(e)) => {
            assert_eq!(e.error.message, "rate limited");
            assert_eq!(e.error.kind, "rate_limit");
            assert_eq!(e.error.code, "429");
        }
        other => panic!("{:?}", other),
    }
    let neither = get_response(Delivery::Arrived {
        body: "<html>".to_string(),
        completion: Err("expected value at line 1 column 1".to_string()),
        failure: None,
    });
    assert_eq!(
        neither.unwrap_err(),
        "{\"error\":\"expected value at line 1 column 1\",\"original\":\"<html>\"}"
    );
    let empty = get_response(Delivery::Arrived {
        body: "{\"choices\":[]}".to_string(),
        completion: Ok(completion("chatcmpl-7", Vec::new())),
        failure: None,
    });
    match empty {
        Ok(OpenAIResponse::Success(c)) => {
            assert_eq!(c.id, "chatcmpl-7");
            assert!(c.choices.is_empty());
            assert_eq!(c.usage.total_tokens, 3);
        }
        other => panic!("{:?}", other),
    }
    let empty_and_error = get_response(Delivery::Arrived {
        body: "{}".to_string(),
        completion: Ok(completion("chatcmpl-8", Vec::new())),
        failure: Some(failure(None)),
    });
    assert!(matches!(empty_and_error, Ok(OpenAIResponse::Success(c)) if c.id == "chatcmpl-8"));
    let failed = get_response(Delivery::Failed(RequestError::new(
        None,
        Some("https://api.openai.com/".to_string()),
        "dns".to_string(),
    )));
    assert_eq!(
        failed.unwrap_err(),
        "{\"status\":null,\"url\":\"https://api.openai.com/\",\"error\":\"dns\"}"
    );
}

#[test]
fn a_request_writes_its_body() {
    let request = chatgpt_player::types::CompletionRequest {
        model: "gpt-4".to_string(),
        messages: vec![Message { role: MessageRole::User, content: "hi".to_string() }],
    };
    assert_eq!(
        request.to_json(),
        "{\"model\":\"gpt-4\",\"messages\":[{\"role\":\"user\",\"content\":\"hi\"}]}"
    );
}
