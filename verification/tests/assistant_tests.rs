use term_core::assistant::{
    build_request_messages, check_key_format, judge_key_response, record_exchange, reply_text,
    require_api_key, system_prompt, system_prompt_with_history,
};
use term_core::history::{ConversationHistory, ConversationMessage};

const BASE: &str = "You are AI running in terminal called Term, a lightweight terminal assistant. You are running on Linux. \
Your job is to help users with their terminal commands and queries. \
If you detect a misspelled command, suggest the correct one. \
If the user asks for help, command explanation, or summarization, provide \
concise, accurate information. \
For technical questions, give short, practical answers focused on terminal usage. \
If asked to run a destructive command, warn the user about potential consequences. \
If asked for irrelevant information, politely tell that you can't help with that. \
Keep responses brief, informative, and focused on helping the user accomplish their task.";

const NO_KEY: &str = "API key not configured. Please set your OpenAI API key with the 'setapikey YOUR_API_KEY' command.";

fn message(role: &str, content: &str) -> ConversationMessage {
    ConversationMessage { role: role.to_string(), content: content.to_string(), timestamp: 0 }
}

#[test]
fn prompts() {
    assert_eq!(system_prompt("Linux"), BASE);
    assert_eq!(system_prompt_with_history("Linux", ""), format!("{}\n\n", BASE));
    assert_eq!(
        system_prompt_with_history("Linux", "ctx\n"),
        format!(
            "{}\n\nIMPORTANT: Use this conversation history to provide contextually aware responses:\nctx\n",
            BASE
        )
    );
    assert!(system_prompt("macOS").contains("You are running on macOS. Your job"));
}

#[test]
fn request_messages_hold_what_was_spoken_in_the_last_ten() {
    let mut history = Vec::new();
    for i in 0..12 {
        let role = if i == 5 { "system" } else if i % 2 == 0 { "user" } else { "assistant" };
        history.push(message(role, &format!("m{}", i)));
    }
    let out = build_request_messages("sys", &history, "now?");
    let got: Vec<(String, String)> = out.into_iter().map(|m| (m.role, m.content)).collect();
    let mut expected = vec![("system".to_string(), "sys".to_string())];
    for i in 2..12 {
        if i == 5 {
            continue;
        }
        let role = if i % 2 == 0 { "user" } else { "assistant" };
        expected.push((role.to_string(), format!("m{}", i)));
    }
    expected.push(("user".to_string(), "now?".to_string()));
    assert_eq!(got, expected);
    let empty = build_request_messages("sys", &Vec::new(), "hi");
    assert_eq!(empty.len(), 2);
    assert_eq!(empty[1].content, "hi");
}

#[test]
fn api_key_has_to_be_there() {
    assert_eq!(require_api_key(Ok("sk-abc".to_string())), Ok("sk-abc".to_string()));
    assert_eq!(require_api_key(Ok(String::new())), Err(NO_KEY.to_string()));
    assert_eq!(require_api_key(Err("io".to_string())), Err(NO_KEY.to_string()));
}

#[test]
fn reply_or_default() {
    assert_eq!(reply_text(Some("ls -la".to_string())), "ls -la");
    assert_eq!(reply_text(Some(String::new())), "");
    assert_eq!(reply_text(None), "No response");
}

#[test]
fn exchange_is_recorded_in_order() {
    let mut h = ConversationHistory::new(3);
    record_exchange(&mut h, "q1".to_string(), "a1".to_string(), 7);
    record_exchange(&mut h, "q2".to_string(), "a2".to_string(), 8);
    let got: Vec<(String, String, u64)> =
        h.get_messages().into_iter().map(|m| (m.role, m.content, m.timestamp)).collect();
    assert_eq!(
        got,
        vec![
            ("assistant".to_string(), "a1".to_string(), 7),
            ("user".to_string(), "q2".to_string(), 8),
            ("assistant".to_string(), "a2".to_string(), 8)
        ]
    );
}

#[test]
fn key_format() {
    assert_eq!(check_key_format("sk-12345678901234567"), Ok(()));
    assert_eq!(check_key_format("sk-1234567890123456"), Err("API key appears to be too short".to_string()));
    assert_eq!(check_key_format("pk-12345678901234567890"), Err("API key must start with 'sk-'".to_string()));
    assert_eq!(check_key_format(""), Err("API key must start with 'sk-'".to_string()));
    assert_eq!(check_key_format("sk-"), Err("API key appears to be too short".to_string()));
    // the length is counted in bytes
    assert_eq!(check_key_format("sk-ééééééééé"), Ok(()));
    assert_eq!(check_key_format("sk-éééééééé"), Err("API key appears to be too short".to_string()));
}

#[test]
fn key_verdicts() {
    assert_eq!(judge_key_response(200, "200 OK", ""), Ok(true));
    assert_eq!(judge_key_response(299, "299", "x"), Ok(true));
    assert_eq!(judge_key_response(401, "401 Unauthorized", "x"), Err("Invalid API key - authentication failed".to_string()));
    assert_eq!(judge_key_response(403, "403 Forbidden", "x"), Err("API key lacks required permissions".to_string()));
    assert_eq!(judge_key_response(429, "429 Too Many Requests", "x"), Err("Rate limit exceeded - please try again later".to_string()));
    assert_eq!(
        judge_key_response(500, "500 Internal Server Error", "boom"),
        Err("OpenAI server error (500 Internal Server Error): boom".to_string())
    );
    assert_eq!(
        judge_key_response(599, "599 <unknown status code>", ""),
        Err("OpenAI server error (599 <unknown status code>): ".to_string())
    );
    assert_eq!(
        judge_key_response(404, "404 Not Found", "Unknown error"),
        Err("API validation failed (404 Not Found): Unknown error".to_string())
    );
    assert_eq!(judge_key_response(199, "199", "b"), Err("API validation failed (199): b".to_string()));
    assert_eq!(judge_key_response(300, "300", "b"), Err("API validation failed (300): b".to_string()));
    assert_eq!(judge_key_response(600, "600", "b"), Err("API validation failed (600): b".to_string()));
}
