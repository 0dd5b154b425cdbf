//! What the assistant is asked and what is made of its answers: the prompt,
//! the messages sent along, and the judgement on an API key.

use crate::history::{
    last_n, message_views, with_message, ConversationHistory, ConversationMessage, MessageModel,
};
use crate::text::{
    chars_of, chars_start_with, extend, result_view, same_chars, starts_with, string_of,
};
use vstd::prelude::*;

verus! {

/// What the assistant is told of itself, on a host called `os_name`.
pub open spec fn base_prompt(os_name: Seq<char>) -> Seq<char> {
    "You are AI running in terminal called Term, a lightweight terminal assistant. You are running on "@
        + os_name
        + ". Your job is to help users with their terminal commands and queries. If you detect a misspelled command, suggest the correct one. If the user asks for help, command explanation, or summarization, provide concise, accurate information. For technical questions, give short, practical answers focused on terminal usage. If asked to run a destructive command, warn the user about potential consequences. If asked for irrelevant information, politely tell that you can't help with that. Keep responses brief, informative, and focused on helping the user accomplish their task."@
}

/// The prompt for a conversation with a past: the base prompt, an empty line,
/// and the context where there is any.
pub open spec fn prompt_with_context(os_name: Seq<char>, context: Seq<char>) -> Seq<char> {
    base_prompt(os_name) + "\n\n"@ + if context.len() == 0 {
        Seq::empty()
    } else {
        "IMPORTANT: Use this conversation history to provide contextually aware responses:\n"@
            + context
    }
}

/// A message as it is sent to the assistant.
#[derive(Clone, Debug, PartialEq, Eq)]
pub struct ChatMessage {
    pub role: String,
    pub content: String,
}

/// A message sent to the assistant, its texts as sequences of characters.
pub struct ChatModel {
    pub role: Seq<char>,
    pub content: Seq<char>,
}

impl View for ChatMessage {
    type V = ChatModel;

    open spec fn view(&self) -> ChatModel {
        ChatModel { role: self.role@, content: self.content@ }
    }
}

/// The models of the messages in `ms`.
pub open spec fn chat_views(ms: Seq<ChatMessage>) -> Seq<ChatModel> {
    Seq::new(ms.len(), |i: int| ms[i]@)
}

/// Whether a message of the history is sent along: those of the user and of
/// the assistant are.
pub open spec fn is_spoken(m: MessageModel) -> bool {
    m.role == "user"@ || m.role == "assistant"@
}

/// The messages of `ms` that are sent along, in order.
pub open spec fn spoken(ms: Seq<MessageModel>) -> Seq<ChatModel>
    decreases ms.len(),
{
    if ms.len() == 0 {
        Seq::empty()
    } else if is_spoken(ms.last()) {
        spoken(ms.drop_last()).push(ChatModel { role: ms.last().role, content: ms.last().content })
    } else {
        spoken(ms.drop_last())
    }
}

/// The messages of a request: the system prompt, what was spoken in the last
/// ten messages of the history, and the user's prompt.
pub open spec fn request_messages(
    system_prompt: Seq<char>,
    history: Seq<MessageModel>,
    prompt: Seq<char>,
) -> Seq<ChatModel> {
    seq![ChatModel { role: "system"@, content: system_prompt }] + spoken(last_n(history, 10))
        + seq![ChatModel { role: "user"@, content: prompt }]
}

/// The key to use, given what the store gave: a key that is not empty.
pub open spec fn usable_key(stored: Result<Seq<char>, Seq<char>>) -> Result<Seq<char>, Seq<char>> {
    match stored {
        Ok(key) => if key.len() > 0 {
            Ok(key)
        } else {
            Err(
                "API key not configured. Please set your OpenAI API key with the 'setapikey YOUR_API_KEY' command."@,
            )
        },
        Err(_) => Err(
            "API key not configured. Please set your OpenAI API key with the 'setapikey YOUR_API_KEY' command."@,
        ),
    }
}

/// The number of bytes that `s` takes in UTF-8.
pub open spec fn byte_len(s: Seq<char>) -> nat {
    vstd::utf8::encode_utf8(s).len()
}

/// What the shape of a key says before anyone is asked: it has to begin with
/// `sk-` and to take twenty bytes at least.
pub open spec fn key_format(key: Seq<char>) -> Result<(), Seq<char>> {
    if !starts_with(key, "sk-"@) {
        Err("API key must start with 'sk-'"@)
    } else if byte_len(key) < 20 {
        Err("API key appears to be too short"@)
    } else {
        Ok(())
    }
}

/// What the answer of the service says of a key. `code` is the status of the
/// answer, `status` that status as it is written out, `body` what came with
/// it.
pub open spec fn key_verdict(code: u16, status: Seq<char>, body: Seq<char>) -> Result<
    bool,
    Seq<char>,
> {
    if 200 <= code <= 299 {
        Ok(true)
    } else if code == 401 {
        Err("Invalid API key - authentication failed"@)
    } else if code == 403 {
        Err("API key lacks required permissions"@)
    } else if code == 429 {
        Err("Rate limit exceeded - please try again later"@)
    } else if 500 <= code <= 599 {
        Err("OpenAI server error ("@ + status + "): "@ + body)
    } else {
        Err("API validation failed ("@ + status + "): "@ + body)
    }
}

/// A verdict with its error as a sequence of characters.
pub open spec fn verdict_view(r: Result<bool, String>) -> Result<bool, Seq<char>> {
    match r {
        Ok(b) => Ok(b),
        Err(e) => Err(e@),
    }
}

/// A result without a value, its error as a sequence of characters.
pub open spec fn unit_result_view(r: Result<(), String>) -> Result<(), Seq<char>> {
    match r {
        Ok(_) => Ok(()),
        Err(e) => Err(e@),
    }
}

/// The characters of the base prompt.
fn base_prompt_chars(os_name: &str) -> (r: Vec<char>)
    ensures
        r@ == base_prompt(os_name@),
{
    let mut r = chars_of(
        "You are AI running in terminal called Term, a lightweight terminal assistant. You are running on ",
    );
    extend(&mut r, &chars_of(os_name));
    extend(
        &mut r,
        &chars_of(
            ". Your job is to help users with their terminal commands and queries. If you detect a misspelled command, suggest the correct one. If the user asks for help, command explanation, or summarization, provide concise, accurate information. For technical questions, give short, practical answers focused on terminal usage. If asked to run a destructive command, warn the user about potential consequences. If asked for irrelevant information, politely tell that you can't help with that. Keep responses brief, informative, and focused on helping the user accomplish their task.",
        ),
    );
    r
}

/// The system prompt of a request without a past.
pub fn system_prompt(os_name: &str) -> (r: String)
    ensures
        r@ == base_prompt(os_name@),
{
    string_of(&base_prompt_chars(os_name))
}

/// The system prompt of a request within a conversation whose context is
/// `context`.
pub fn system_prompt_with_history(os_name: &str, context: &str) -> (r: String)
    ensures
        r@ == prompt_with_context(os_name@, context@),
{
    let mut r = base_prompt_chars(os_name);
    extend(&mut r, &chars_of("\n\n"));
    let c = chars_of(context);
    if c.len() > 0 {
        extend(
            &mut r,
            &chars_of(
                "IMPORTANT: Use this conversation history to provide contextually aware responses:\n",
            ),
        );
        extend(&mut r, &c);
    } else {
        proof {
            assert(r@ + Seq::<char>::empty() =~= r@);
        }
    }
    string_of(&r)
}

/// The messages of a request, from the system prompt, the messages of the
/// history and the user's prompt.
pub fn build_request_messages(
    system_prompt: &str,
    history: &Vec<ConversationMessage>,
    prompt: &str,
) -> (r: Vec<ChatMessage>)
    ensures
        chat_views(r@) == request_messages(system_prompt@, message_views(history@), prompt@),
{
    let mut r: Vec<ChatMessage> = Vec::new();
    r.push(
        ChatMessage {
            role: string_of(&chars_of("system")),
            content: string_of(&chars_of(system_prompt)),
        },
    );
    let n = history.len();
    let start: usize = if n > 10 {
        n - 10
    } else {
        0
    };
    let ghost all = message_views(history@);
    let ghost recent = last_n(all, 10);
    let ghost head = seq![ChatModel { role: "system"@, content: system_prompt@ }];
    proof {
        assert(recent =~= all.skip(start as int));
        assert(recent.take(0) =~= Seq::<MessageModel>::empty());
        assert(chat_views(r@) =~= head + spoken(recent.take(0)));
    }
    let user = chars_of("user");
    let assistant = chars_of("assistant");
    let mut i: usize = start;
    while i < n
        invariant
            start <= i <= n,
            n == history.len(),
            all == message_views(history@),
            recent == all.skip(start as int),
            user@ == "user"@,
            assistant@ == "assistant"@,
            chat_views(r@) == head + spoken(recent.take(i - start)),
        decreases n - i,
    {
        let m = &history[i];
        proof {
            assert(recent.take(i + 1 - start).drop_last() =~= recent.take(i - start));
            assert(recent.take(i + 1 - start).last() == m@);
        }
        let role = chars_of(m.role.as_str());
        if same_chars(&role, &user) || same_chars(&role, &assistant) {
            let ghost before = chat_views(r@);
            r.push(ChatMessage { role: m.role.clone(), content: m.content.clone() });
            proof {
                assert(chat_views(r@) =~= before.push(
                    ChatModel { role: m@.role, content: m@.content },
                ));
                assert(chat_views(r@) =~= head + spoken(recent.take(i + 1 - start)));
            }
        }
        i += 1;
    }
    proof {
        assert(recent.take(n - start) =~= recent);
    }
    let ghost before = chat_views(r@);
    r.push(
        ChatMessage { role: string_of(&chars_of("user")), content: string_of(&chars_of(prompt)) },
    );
    proof {
        assert(chat_views(r@) =~= before.push(ChatModel { role: "user"@, content: prompt@ }));
        assert(chat_views(r@) =~= request_messages(
            system_prompt@,
            message_views(history@),
            prompt@,
        ));
    }
    r
}

/// The key to use, given what the store gave.
pub fn require_api_key(stored: Result<String, String>) -> (r: Result<String, String>)
    ensures
        result_view(r) == usable_key(result_view(stored)),
{
    match stored {
        Ok(key) => {
            if !key.as_str().is_empty() {
                Ok(key)
            } else {
                Err(
                    string_of(
                        &chars_of(
                            "API key not configured. Please set your OpenAI API key with the 'setapikey YOUR_API_KEY' command.",
                        ),
                    ),
                )
            }
        },
        Err(_) => Err(
            string_of(
                &chars_of(
                    "API key not configured. Please set your OpenAI API key with the 'setapikey YOUR_API_KEY' command.",
                ),
            ),
        ),
    }
}

/// The text of the assistant's reply, given the text found in its answer.
pub fn reply_text(content: Option<String>) -> (r: String)
    ensures
        r@ == match content {
            Some(text) => text@,
            None => "No response"@,
        },
{
    match content {
        Some(text) => text,
        None => string_of(&chars_of("No response")),
    }
}

/// Notes an exchange in the history: first the user's prompt, then the
/// assistant's reply, both said at `now`.
pub fn record_exchange(history: &mut ConversationHistory, prompt: String, reply: String, now: u64)
    ensures
        final(history)@ == with_message(
            with_message(
                old(history)@,
                (MessageModel { role: "user"@, content: prompt@, timestamp: now }),
            ),
            (MessageModel { role: "assistant"@, content: reply@, timestamp: now }),
        ),
{
    history.add_message(string_of(&chars_of("user")), prompt, now);
    history.add_message(string_of(&chars_of("assistant")), reply, now);
}

/// What the shape of `key` says of it, before the service is asked.
pub fn check_key_format(key: &str) -> (r: Result<(), String>)
    ensures
        unit_result_view(r) == key_format(key@),
{
    if !chars_start_with(&chars_of(key), &chars_of("sk-")) {
        return Err(string_of(&chars_of("API key must start with 'sk-'")));
    }
    if key.as_bytes().len() < 20 {
        return Err(string_of(&chars_of("API key appears to be too short")));
    }
    Ok(())
}

/// What the answer of the service says of a key.
pub fn judge_key_response(code: u16, status: &str, body: &str) -> (r: Result<bool, String>)
    ensures
        verdict_view(r) == key_verdict(code, status@, body@),
{
    if 200 <= code && code <= 299 {
        Ok(true)
    } else if code == 401 {
        Err(string_of(&chars_of("Invalid API key - authentication failed")))
    } else if code == 403 {
        Err(string_of(&chars_of("API key lacks required permissions")))
    } else if code == 429 {
        Err(string_of(&chars_of("Rate limit exceeded - please try again later")))
    } else {
        let mut r = if 500 <= code && code <= 599 {
            chars_of("OpenAI server error (")
        } else {
            chars_of("API validation failed (")
        };
        extend(&mut r, &chars_of(status));
        extend(&mut r, &chars_of("): "));
        extend(&mut r, &chars_of(body));
        Err(string_of(&r))
    }
}

} // verus!
