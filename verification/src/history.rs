//! The history of a conversation: the last messages exchanged, and the texts
//! that sum them up.

use crate::text::{chars_of, decimal, decimal_chars, digit_char, extend, same_chars, string_of};
use vstd::prelude::*;

verus! {

/// One message of a conversation.
#[derive(Clone, Debug, PartialEq, Eq)]
pub struct ConversationMessage {
    /// Who spoke: `user`, `assistant` or `system`.
    pub role: String,
    pub content: String,
    /// When it was said, in seconds since the Unix epoch.
    pub timestamp: u64,
}

/// A message with its texts as sequences of characters.
pub struct MessageModel {
    pub role: Seq<char>,
    pub content: Seq<char>,
    pub timestamp: u64,
}

impl View for ConversationMessage {
    type V = MessageModel;

    open spec fn view(&self) -> MessageModel {
        MessageModel { role: self.role@, content: self.content@, timestamp: self.timestamp }
    }
}

/// What a history holds: its messages, oldest first, and how many it keeps.
pub struct HistoryModel {
    pub messages: Seq<MessageModel>,
    pub max_messages: usize,
}

/// The models of the messages in `ms`.
pub open spec fn message_views(ms: Seq<ConversationMessage>) -> Seq<MessageModel> {
    Seq::new(ms.len(), |i: int| ms[i]@)
}

/// The last `n` of `ms`, or all of them where there are fewer.
pub open spec fn last_n(ms: Seq<MessageModel>, n: int) -> Seq<MessageModel> {
    if ms.len() > n {
        ms.skip(ms.len() - n)
    } else {
        ms
    }
}

/// The history after one more message: the message comes last, and only the
/// newest `max_messages` messages stay.
pub open spec fn with_message(h: HistoryModel, m: MessageModel) -> HistoryModel {
    HistoryModel {
        messages: last_n(h.messages.push(m), h.max_messages as int),
        max_messages: h.max_messages,
    }
}

/// How a message reads in the context handed to the assistant; a message that
/// neither the user nor the assistant wrote does not show.
pub open spec fn context_line(m: MessageModel) -> Seq<char> {
    if m.role == "user"@ {
        "User: "@ + m.content + "\n"@
    } else if m.role == "assistant"@ {
        "Assistant: "@ + m.content + "\n"@
    } else {
        Seq::empty()
    }
}

/// The lines of the context for the messages `ms`, one after the other.
pub open spec fn context_lines(ms: Seq<MessageModel>) -> Seq<char>
    decreases ms.len(),
{
    if ms.len() == 0 {
        Seq::empty()
    } else {
        context_lines(ms.drop_last()) + context_line(ms.last())
    }
}

/// The context for the assistant: nothing for an empty history, else a
/// heading, the last six messages and a rule.
pub open spec fn context_summary(ms: Seq<MessageModel>) -> Seq<char> {
    if ms.len() == 0 {
        Seq::empty()
    } else {
        "Previous conversation context:\n"@ + context_lines(last_n(ms, 6)) + "---\n"@
    }
}

/// The first second of the first year that the calendar library can hold, in
/// seconds since the Unix epoch.
pub const CLOCK_MIN_SECS: i64 = -8_334_601_228_800;

/// The last second of the last year that the calendar library can hold.
pub const CLOCK_MAX_SECS: i64 = 8_210_266_876_799;

/// `n` in two decimal digits.
pub open spec fn two_digits(n: int) -> Seq<char> {
    seq![digit_char(n / 10), digit_char(n % 10)]
}

/// The time of day in UTC, as hours, minutes and seconds of two digits each,
/// of the instant `secs` seconds after the Unix epoch; none where the instant
/// lies outside the years that the calendar library can hold.
pub open spec fn clock_text(secs: i64) -> Option<Seq<char>> {
    if CLOCK_MIN_SECS <= secs <= CLOCK_MAX_SECS {
        let of_day = (secs as int) % 86_400;
        Some(
            two_digits(of_day / 3600) + seq![':'] + two_digits((of_day / 60) % 60) + seq![':']
                + two_digits(of_day % 60),
        )
    } else {
        None
    }
}

/// The seconds of a time stamp as a signed number of the same 64 bits.
pub open spec fn signed_seconds(timestamp: u64) -> i64 {
    if timestamp <= i64::MAX {
        timestamp as i64
    } else {
        (timestamp - 0x1_0000_0000_0000_0000) as i64
    }
}

/// The time of day shown beside a message.
pub open spec fn shown_time(timestamp: u64) -> Seq<char> {
    match clock_text(signed_seconds(timestamp)) {
        Some(text) => text,
        None => "Unknown"@,
    }
}

/// How a message reads in the summary of a conversation, given the time shown
/// beside it.
pub open spec fn summary_line(m: MessageModel, time: Seq<char>) -> Seq<char> {
    if m.role == "user"@ {
        "["@ + time + "] User: "@ + m.content + "\n"@
    } else if m.role == "assistant"@ {
        "["@ + time + "] AI: "@ + m.content + "\n\n"@
    } else {
        Seq::empty()
    }
}

/// The lines of the summary for the messages `ms`, one after the other.
pub open spec fn summary_lines(ms: Seq<MessageModel>) -> Seq<char>
    decreases ms.len(),
{
    if ms.len() == 0 {
        Seq::empty()
    } else {
        summary_lines(ms.drop_last()) + summary_line(ms.last(), shown_time(ms.last().timestamp))
    }
}

/// The summary of a conversation: a fixed sentence for an empty one, else a
/// heading with the number of messages and a line for each.
pub open spec fn conversation_summary(ms: Seq<MessageModel>) -> Seq<char> {
    if ms.len() == 0 {
        "No conversation history available."@
    } else {
        "Conversation History ("@ + decimal(ms.len()) + " messages):\n\n"@ + summary_lines(ms)
    }
}

/// `chrono::DateTime::from_timestamp` with no nanoseconds, and
/// `DateTime::format` with `%H:%M:%S` on what it gives. The first returns an
/// instant exactly for the seconds whose date has a year from -262143 to
/// 262142; the second writes the hour, minute and second of that instant in
/// UTC, each zero-padded to two digits.
#[verifier::external_body]
fn clock_time(secs: i64) -> (r: Option<String>)
    ensures
        match r {
            Some(text) => clock_text(secs) == Some(text@),
            None => clock_text(secs) is None,
        },
{
    match chrono::DateTime::from_timestamp(secs, 0) {
        Some(instant) => Some(instant.format("%H:%M:%S").to_string()),
        None => None,
    }
}

/// The seconds of `timestamp` as a signed number of the same 64 bits.
fn signed_seconds_of(timestamp: u64) -> (secs: i64)
    ensures
        secs == signed_seconds(timestamp),
{
    if timestamp <= 0x7fff_ffff_ffff_ffff {
        timestamp as i64
    } else {
        let below: u64 = u64::MAX - timestamp;
        -(below as i64) - 1
    }
}

/// The time of day shown beside a message of time stamp `timestamp`.
pub fn message_time(timestamp: u64) -> (r: String)
    ensures
        r@ == shown_time(timestamp),
{
    match clock_time(signed_seconds_of(timestamp)) {
        Some(text) => text,
        None => string_of(&chars_of("Unknown")),
    }
}

/// The line of the summary for a message, given the time shown beside it.
pub fn summary_line_with_time(message: &ConversationMessage, time: &str) -> (r: String)
    ensures
        r@ == summary_line(message@, time@),
{
    let role = chars_of(message.role.as_str());
    let mut r: Vec<char> = Vec::new();
    if same_chars(&role, &chars_of("user")) {
        extend(&mut r, &chars_of("["));
        extend(&mut r, &chars_of(time));
        extend(&mut r, &chars_of("] User: "));
        extend(&mut r, &chars_of(message.content.as_str()));
        extend(&mut r, &chars_of("\n"));
    } else if same_chars(&role, &chars_of("assistant")) {
        extend(&mut r, &chars_of("["));
        extend(&mut r, &chars_of(time));
        extend(&mut r, &chars_of("] AI: "));
        extend(&mut r, &chars_of(message.content.as_str()));
        extend(&mut r, &chars_of("\n\n"));
    }
    string_of(&r)
}

/// The last messages of a conversation.
#[derive(Debug)]
pub struct ConversationHistory {
    messages: Vec<ConversationMessage>,
    max_messages: usize,
}

impl View for ConversationHistory {
    type V = HistoryModel;

    closed spec fn view(&self) -> HistoryModel {
        HistoryModel { messages: message_views(self.messages@), max_messages: self.max_messages }
    }
}

impl Default for ConversationHistory {
    /// A history that keeps nothing.
    fn default() -> (h: ConversationHistory)
        ensures
            h@.messages.len() == 0,
            h@.max_messages == 0,
    {
        ConversationHistory { messages: Vec::new(), max_messages: 0 }
    }
}

impl ConversationHistory {
    /// An empty history that keeps the newest `max_messages` messages.
    pub fn new(max_messages: usize) -> (h: ConversationHistory)
        ensures
            h@.messages.len() == 0,
            h@.max_messages == max_messages,
    {
        ConversationHistory { messages: Vec::new(), max_messages }
    }

    /// Adds a message said at `timestamp`, and lets go of the oldest messages
    /// beyond the number that the history keeps.
    pub fn add_message(&mut self, role: String, content: String, timestamp: u64)
        ensures
            final(self)@ == with_message(
                old(self)@,
                (MessageModel { role: role@, content: content@, timestamp }),
            ),
            final(self)@.messages.len() <= final(self)@.max_messages,
    {
        let ghost before = message_views(self.messages@);
        let ghost added = MessageModel { role: role@, content: content@, timestamp };
        self.messages.push(ConversationMessage { role, content, timestamp });
        proof {
            assert(message_views(self.messages@) =~= before.push(added));
        }
        if self.messages.len() > self.max_messages {
            let extra = self.messages.len() - self.max_messages;
            let kept = self.messages.split_off(extra);
            self.messages = kept;
            proof {
                assert(message_views(self.messages@) =~= before.push(added).skip(
                    before.len() + 1 - self.max_messages,
                ));
            }
        }
    }

    /// A copy of the messages, oldest first.
    pub fn get_messages(&self) -> (r: Vec<ConversationMessage>)
        ensures
            message_views(r@) == self@.messages,
    {
        let mut r: Vec<ConversationMessage> = Vec::new();
        let mut i: usize = 0;
        while i < self.messages.len()
            invariant
                i <= self.messages.len(),
                r.len() == i,
                forall|j: int| 0 <= j < i ==> (#[trigger] r@[j])@ == self.messages@[j]@,
            decreases self.messages.len() - i,
        {
            let m = &self.messages[i];
            r.push(
                ConversationMessage {
                    role: m.role.clone(),
                    content: m.content.clone(),
                    timestamp: m.timestamp,
                },
            );
            i += 1;
        }
        proof {
            assert(message_views(r@) =~= message_views(self.messages@));
        }
        r
    }

    /// Forgets every message.
    pub fn clear(&mut self)
        ensures
            final(self)@.messages.len() == 0,
            final(self)@.max_messages == old(self)@.max_messages,
    {
        self.messages.clear();
    }

    /// The context for the assistant: the last six messages of the user and
    /// the assistant under a heading, or nothing for an empty history.
    pub fn get_context_summary(&self) -> (r: String)
        ensures
            r@ == context_summary(self@.messages),
    {
        let n = self.messages.len();
        if n == 0 {
            return String::new();
        }
        let mut r = chars_of("Previous conversation context:\n");
        let start: usize = if n > 6 {
            n - 6
        } else {
            0
        };
        let ghost all = message_views(self.messages@);
        let ghost recent = last_n(all, 6);
        proof {
            assert(recent =~= all.skip(start as int));
            assert(recent.take(0) =~= Seq::<MessageModel>::empty());
        }
        let mut i: usize = start;
        let user = chars_of("user");
        let assistant = chars_of("assistant");
        while i < n
            invariant
                start <= i <= n,
                n == self.messages.len(),
                all == message_views(self.messages@),
                recent == all.skip(start as int),
                user@ == "user"@,
                assistant@ == "assistant"@,
                r@ == "Previous conversation context:\n"@ + context_lines(
                    recent.take(i - start),
                ),
            decreases n - i,
        {
            let m = &self.messages[i];
            proof {
                assert(recent.take(i + 1 - start).drop_last() =~= recent.take(i - start));
                assert(recent.take(i + 1 - start).last() == m@);
            }
            let role = chars_of(m.role.as_str());
            if same_chars(&role, &user) {
                extend(&mut r, &chars_of("User: "));
                extend(&mut r, &chars_of(m.content.as_str()));
                extend(&mut r, &chars_of("\n"));
                proof {
                    assert(r@ =~= "Previous conversation context:\n"@ + (context_lines(
                        recent.take(i - start),
                    ) + context_line(m@)));
                }
            } else if same_chars(&role, &assistant) {
                extend(&mut r, &chars_of("Assistant: "));
                extend(&mut r, &chars_of(m.content.as_str()));
                extend(&mut r, &chars_of("\n"));
                proof {
                    assert(r@ =~= "Previous conversation context:\n"@ + (context_lines(
                        recent.take(i - start),
                    ) + context_line(m@)));
                }
            } else {
                proof {
                    assert(r@ =~= "Previous conversation context:\n"@ + (context_lines(
                        recent.take(i - start),
                    ) + context_line(m@)));
                }
            }
            i += 1;
        }
        proof {
            assert(recent.take(n - start) =~= recent);
        }
        extend(&mut r, &chars_of("---\n"));
        string_of(&r)
    }
}

/// The summary of the conversation for the user: every message of the
/// user and the assistant with the time of day it was said at.
pub fn get_conversation_summary(history: &ConversationHistory) -> (r: Result<String, String>)
    ensures
        r matches Ok(text) && text@ == conversation_summary(history@.messages),
{
    let n = history.messages.len();
    if n == 0 {
        return Ok(string_of(&chars_of("No conversation history available.")));
    }
    let mut r = chars_of("Conversation History (");
    extend(&mut r, &decimal_chars(n as u64));
    extend(&mut r, &chars_of(" messages):\n\n"));
    let ghost all = message_views(history.messages@);
    let ghost head = r@;
    proof {
        assert(all.take(0) =~= Seq::<MessageModel>::empty());
    }
    let mut i: usize = 0;
    while i < n
        invariant
            i <= n,
            n == history.messages.len(),
            all == message_views(history.messages@),
            r@ == head + summary_lines(all.take(i as int)),
        decreases n - i,
    {
        let m = &history.messages[i];
        proof {
            assert(all.take(i + 1).drop_last() =~= all.take(i as int));
            assert(all.take(i + 1).last() == m@);
        }
        let time = message_time(m.timestamp);
        let line = summary_line_with_time(m, time.as_str());
        extend(&mut r, &chars_of(line.as_str()));
        proof {
            assert(r@ =~= head + (summary_lines(all.take(i as int)) + summary_line(
                m@,
                shown_time(m.timestamp),
            )));
        }
        i += 1;
    }
    proof {
        assert(all.take(n as int) =~= all);
    }
    Ok(string_of(&r))
}

/// Forgets every message of the conversation. Never fails.
pub fn clear_conversation_history(history: &mut ConversationHistory) -> (r: Result<(), String>)
    ensures
        r is Ok,
        final(history)@.messages.len() == 0,
        final(history)@.max_messages == old(history)@.max_messages,
{
    history.clear();
    Ok(())
}

} // verus!
