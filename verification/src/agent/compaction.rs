//! Compaction of a conversation that has grown too long.
//!
//! The newest messages stay as they are. The older ones, behind a leading
//! system message if there is one, give way to one assistant message that
//! holds a summary of them.

use crate::text::{chars_of, string_of_range, to_uppercase, trim, trimmed, uppercase_of};
use crate::traits::provider::{ChatMessage, ChatMessageView};
use vstd::prelude::*;
use vstd::string::*;

verus! {

/// How many messages besides the system message a conversation may hold
/// before it is compacted, where the caller sets no other limit.
pub const DEFAULT_MAX_HISTORY: usize = 50;

/// How many of the newest messages compaction leaves as they are.
pub const COMPACT_KEEP_RECENT: usize = 20;

/// How long a transcript may be, in characters, before it is cut.
pub const COMPACTION_MAX_SOURCE_CHARS: usize = 12_000;

/// How long a summary, or a transcript cut to stand in for one, may be.
pub const COMPACTION_MAX_SUMMARY_CHARS: usize = 2_000;

/// Whether the conversation begins with a system message.
pub open spec fn has_leading_system(messages: Seq<ChatMessageView>) -> bool {
    messages.len() > 0 && messages[0].is_system()
}

/// How many messages the conversation holds besides a leading system
/// message.
pub open spec fn non_system_count(messages: Seq<ChatMessageView>) -> nat {
    if has_leading_system(messages) {
        (messages.len() - 1) as nat
    } else {
        messages.len()
    }
}

/// Whether the conversation holds more than `max_history` messages besides
/// a leading system message.
pub open spec fn needs_compaction(messages: Seq<ChatMessageView>, max_history: nat) -> bool {
    non_system_count(messages) > max_history
}

/// `text`, or its first 2000 characters and an ellipsis where it is
/// longer.
pub open spec fn truncated(text: Seq<char>) -> Seq<char> {
    if text.len() <= COMPACTION_MAX_SUMMARY_CHARS {
        text
    } else {
        text.take(COMPACTION_MAX_SUMMARY_CHARS as int) + "..."@
    }
}

/// One message as a line of a transcript: the role in upper case, a colon,
/// and the trimmed content.
pub open spec fn transcript_line(message: ChatMessageView) -> Seq<char> {
    uppercase_of(message.role) + ": "@ + trim(message.content) + "\n"@
}

/// The lines of `messages`, one after the other.
pub open spec fn transcript_lines(messages: Seq<ChatMessageView>) -> Seq<char>
    decreases messages.len(),
{
    if messages.len() == 0 {
        Seq::empty()
    } else {
        transcript_lines(messages.drop_last()) + transcript_line(messages.last())
    }
}

/// The transcript of `messages`: their lines, or the first 12000
/// characters of the lines where they hold more.
pub open spec fn transcript(messages: Seq<ChatMessageView>) -> Seq<char> {
    let lines = transcript_lines(messages);
    if lines.len() > COMPACTION_MAX_SOURCE_CHARS {
        lines.take(COMPACTION_MAX_SOURCE_CHARS as int)
    } else {
        lines
    }
}

/// A transcript never holds more than 12000 characters, and it is the
/// beginning of the lines that it was made of.
pub proof fn transcript_stays_within_the_source_size(messages: Seq<ChatMessageView>)
    ensures
        transcript(messages).len() <= COMPACTION_MAX_SOURCE_CHARS,
        transcript(messages).len() <= transcript_lines(messages).len(),
        transcript(messages) == transcript_lines(messages).take(transcript(messages).len() as int),
{
    let lines = transcript_lines(messages);
    assert(lines.take(lines.len() as int) =~= lines);
}

/// The text that asks a provider for a summary.
pub open spec fn summary_system_prompt() -> Seq<char> {
    "You are a conversation summarizer. Summarize the following conversation into a concise context that preserves: user preferences, decisions, unresolved tasks, and key facts. Keep it under 2000 characters."@
}

/// The two messages that ask a provider to summarise `transcript`.
pub open spec fn summary_request_of(transcript: Seq<char>) -> Seq<ChatMessageView> {
    seq![
        ChatMessageView::system(summary_system_prompt()),
        ChatMessageView::user("Summarize this conversation:\n\n"@ + transcript),
    ]
}

/// The message that stands for the compacted messages.
pub open spec fn summary_message(summary: Seq<char>) -> ChatMessageView {
    ChatMessageView::assistant("[Conversation summary]\n"@ + trim(summary))
}

/// Where the range to compact begins: behind a leading system message.
pub open spec fn compaction_start(messages: Seq<ChatMessageView>) -> int {
    if has_leading_system(messages) {
        1
    } else {
        0
    }
}

/// How many messages are compacted: all but the newest twenty of those
/// besides a leading system message.
pub open spec fn compaction_count(messages: Seq<ChatMessageView>) -> int {
    let n = non_system_count(messages);
    if n > COMPACT_KEEP_RECENT {
        n - COMPACT_KEEP_RECENT
    } else {
        0
    }
}

/// The messages that compaction replaces.
pub open spec fn compaction_source(messages: Seq<ChatMessageView>) -> Seq<ChatMessageView> {
    messages.subrange(
        compaction_start(messages),
        compaction_start(messages) + compaction_count(messages),
    )
}

/// The summary that is used: what the provider gave, or, where it gave
/// nothing, the transcript cut to size.
pub open spec fn summary_or_fallback(provided: Option<Seq<char>>, transcript: Seq<char>) -> Seq<
    char,
> {
    match provided {
        Some(s) => s,
        None => truncated(transcript),
    }
}

/// The conversation after compaction with the summary `provided`. Nothing
/// changes where no more than twenty messages stand besides a leading
/// system message.
pub open spec fn compacted(messages: Seq<ChatMessageView>, provided: Option<Seq<char>>) -> Seq<
    ChatMessageView,
> {
    let start = compaction_start(messages);
    let count = compaction_count(messages);
    if count == 0 {
        messages
    } else {
        let summary = summary_or_fallback(provided, transcript(compaction_source(messages)));
        messages.take(start).push(summary_message(summary)) + messages.skip(start + count)
    }
}

/// After compaction of a conversation with more than `max_history` and more
/// than twenty messages besides a leading system message, twenty-one such
/// messages are left, and the summary message, which stands first among
/// them, is not empty.
pub proof fn compaction_leaves_recent_and_summary(
    messages: Seq<ChatMessageView>,
    max_history: nat,
    provided: Option<Seq<char>>,
)
    requires
        needs_compaction(messages, max_history),
        non_system_count(messages) > COMPACT_KEEP_RECENT,
    ensures
        non_system_count(compacted(messages, provided)) == COMPACT_KEEP_RECENT + 1,
        compacted(messages, provided)[compaction_start(messages)].content.len() > 0,
        compacted(messages, provided)[compaction_start(messages)].role == "assistant"@,
        has_leading_system(compacted(messages, provided)) == has_leading_system(messages),
{
    reveal_strlit("assistant");
    reveal_strlit("system");
    reveal_strlit("[Conversation summary]\n");
    let start = compaction_start(messages);
    let count = compaction_count(messages);
    let after = compacted(messages, provided);
    let summary = summary_or_fallback(provided, transcript(compaction_source(messages)));
    assert(after[start] == summary_message(summary));
    assert("assistant"@[0] == 'a');
    assert("system"@[0] == 's');
    if start == 1 {
        assert(after[0] == messages[0]);
    }
}

/// Whether `messages` begins with a system message.
fn leading_system(messages: &Vec<ChatMessage>) -> (r: bool)
    ensures
        r == has_leading_system(messages.deep_view()),
{
    if messages.len() > 0 {
        crate::text::str_eq(messages[0].role.as_str(), "system")
    } else {
        false
    }
}

/// Whether the conversation holds more than `max_history` messages besides
/// a leading system message.
pub fn should_compact_history(messages: &Vec<ChatMessage>, max_history: usize) -> (r: bool)
    ensures
        r == needs_compaction(messages.deep_view(), max_history as nat),
{
    let count = if leading_system(messages) {
        messages.len() - 1
    } else {
        messages.len()
    };
    count > max_history
}

/// `text`, or its first 2000 characters and an ellipsis where it is
/// longer.
pub fn truncate_transcript(text: &str) -> (r: String)
    ensures
        r@ == truncated(text@),
{
    let chars = chars_of(text);
    if chars.len() <= COMPACTION_MAX_SUMMARY_CHARS {
        text.to_owned()
    } else {
        let mut cut = string_of_range(&chars, 0, COMPACTION_MAX_SUMMARY_CHARS);
        cut.append("...");
        cut
    }
}

/// The transcript of `messages[from..to]`.
pub fn build_transcript(messages: &Vec<ChatMessage>, from: usize, to: usize) -> (r: String)
    requires
        from <= to <= messages.len(),
    ensures
        r@ == transcript(messages.deep_view().subrange(from as int, to as int)),
{
    let ghost source = messages.deep_view().subrange(from as int, to as int);
    let mut lines = String::new();
    let mut i: usize = from;
    assert(source.take(0) =~= Seq::<ChatMessageView>::empty());
    while i < to
        invariant
            from <= i <= to <= messages.len(),
            source == messages.deep_view().subrange(from as int, to as int),
            lines@ == transcript_lines(source.take(i - from)),
        decreases to - i,
    {
        proof {
            let done = source.take(i - from);
            let next = source.take(i - from + 1);
            assert(next.drop_last() =~= done);
            assert(next.last() == messages[i as int]@);
        }
        let role = to_uppercase(messages[i].role.as_str());
        lines.append(role.as_str());
        lines.append(": ");
        let content = trimmed(messages[i].content.as_str());
        lines.append(content.as_str());
        lines.append("\n");
        i += 1;
    }
    assert(source.take(to - from) =~= source);
    let chars = chars_of(lines.as_str());
    if chars.len() > COMPACTION_MAX_SOURCE_CHARS {
        assert(chars@.subrange(0, COMPACTION_MAX_SOURCE_CHARS as int) =~= chars@.take(
            COMPACTION_MAX_SOURCE_CHARS as int,
        ));
        string_of_range(&chars, 0, COMPACTION_MAX_SOURCE_CHARS)
    } else {
        lines
    }
}

/// The two messages that ask a provider to summarise `transcript`: a
/// request of its own, with no tools and apart from the conversation.
pub fn summary_request(transcript: &str) -> (r: Vec<ChatMessage>)
    ensures
        r.deep_view() == summary_request_of(transcript@),
{
    let mut user_prompt = "Summarize this conversation:\n\n".to_owned();
    user_prompt.append(transcript);
    let mut request: Vec<ChatMessage> = Vec::new();
    request.push(
        ChatMessage::system(
            "You are a conversation summarizer. Summarize the following conversation into a concise context that preserves: user preferences, decisions, unresolved tasks, and key facts. Keep it under 2000 characters.",
        ),
    );
    request.push(ChatMessage::user(user_prompt.as_str()));
    assert(request.deep_view() =~= summary_request_of(transcript@));
    request
}

/// The range of `messages` that compaction replaces, or nothing where no
/// more than twenty messages stand besides a leading system message.
pub fn compaction_range(messages: &Vec<ChatMessage>) -> (r: Option<(usize, usize)>)
    ensures
        match r {
            Some((start, end)) => {
                &&& compaction_count(messages.deep_view()) > 0
                &&& start == compaction_start(messages.deep_view())
                &&& end == start + compaction_count(messages.deep_view())
                &&& end <= messages.len()
            },
            None => compaction_count(messages.deep_view()) == 0,
        },
{
    let has_system = leading_system(messages);
    let start: usize = if has_system {
        1
    } else {
        0
    };
    let count = messages.len() - start;
    if count > COMPACT_KEEP_RECENT {
        Some((start, start + (count - COMPACT_KEEP_RECENT)))
    } else {
        None
    }
}

/// The transcript of the messages that compaction would replace, for the
/// provider to summarise, or nothing where compaction would change
/// nothing.
pub fn compaction_transcript(messages: &Vec<ChatMessage>) -> (r: Option<String>)
    ensures
        r.deep_view() == if compaction_count(messages.deep_view()) > 0 {
            Some(transcript(compaction_source(messages.deep_view())))
        } else {
            None
        },
{
    match compaction_range(messages) {
        Some((start, end)) => Some(build_transcript(messages, start, end)),
        None => None,
    }
}

/// Compacts the conversation in place. `summary` is what the provider
/// gave for the transcript; where it failed or gave no text, pass `None`,
/// and the transcript, cut to size, stands in.
pub fn compact_history(messages: &mut Vec<ChatMessage>, summary: Option<String>)
    ensures
        final(messages).deep_view() == compacted(old(messages).deep_view(), summary.deep_view()),
{
    let (start, end) = match compaction_range(messages) {
        Some(range) => range,
        None => {
            return ;
        },
    };
    let source = build_transcript(messages, start, end);
    let text = match summary {
        Some(s) => s,
        None => truncate_transcript(source.as_str()),
    };
    let mut content = "[Conversation summary]\n".to_owned();
    let body = trimmed(text.as_str());
    content.append(body.as_str());
    let summary_msg = ChatMessage::assistant(content.as_str());
    let ghost before = messages.deep_view();
    let mut kept: Vec<ChatMessage> = Vec::new();
    let mut i: usize = 0;
    while i < start
        invariant
            i <= start <= end <= messages.len(),
            before == messages.deep_view(),
            kept.deep_view() == before.take(i as int),
        decreases start - i,
    {
        let ghost done = kept.deep_view();
        let copy = messages[i].clone();
        kept.push(copy);
        assert(kept.deep_view() =~= done.push(copy@));
        assert(before.take(i + 1) =~= before.take(i as int).push(before[i as int]));
        i += 1;
    }
    let ghost head = kept.deep_view();
    kept.push(summary_msg);
    assert(kept.deep_view() =~= head.push(summary_msg@));
    let mut j: usize = end;
    while j < messages.len()
        invariant
            start <= end <= j <= messages.len(),
            before == messages.deep_view(),
            kept.deep_view() == before.take(start as int).push(summary_msg@) + before.subrange(
                end as int,
                j as int,
            ),
        decreases messages.len() - j,
    {
        let ghost done = kept.deep_view();
        let copy = messages[j].clone();
        kept.push(copy);
        assert(kept.deep_view() =~= done.push(copy@));
        assert(before.subrange(end as int, j + 1) =~= before.subrange(end as int, j as int).push(
            before[j as int],
        ));
        j += 1;
    }
    assert(before.subrange(end as int, before.len() as int) =~= before.skip(end as int));
    *messages = kept;
}

} // verus!
