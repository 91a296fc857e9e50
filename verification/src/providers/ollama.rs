//! How a conversation is put to the Ollama API, and what its answers and
//! the lines of its stream mean.

use crate::json::{json_compact, json_compact_of};
use crate::text::{join, join_strings, prefix, str_eq, take_chars, trim_end_char, without_trailing};
use crate::traits::provider::{
    ChatMessage,
    ChatMessageView,
    ProviderEvent,
    ProviderEventView,
    ToolCall,
    ToolCallView,
};
use vstd::prelude::*;
use vstd::string::*;

verus! {

/// The model that is asked where the caller names none.
pub const DEFAULT_MODEL: &'static str = "llama3.2";

/// Where the API is reached where the caller names no other place.
pub const DEFAULT_BASE_URL: &'static str = "http://localhost:11434";

/// How many characters of the model's reasoning an incomplete answer
/// quotes.
pub const THINKING_PREVIEW_CHARS: usize = 200;

/// A tool call of an assistant message, as the API takes it.
#[derive(Debug)]
pub struct OllamaToolCallRequest {
    pub name: String,
    /// The arguments as compact JSON text; `null` where the call's
    /// arguments are no JSON.
    pub arguments: String,
}

/// A message, as the API takes it.
#[derive(Debug)]
pub struct OllamaMessage {
    pub role: String,
    pub content: Option<String>,
    pub tool_calls: Option<Vec<OllamaToolCallRequest>>,
}

/// An `OllamaToolCallRequest` as plain values.
pub struct OllamaToolCallRequestView {
    pub name: Seq<char>,
    pub arguments: Seq<char>,
}

/// An `OllamaMessage` as plain values.
pub struct OllamaMessageView {
    pub role: Seq<char>,
    pub content: Option<Seq<char>>,
    pub tool_calls: Option<Seq<OllamaToolCallRequestView>>,
}

impl View for OllamaToolCallRequest {
    type V = OllamaToolCallRequestView;

    open spec fn view(&self) -> OllamaToolCallRequestView {
        OllamaToolCallRequestView { name: self.name@, arguments: self.arguments@ }
    }
}

impl DeepView for OllamaToolCallRequest {
    type V = OllamaToolCallRequestView;

    open spec fn deep_view(&self) -> OllamaToolCallRequestView {
        self@
    }
}

impl View for OllamaMessage {
    type V = OllamaMessageView;

    open spec fn view(&self) -> OllamaMessageView {
        OllamaMessageView {
            role: self.role@,
            content: self.content.deep_view(),
            tool_calls: self.tool_calls.deep_view(),
        }
    }
}

impl DeepView for OllamaMessage {
    type V = OllamaMessageView;

    open spec fn deep_view(&self) -> OllamaMessageView {
        self@
    }
}

/// A tool call, as the API takes it.
pub open spec fn request_of(call: ToolCallView) -> OllamaToolCallRequestView {
    OllamaToolCallRequestView {
        name: call.name,
        arguments: match json_compact_of(call.arguments) {
            Some(text) => text,
            None => "null"@,
        },
    }
}

/// The tool calls `calls`, as the API takes them.
pub open spec fn requests_of(calls: Seq<ToolCallView>) -> Seq<OllamaToolCallRequestView>
    decreases calls.len(),
{
    if calls.len() == 0 {
        Seq::empty()
    } else {
        requests_of(calls.drop_last()).push(request_of(calls.last()))
    }
}

/// A message that is no tool message, as the API takes it: empty content
/// is left out.
pub open spec fn plain_message(message: ChatMessageView) -> OllamaMessageView {
    OllamaMessageView {
        role: message.role,
        content: if message.content.len() == 0 {
            None
        } else {
            Some(message.content)
        },
        tool_calls: match message.tool_calls {
            Some(calls) => Some(requests_of(calls)),
            None => None,
        },
    }
}

/// A tool message as a block of text.
pub open spec fn result_block(message: ChatMessageView) -> Seq<char> {
    "<tool_result id=\""@ + (match message.tool_call_id {
        Some(id) => id,
        None => "unknown"@,
    }) + "\">\n"@ + message.content + "\n</tool_result>"@
}

/// `out` with the blocks `blocks` added as one user message, where there
/// are any.
pub open spec fn flushed(out: Seq<OllamaMessageView>, blocks: Seq<Seq<char>>) -> Seq<
    OllamaMessageView,
> {
    if blocks.len() == 0 {
        out
    } else {
        out.push(
            OllamaMessageView {
                role: "user"@,
                content: Some("[Tool results]\n"@ + join(blocks, "\n"@)),
                tool_calls: None,
            },
        )
    }
}

/// The messages for the API and the blocks of tool results not yet among
/// them, after `messages`.
pub open spec fn converted_upto(messages: Seq<ChatMessageView>) -> (
    Seq<OllamaMessageView>,
    Seq<Seq<char>>,
)
    decreases messages.len(),
{
    if messages.len() == 0 {
        (Seq::empty(), Seq::empty())
    } else {
        let (out, blocks) = converted_upto(messages.drop_last());
        let message = messages.last();
        if message.role == "tool"@ {
            (out, blocks.push(result_block(message)))
        } else {
            (flushed(out, blocks).push(plain_message(message)), Seq::empty())
        }
    }
}

/// The conversation, as the API takes it. The API knows no tool
/// messages: each run of them becomes one user message that holds their
/// results.
pub open spec fn converted(messages: Seq<ChatMessageView>) -> Seq<OllamaMessageView> {
    flushed(converted_upto(messages).0, converted_upto(messages).1)
}

/// What stands for an answer that is reasoning only.
pub open spec fn thinking_message(thinking: Seq<char>) -> Seq<char> {
    "I was thinking about this: "@ + prefix(thinking, THINKING_PREVIEW_CHARS as nat)
        + "... but I didn't complete my response. Could you try asking again?"@
}

/// The text of an answer: the content, or, where it is empty and no tool
/// is called, a note on the model's reasoning if there is any.
pub open spec fn response_text_of(
    content: Option<Seq<char>>,
    has_tool_calls: bool,
    thinking: Option<Seq<char>>,
) -> Option<Seq<char>> {
    if (content is None || content->0.len() == 0) && !has_tool_calls && thinking is Some {
        Some(thinking_message(thinking->0))
    } else {
        content
    }
}

/// The id of a tool call with the unique part `unique`.
pub open spec fn call_id(unique: Seq<char>) -> Seq<char> {
    "ollama_"@ + unique
}

/// What a line of the stream means: content that is not empty is a token,
/// else reasoning that is not empty is thinking, else the first tool call
/// is a call under the id `id`.
pub open spec fn line_meaning(
    content: Option<Seq<char>>,
    thinking: Option<Seq<char>>,
    first_call: Option<(Seq<char>, Seq<char>)>,
    id: Seq<char>,
) -> Option<ProviderEventView> {
    if content is Some && content->0.len() > 0 {
        Some(ProviderEventView::Token(content->0))
    } else if thinking is Some && thinking->0.len() > 0 {
        Some(ProviderEventView::Thinking(thinking->0))
    } else {
        match first_call {
            Some((name, arguments)) => Some(
                ProviderEventView::ToolCall(ToolCallView { id, name, arguments }),
            ),
            None => None,
        }
    }
}

/// `Uuid::new_v4` of uuid, written by its `Display`: a random value, of
/// which nothing is promised.
#[verifier::external_body]
fn random_uuid() -> (r: String) {
    uuid::Uuid::new_v4().to_string()
}

/// An id for a tool call, new each time.
pub fn fresh_call_id() -> (r: String)
    ensures
        exists|unique: Seq<char>| r@ == #[trigger] call_id(unique),
{
    let unique = random_uuid();
    let mut id = "ollama_".to_owned();
    id.append(unique.as_str());
    assert(id@ == call_id(unique@));
    id
}

/// `url` without slashes at its end.
pub fn normalize_base_url(url: &str) -> (r: String)
    ensures
        r@ == trim_end_char(url@, '/'),
{
    without_trailing(url, '/')
}

/// The tool calls `calls`, as the API takes them.
fn convert_tool_calls(calls: &Vec<ToolCall>) -> (r: Vec<OllamaToolCallRequest>)
    ensures
        r.deep_view() == requests_of(calls.deep_view()),
{
    let ghost cv = calls.deep_view();
    let mut out: Vec<OllamaToolCallRequest> = Vec::new();
    let mut i: usize = 0;
    assert(cv.take(0) =~= Seq::<ToolCallView>::empty());
    assert(out.deep_view() =~= Seq::<OllamaToolCallRequestView>::empty());
    while i < calls.len()
        invariant
            i <= calls.len(),
            cv == calls.deep_view(),
            out.deep_view() == requests_of(cv.take(i as int)),
        decreases calls.len() - i,
    {
        let ghost before = out.deep_view();
        proof {
            let next = cv.take(i + 1);
            assert(next.drop_last() =~= cv.take(i as int));
            assert(next.last() == calls[i as int]@);
        }
        let arguments = match json_compact(calls[i].arguments.as_str()) {
            Some(text) => text,
            None => "null".to_owned(),
        };
        let request = OllamaToolCallRequest { name: calls[i].name.clone(), arguments };
        out.push(request);
        assert(out.deep_view() =~= before.push(request@));
        i += 1;
    }
    assert(cv.take(calls.len() as int) =~= cv);
    out
}

/// Adds the blocks `blocks` to `out` as one user message, where there are
/// any.
fn flush(out: &mut Vec<OllamaMessage>, blocks: &Vec<String>)
    ensures
        final(out).deep_view() == flushed(old(out).deep_view(), blocks.deep_view()),
{
    if blocks.is_empty() {
        return ;
    }
    let ghost before = out.deep_view();
    let mut content = "[Tool results]\n".to_owned();
    content.append(join_strings(blocks, "\n").as_str());
    let message = OllamaMessage { role: "user".to_owned(), content: Some(content), tool_calls: None };
    out.push(message);
    assert(out.deep_view() =~= before.push(message@));
}

/// The conversation `messages`, as the API takes it.
pub fn convert_messages(messages: &Vec<ChatMessage>) -> (r: Vec<OllamaMessage>)
    ensures
        r.deep_view() == converted(messages.deep_view()),
{
    let ghost mv = messages.deep_view();
    let mut out: Vec<OllamaMessage> = Vec::new();
    let mut blocks: Vec<String> = Vec::new();
    let mut i: usize = 0;
    assert(mv.take(0) =~= Seq::<ChatMessageView>::empty());
    assert(out.deep_view() =~= Seq::<OllamaMessageView>::empty());
    assert(blocks.deep_view() =~= Seq::<Seq<char>>::empty());
    while i < messages.len()
        invariant
            i <= messages.len(),
            mv == messages.deep_view(),
            (out.deep_view(), blocks.deep_view()) == converted_upto(mv.take(i as int)),
        decreases messages.len() - i,
    {
        proof {
            let next = mv.take(i + 1);
            assert(next.drop_last() =~= mv.take(i as int));
            assert(next.last() == messages[i as int]@);
        }
        let message = &messages[i];
        if str_eq(message.role.as_str(), "tool") {
            let ghost before = blocks.deep_view();
            let mut block = "<tool_result id=\"".to_owned();
            match &message.tool_call_id {
                Some(id) => {
                    block.append(id.as_str());
                },
                None => {
                    block.append("unknown");
                },
            }
            block.append("\">\n");
            block.append(message.content.as_str());
            block.append("\n</tool_result>");
            blocks.push(block);
            assert(blocks.deep_view() =~= before.push(block@));
        } else {
            flush(&mut out, &blocks);
            blocks = Vec::new();
            assert(blocks.deep_view() =~= Seq::<Seq<char>>::empty());
            let ghost before = out.deep_view();
            let converted = OllamaMessage {
                role: message.role.clone(),
                content: if message.content.as_str().is_empty() {
                    None
                } else {
                    Some(message.content.clone())
                },
                tool_calls: match &message.tool_calls {
                    Some(calls) => Some(convert_tool_calls(calls)),
                    None => None,
                },
            };
            out.push(converted);
            assert(out.deep_view() =~= before.push(converted@));
        }
        i += 1;
    }
    assert(mv.take(messages.len() as int) =~= mv);
    flush(&mut out, &blocks);
    out
}

/// The text of an answer with the content `content` and the reasoning
/// `thinking`.
pub fn response_text(content: Option<String>, has_tool_calls: bool, thinking: Option<String>) -> (r:
    Option<String>)
    ensures
        r.deep_view() == response_text_of(content.deep_view(), has_tool_calls, thinking.deep_view()),
{
    let empty = match &content {
        Some(c) => c.as_str().is_empty(),
        None => true,
    };
    if empty && !has_tool_calls {
        match thinking {
            Some(t) => {
                let mut message = "I was thinking about this: ".to_owned();
                message.append(take_chars(t.as_str(), THINKING_PREVIEW_CHARS).as_str());
                message.append("... but I didn't complete my response. Could you try asking again?");
                return Some(message);
            },
            None => {},
        }
    }
    content
}

/// The event that a line of the stream gives, if any. `first_call` is the
/// name and the arguments, as JSON text, of the first tool call on the
/// line, and `id` the id to give it.
pub fn stream_event(
    content: Option<String>,
    thinking: Option<String>,
    first_call: Option<(String, String)>,
    id: String,
) -> (r: Option<ProviderEvent>)
    ensures
        r.deep_view() == line_meaning(
            content.deep_view(),
            thinking.deep_view(),
            match first_call {
                Some((name, arguments)) => Some((name@, arguments@)),
                None => None,
            },
            id@,
        ),
{
    match content {
        Some(c) => {
            if !c.as_str().is_empty() {
                return Some(ProviderEvent::Token(c));
            }
        },
        None => {},
    }
    match thinking {
        Some(t) => {
            if !t.as_str().is_empty() {
                return Some(ProviderEvent::Thinking(t));
            }
        },
        None => {},
    }
    match first_call {
        Some((name, arguments)) => Some(ProviderEvent::ToolCall(ToolCall { id, name, arguments })),
        None => None,
    }
}

} // verus!
