//! Chat messages, tool calls, and what a provider answers.

use crate::traits::tool::ToolSpec;
use vstd::prelude::*;
use vstd::string::*;

verus! {

/// A call of a tool, as the model asked for it.
#[derive(Debug)]
pub struct ToolCall {
    pub id: String,
    pub name: String,
    /// The arguments, as JSON text.
    pub arguments: String,
}

/// A `ToolCall` as plain values.
pub struct ToolCallView {
    pub id: Seq<char>,
    pub name: Seq<char>,
    pub arguments: Seq<char>,
}

impl View for ToolCall {
    type V = ToolCallView;

    open spec fn view(&self) -> ToolCallView {
        ToolCallView { id: self.id@, name: self.name@, arguments: self.arguments@ }
    }
}

impl DeepView for ToolCall {
    type V = ToolCallView;

    open spec fn deep_view(&self) -> ToolCallView {
        self@
    }
}

impl Clone for ToolCall {
    fn clone(&self) -> (r: Self)
        ensures
            r == *self,
    {
        ToolCall {
            id: self.id.clone(),
            name: self.name.clone(),
            arguments: self.arguments.clone(),
        }
    }
}

/// One message of a conversation.
#[derive(Debug)]
pub struct ChatMessage {
    /// `system`, `user`, `assistant` or `tool`.
    pub role: String,
    pub content: String,
    pub tool_calls: Option<Vec<ToolCall>>,
    pub tool_call_id: Option<String>,
}

/// A `ChatMessage` as plain values.
pub struct ChatMessageView {
    pub role: Seq<char>,
    pub content: Seq<char>,
    pub tool_calls: Option<Seq<ToolCallView>>,
    pub tool_call_id: Option<Seq<char>>,
}

impl View for ChatMessage {
    type V = ChatMessageView;

    open spec fn view(&self) -> ChatMessageView {
        ChatMessageView {
            role: self.role@,
            content: self.content@,
            tool_calls: self.tool_calls.deep_view(),
            tool_call_id: self.tool_call_id.deep_view(),
        }
    }
}

impl DeepView for ChatMessage {
    type V = ChatMessageView;

    open spec fn deep_view(&self) -> ChatMessageView {
        self@
    }
}

impl Clone for ChatMessage {
    fn clone(&self) -> (r: Self)
        ensures
            r@ == self@,
    {
        ChatMessage {
            role: self.role.clone(),
            content: self.content.clone(),
            tool_calls: match &self.tool_calls {
                Some(calls) => {
                    let copy = calls.clone();
                    assert(copy@ =~= calls@);
                    assert(copy.deep_view() =~= calls.deep_view());
                    Some(copy)
                },
                None => None,
            },
            tool_call_id: match &self.tool_call_id {
                Some(id) => Some(id.clone()),
                None => None,
            },
        }
    }
}

impl ChatMessageView {
    /// A system message.
    pub open spec fn system(content: Seq<char>) -> ChatMessageView {
        ChatMessageView { role: "system"@, content, tool_calls: None, tool_call_id: None }
    }

    /// A user message.
    pub open spec fn user(content: Seq<char>) -> ChatMessageView {
        ChatMessageView { role: "user"@, content, tool_calls: None, tool_call_id: None }
    }

    /// An assistant message that calls no tool.
    pub open spec fn assistant(content: Seq<char>) -> ChatMessageView {
        ChatMessageView { role: "assistant"@, content, tool_calls: None, tool_call_id: None }
    }

    /// An assistant message that calls tools.
    pub open spec fn assistant_with_tool_calls(
        content: Seq<char>,
        tool_calls: Seq<ToolCallView>,
    ) -> ChatMessageView {
        ChatMessageView {
            role: "assistant"@,
            content,
            tool_calls: Some(tool_calls),
            tool_call_id: None,
        }
    }

    /// The message that answers the tool call `tool_call_id`.
    pub open spec fn tool_result(tool_call_id: Seq<char>, content: Seq<char>) -> ChatMessageView {
        ChatMessageView {
            role: "tool"@,
            content,
            tool_calls: None,
            tool_call_id: Some(tool_call_id),
        }
    }

    /// Whether this is a system message.
    pub open spec fn is_system(self) -> bool {
        self.role == "system"@
    }
}

impl ChatMessage {
    /// A system message.
    pub fn system(content: &str) -> (r: Self)
        ensures
            r@ == ChatMessageView::system(content@),
    {
        ChatMessage {
            role: "system".to_owned(),
            content: content.to_owned(),
            tool_calls: None,
            tool_call_id: None,
        }
    }

    /// A user message.
    pub fn user(content: &str) -> (r: Self)
        ensures
            r@ == ChatMessageView::user(content@),
    {
        ChatMessage {
            role: "user".to_owned(),
            content: content.to_owned(),
            tool_calls: None,
            tool_call_id: None,
        }
    }

    /// An assistant message that calls no tool.
    pub fn assistant(content: &str) -> (r: Self)
        ensures
            r@ == ChatMessageView::assistant(content@),
    {
        ChatMessage {
            role: "assistant".to_owned(),
            content: content.to_owned(),
            tool_calls: None,
            tool_call_id: None,
        }
    }

    /// An assistant message that calls tools; its text may be empty.
    pub fn assistant_with_tool_calls(content: &str, tool_calls: Vec<ToolCall>) -> (r: Self)
        ensures
            r@ == ChatMessageView::assistant_with_tool_calls(content@, tool_calls.deep_view()),
    {
        ChatMessage {
            role: "assistant".to_owned(),
            content: content.to_owned(),
            tool_calls: Some(tool_calls),
            tool_call_id: None,
        }
    }

    /// The message that answers the tool call `tool_call_id`.
    pub fn tool_result(tool_call_id: String, content: &str) -> (r: Self)
        ensures
            r@ == ChatMessageView::tool_result(tool_call_id@, content@),
    {
        ChatMessage {
            role: "tool".to_owned(),
            content: content.to_owned(),
            tool_calls: None,
            tool_call_id: Some(tool_call_id),
        }
    }
}

/// What a provider answers in one piece.
#[derive(Debug)]
pub struct ChatResponse {
    pub text: Option<String>,
    pub tool_calls: Vec<ToolCall>,
}

/// A `ChatResponse` as plain values.
pub struct ChatResponseView {
    pub text: Option<Seq<char>>,
    pub tool_calls: Seq<ToolCallView>,
}

impl View for ChatResponse {
    type V = ChatResponseView;

    open spec fn view(&self) -> ChatResponseView {
        ChatResponseView { text: self.text.deep_view(), tool_calls: self.tool_calls.deep_view() }
    }
}

impl DeepView for ChatResponse {
    type V = ChatResponseView;

    open spec fn deep_view(&self) -> ChatResponseView {
        self@
    }
}

impl Clone for ChatResponse {
    fn clone(&self) -> (r: Self)
        ensures
            r@ == self@,
    {
        let calls = self.tool_calls.clone();
        assert(calls@ =~= self.tool_calls@);
        assert(calls.deep_view() =~= self.tool_calls.deep_view());
        ChatResponse {
            text: match &self.text {
                Some(t) => Some(t.clone()),
                None => None,
            },
            tool_calls: calls,
        }
    }
}

impl ChatResponse {
    /// Whether the provider reported tool calls.
    pub fn has_tool_calls(&self) -> (r: bool)
        ensures
            r == (self@.tool_calls.len() > 0),
    {
        !self.tool_calls.is_empty()
    }

    /// The text, or the empty string where there is none.
    pub fn text_or_empty(&self) -> (r: &str)
        ensures
            r@ == match self@.text {
                Some(t) => t,
                None => Seq::<char>::empty(),
            },
    {
        match &self.text {
            Some(t) => t.as_str(),
            None => {
                proof {
                    reveal_strlit("");
                }
                assert(""@ =~= Seq::<char>::empty());
                ""
            },
        }
    }
}

/// What a provider is asked: the conversation, and the tools on offer.
#[derive(Debug)]
pub struct ChatRequest<'a> {
    pub messages: &'a [ChatMessage],
    pub tools: Option<&'a [ToolSpec]>,
}

/// One event of a provider's stream.
#[derive(Debug)]
pub enum ProviderEvent {
    /// A piece of the answer.
    Token(String),
    /// A piece of the model's reasoning, which is no answer.
    Thinking(String),
    /// A tool call, complete.
    ToolCall(ToolCall),
    /// The end of the stream.
    Done,
}

/// A `ProviderEvent` as plain values.
pub enum ProviderEventView {
    Token(Seq<char>),
    Thinking(Seq<char>),
    ToolCall(ToolCallView),
    Done,
}

impl View for ProviderEvent {
    type V = ProviderEventView;

    open spec fn view(&self) -> ProviderEventView {
        match self {
            ProviderEvent::Token(t) => ProviderEventView::Token(t@),
            ProviderEvent::Thinking(t) => ProviderEventView::Thinking(t@),
            ProviderEvent::ToolCall(c) => ProviderEventView::ToolCall(c@),
            ProviderEvent::Done => ProviderEventView::Done,
        }
    }
}

impl DeepView for ProviderEvent {
    type V = ProviderEventView;

    open spec fn deep_view(&self) -> ProviderEventView {
        self@
    }
}

impl Clone for ProviderEvent {
    fn clone(&self) -> (r: Self)
        ensures
            r == *self,
    {
        match self {
            ProviderEvent::Token(t) => ProviderEvent::Token(t.clone()),
            ProviderEvent::Thinking(t) => ProviderEvent::Thinking(t.clone()),
            ProviderEvent::ToolCall(c) => ProviderEvent::ToolCall(c.clone()),
            ProviderEvent::Done => ProviderEvent::Done,
        }
    }
}

} // verus!
