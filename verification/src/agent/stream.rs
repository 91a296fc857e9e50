//! The events of a provider's stream, gathered into one answer.

use crate::text::{prefix, take_chars};
use crate::traits::provider::{ProviderEvent, ProviderEventView, ToolCall, ToolCallView};
use vstd::prelude::*;
use vstd::string::*;

verus! {

/// How many characters of the model's reasoning an incomplete answer
/// quotes.
pub const THINKING_PREVIEW_CHARS: usize = 200;

/// What a stream has given so far.
#[derive(Debug)]
pub struct StreamAccumulator {
    /// The answer so far.
    pub response: String,
    /// The reasoning since the last piece of the answer.
    pub thinking: String,
    /// The tool calls so far, in order.
    pub tool_calls: Vec<ToolCall>,
    /// Whether the stream has ended.
    pub done: bool,
}

/// A `StreamAccumulator` as plain values.
pub struct StreamAccumulatorView {
    pub response: Seq<char>,
    pub thinking: Seq<char>,
    pub tool_calls: Seq<ToolCallView>,
    pub done: bool,
}

impl View for StreamAccumulator {
    type V = StreamAccumulatorView;

    open spec fn view(&self) -> StreamAccumulatorView {
        StreamAccumulatorView {
            response: self.response@,
            thinking: self.thinking@,
            tool_calls: self.tool_calls.deep_view(),
            done: self.done,
        }
    }
}

/// The accumulator before any event.
pub open spec fn stream_start() -> StreamAccumulatorView {
    StreamAccumulatorView {
        response: Seq::empty(),
        thinking: Seq::empty(),
        tool_calls: Seq::empty(),
        done: false,
    }
}

/// The accumulator after `event`. A token joins the answer and ends the
/// reasoning before it; reasoning is kept apart from the answer; a tool
/// call joins the calls; nothing changes once the stream has ended.
pub open spec fn stream_step(acc: StreamAccumulatorView, event: ProviderEventView)
    -> StreamAccumulatorView {
    if acc.done {
        acc
    } else {
        match event {
            ProviderEventView::Token(t) => StreamAccumulatorView {
                response: acc.response + t,
                thinking: Seq::empty(),
                ..acc
            },
            ProviderEventView::Thinking(t) => StreamAccumulatorView {
                thinking: acc.thinking + t,
                ..acc
            },
            ProviderEventView::ToolCall(c) => StreamAccumulatorView {
                tool_calls: acc.tool_calls.push(c),
                ..acc
            },
            ProviderEventView::Done => StreamAccumulatorView { done: true, ..acc },
        }
    }
}

/// The accumulator after `events`, in order.
pub open spec fn stream_fold(acc: StreamAccumulatorView, events: Seq<ProviderEventView>)
    -> StreamAccumulatorView
    decreases events.len(),
{
    if events.len() == 0 {
        acc
    } else {
        stream_step(stream_fold(acc, events.drop_last()), events.last())
    }
}

/// What is shown to the user for `event`: a token as it is, behind a blank
/// line where reasoning came before it; reasoning in grey; nothing for
/// the rest, and nothing once the stream has ended.
pub open spec fn stream_shown(acc: StreamAccumulatorView, event: ProviderEventView) -> Seq<char> {
    if acc.done {
        Seq::empty()
    } else {
        match event {
            ProviderEventView::Token(t) => if acc.thinking.len() > 0 {
                "\n\n"@ + t
            } else {
                t
            },
            ProviderEventView::Thinking(t) => "\x1b[90m"@ + t + "\x1b[0m"@,
            _ => Seq::empty(),
        }
    }
}

/// What an answer that is reasoning only is reported as.
pub open spec fn incomplete_message(thinking: Seq<char>) -> Seq<char> {
    "I was thinking: "@ + prefix(thinking, THINKING_PREVIEW_CHARS as nat)
        + "... but didn't complete my response. Please try again."@
}

/// Once the stream has ended, no event changes what was gathered.
pub proof fn events_after_the_end_change_nothing(
    acc: StreamAccumulatorView,
    event: ProviderEventView,
)
    requires
        acc.done,
    ensures
        stream_step(acc, event) == acc,
        stream_shown(acc, event) == Seq::<char>::empty(),
{
}

/// Reasoning never becomes part of the answer.
pub proof fn thinking_is_no_answer(acc: StreamAccumulatorView, text: Seq<char>)
    ensures
        stream_step(acc, ProviderEventView::Thinking(text)).response == acc.response,
        stream_step(acc, ProviderEventView::Thinking(text)).tool_calls == acc.tool_calls,
{
}

impl StreamAccumulator {
    /// An accumulator that has seen no event.
    pub fn new() -> (r: Self)
        ensures
            r@ == stream_start(),
    {
        let r = StreamAccumulator {
            response: String::new(),
            thinking: String::new(),
            tool_calls: Vec::new(),
            done: false,
        };
        assert(r.tool_calls.deep_view() =~= Seq::<ToolCallView>::empty());
        r
    }

    /// Takes `event` in. Returns what is to be shown to the user for it.
    pub fn push(&mut self, event: ProviderEvent) -> (shown: String)
        ensures
            final(self)@ == stream_step(old(self)@, event@),
            shown@ == stream_shown(old(self)@, event@),
    {
        if self.done {
            return String::new();
        }
        match event {
            ProviderEvent::Token(t) => {
                let mut shown = String::new();
                if !self.thinking.as_str().is_empty() {
                    shown.append("\n\n");
                    self.thinking = String::new();
                }
                shown.append(t.as_str());
                self.response.append(t.as_str());
                assert(shown@ =~= stream_shown(old(self)@, event@));
                assert(self.thinking@ =~= Seq::<char>::empty());
                shown
            },
            ProviderEvent::Thinking(t) => {
                self.thinking.append(t.as_str());
                let mut shown = "\x1b[90m".to_owned();
                shown.append(t.as_str());
                shown.append("\x1b[0m");
                shown
            },
            ProviderEvent::ToolCall(c) => {
                let ghost before = self.tool_calls.deep_view();
                self.tool_calls.push(c);
                assert(self.tool_calls.deep_view() =~= before.push(c@));
                String::new()
            },
            ProviderEvent::Done => {
                self.done = true;
                String::new()
            },
        }
    }

    /// What an answer that is reasoning only is reported as.
    pub fn incomplete_message(thinking: &str) -> (r: String)
        ensures
            r@ == incomplete_message(thinking@),
    {
        let mut message = "I was thinking: ".to_owned();
        let preview = take_chars(thinking, THINKING_PREVIEW_CHARS);
        message.append(preview.as_str());
        message.append("... but didn't complete my response. Please try again.");
        message
    }
}

} // verus!
