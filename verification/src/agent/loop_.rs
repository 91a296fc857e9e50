//! The conversation driver.
//!
//! A conversation goes in turns: the provider is asked, its answer is
//! read, the tools that it calls are run one after the other, and the
//! history is compacted where it has grown too long. The driver decides
//! each next step; the caller carries it out and reports what came of it.

use crate::agent::compaction::{
    compact_history,
    compacted,
    compaction_count,
    compaction_source,
    compaction_transcript,
    needs_compaction,
    should_compact_history,
    summary_request,
    summary_request_of,
    transcript,
    DEFAULT_MAX_HISTORY,
};
use crate::agent::context::{
    system_prompt,
    turn_messages,
    ContextBuilder,
    ContextBuilderView,
    PromptInputs,
};
use crate::agent::fallback::{
    default_tag_views,
    default_tags,
    parse,
    parse_tool_calls_with_tags,
    TagPair,
    TagPairView,
};
use crate::agent::repeat::{
    detect,
    detect_tool_loop,
    slide_all,
    window_stays_within_its_size,
    ToolCallSignature,
    ToolCallSignatureView,
    LOOP_DETECTION_WINDOW,
};
use crate::agent::stream::{incomplete_message, StreamAccumulator, StreamAccumulatorView};
use crate::digest::{md5_hex, md5_hex_of};
use crate::json::{json_error, json_error_of};
use crate::skills::manifest::Skill;
use crate::text::{trim, trimmed};
use crate::traits::memory::{MemoryCategory, MemoryCategoryView};
use crate::traits::provider::{
    ChatMessage,
    ChatMessageView,
    ChatResponse,
    ChatResponseView,
    ToolCall,
    ToolCallView,
};
use crate::traits::tool::{ToolResult, ToolResultView};
use std::collections::VecDeque;
use vstd::prelude::*;
use vstd::string::*;

verus! {

/// How many turns a conversation may take, where the caller sets no other
/// limit.
pub const DEFAULT_MAX_ITERATIONS: usize = 20;

/// Why a conversation ended without an answer.
#[derive(Debug)]
pub enum AgentError {
    /// The model's answer held neither text nor tool calls.
    EmptyResponse,
    /// The provider gave no answer at all.
    NoResponse,
    /// The model reasoned and then stopped; the message quotes it.
    IncompleteResponse(String),
    /// The model repeats one tool call; the message names the tool.
    ToolLoop(String),
    /// The arguments of a tool call are no JSON; the message says why.
    InvalidArguments(String),
    /// The provider failed; the message is its own.
    Provider(String),
}

/// An `AgentError` as plain values.
pub enum AgentErrorView {
    EmptyResponse,
    NoResponse,
    IncompleteResponse(Seq<char>),
    ToolLoop(Seq<char>),
    InvalidArguments(Seq<char>),
    Provider(Seq<char>),
}

impl View for AgentError {
    type V = AgentErrorView;

    open spec fn view(&self) -> AgentErrorView {
        match self {
            AgentError::EmptyResponse => AgentErrorView::EmptyResponse,
            AgentError::NoResponse => AgentErrorView::NoResponse,
            AgentError::IncompleteResponse(m) => AgentErrorView::IncompleteResponse(m@),
            AgentError::ToolLoop(m) => AgentErrorView::ToolLoop(m@),
            AgentError::InvalidArguments(m) => AgentErrorView::InvalidArguments(m@),
            AgentError::Provider(m) => AgentErrorView::Provider(m@),
        }
    }
}

impl DeepView for AgentError {
    type V = AgentErrorView;

    open spec fn deep_view(&self) -> AgentErrorView {
        self@
    }
}

impl AgentErrorView {
    /// The error in words.
    pub open spec fn message(self) -> Seq<char> {
        match self {
            AgentErrorView::EmptyResponse => "Empty response from model. Please try again."@,
            AgentErrorView::NoResponse => "No response from provider"@,
            AgentErrorView::IncompleteResponse(m) => m,
            AgentErrorView::ToolLoop(m) => m,
            AgentErrorView::InvalidArguments(m) => m,
            AgentErrorView::Provider(m) => m,
        }
    }
}

impl AgentError {
    /// The error in words.
    pub fn message(&self) -> (r: String)
        ensures
            r@ == self@.message(),
    {
        match self {
            AgentError::EmptyResponse => "Empty response from model. Please try again.".to_owned(),
            AgentError::NoResponse => "No response from provider".to_owned(),
            AgentError::IncompleteResponse(m) => m.clone(),
            AgentError::ToolLoop(m) => m.clone(),
            AgentError::InvalidArguments(m) => m.clone(),
            AgentError::Provider(m) => m.clone(),
        }
    }
}

/// What is written to the memory store for one message.
#[derive(Debug)]
pub struct MemoryRecord {
    pub key: String,
    pub content: String,
    pub category: MemoryCategory,
}

/// A `MemoryRecord` as plain values.
pub struct MemoryRecordView {
    pub key: Seq<char>,
    pub content: Seq<char>,
    pub category: MemoryCategoryView,
}

impl View for MemoryRecord {
    type V = MemoryRecordView;

    open spec fn view(&self) -> MemoryRecordView {
        MemoryRecordView { key: self.key@, content: self.content@, category: self.category@ }
    }
}

impl DeepView for MemoryRecord {
    type V = MemoryRecordView;

    open spec fn deep_view(&self) -> MemoryRecordView {
        self@
    }
}

/// The record for a message of `role` with `content`: none where there is
/// no memory store or the content is blank; else a daily record under a
/// key made of the role and a digest of the content.
pub open spec fn memory_record_of(has_memory: bool, role: Seq<char>, content: Seq<char>) -> Option<
    MemoryRecordView,
> {
    if has_memory && trim(content).len() > 0 {
        Some(
            MemoryRecordView {
                key: "msg_"@ + role + "_"@ + md5_hex_of(content),
                content,
                category: MemoryCategoryView::Daily,
            },
        )
    } else {
        None
    }
}

/// The state of a conversation between two steps.
#[derive(Debug)]
pub struct Conversation {
    /// The messages so far.
    pub messages: Vec<ChatMessage>,
    /// How many turns have begun.
    pub iterations: usize,
    /// The signatures of the last tool calls.
    pub recent_tool_calls: VecDeque<ToolCallSignature>,
}

/// A `Conversation` as plain values.
pub struct ConversationView {
    pub messages: Seq<ChatMessageView>,
    pub iterations: nat,
    pub recent_tool_calls: Seq<ToolCallSignatureView>,
}

impl View for Conversation {
    type V = ConversationView;

    open spec fn view(&self) -> ConversationView {
        ConversationView {
            messages: self.messages.deep_view(),
            iterations: self.iterations as nat,
            recent_tool_calls: self.recent_tool_calls.deep_view(),
        }
    }
}

/// What the caller is to do next.
#[derive(Debug)]
pub enum Step {
    /// Ask the provider with the conversation's messages and the specs of
    /// the tools, then report the answer.
    CallProvider(Conversation),
    /// Run the call, then report its result. The calls behind it wait.
    ExecuteTool(Conversation, ToolCall, Vec<ToolCall>),
    /// Ask the provider, apart from the conversation and without tools,
    /// to summarise the transcript, then report the summary.
    Summarize(Conversation, String),
    /// Nothing: the conversation has ended, with an answer or an error.
    Finished(Conversation, Result<String, AgentError>),
}

/// A `Step` as plain values.
pub enum StepView {
    CallProvider(ConversationView),
    ExecuteTool(ConversationView, ToolCallView, Seq<ToolCallView>),
    Summarize(ConversationView, Seq<char>),
    Finished(ConversationView, Result<Seq<char>, AgentErrorView>),
}

impl View for Step {
    type V = StepView;

    open spec fn view(&self) -> StepView {
        match self {
            Step::CallProvider(c) => StepView::CallProvider(c@),
            Step::ExecuteTool(c, call, rest) => StepView::ExecuteTool(
                c@,
                call@,
                rest.deep_view(),
            ),
            Step::Summarize(c, t) => StepView::Summarize(c@, t@),
            Step::Finished(c, outcome) => StepView::Finished(
                c@,
                match outcome {
                    Ok(text) => Ok(text@),
                    Err(e) => Err(e@),
                },
            ),
        }
    }
}

/// A step, and what is to be written to the memory store on the way. The
/// write is not waited for, and its failure changes nothing.
#[derive(Debug)]
pub struct Transition {
    pub step: Step,
    pub store: Option<MemoryRecord>,
}

/// A `Transition` as plain values.
pub struct TransitionView {
    pub step: StepView,
    pub store: Option<MemoryRecordView>,
}

impl View for Transition {
    type V = TransitionView;

    open spec fn view(&self) -> TransitionView {
        TransitionView { step: self.step@, store: self.store.deep_view() }
    }
}

/// The limits of a loop, whether it has a memory store, and the tag pairs
/// by which it finds tool calls in the text of an answer.
pub struct AgentConfig {
    pub max_iterations: nat,
    pub max_history: nat,
    pub has_memory: bool,
    pub tags: Seq<TagPairView>,
}

/// What a conversation that ran out of turns answers.
pub open spec fn max_iterations_text() -> Seq<char> {
    "Max iterations reached"@
}

/// What is reported where the arguments of a call of `name` are no JSON.
pub open spec fn invalid_arguments_message(name: Seq<char>, error: Seq<char>) -> Seq<char> {
    "Failed to parse tool arguments for "@ + name + ": "@ + error
}

/// The step that begins the next turn: a call of the provider, or the end
/// where the turns are used up.
pub open spec fn next_turn(config: AgentConfig, conversation: ConversationView) -> StepView {
    if conversation.iterations < config.max_iterations {
        StepView::CallProvider(
            ConversationView { iterations: conversation.iterations + 1, ..conversation },
        )
    } else {
        StepView::Finished(conversation, Ok(max_iterations_text()))
    }
}

/// The step behind the last tool call of a turn: a summary where the
/// history has grown too long and there is something to compact, else the
/// next turn.
pub open spec fn after_tools(config: AgentConfig, conversation: ConversationView) -> StepView {
    if needs_compaction(conversation.messages, config.max_history) && compaction_count(
        conversation.messages,
    ) > 0 {
        StepView::Summarize(conversation, transcript(compaction_source(conversation.messages)))
    } else {
        next_turn(config, conversation)
    }
}

/// The step that runs the first of `calls`. Arguments that are no JSON end
/// the conversation at once. With no call left, the turn is over.
pub open spec fn dispatch(
    config: AgentConfig,
    conversation: ConversationView,
    calls: Seq<ToolCallView>,
) -> StepView {
    if calls.len() == 0 {
        after_tools(config, conversation)
    } else {
        match json_error_of(calls[0].arguments) {
            Some(error) => StepView::Finished(
                conversation,
                Err(
                    AgentErrorView::InvalidArguments(
                        invalid_arguments_message(calls[0].name, error),
                    ),
                ),
            ),
            None => StepView::ExecuteTool(conversation, calls[0], calls.drop_first()),
        }
    }
}

/// The step behind a tool's run: the result joins the conversation as a
/// tool message under the call's id, and the next call is run.
pub open spec fn tool_result_step(
    config: AgentConfig,
    conversation: ConversationView,
    call: ToolCallView,
    rest: Seq<ToolCallView>,
    result: ToolResultView,
) -> StepView {
    dispatch(
        config,
        ConversationView {
            messages: conversation.messages.push(
                ChatMessageView::tool_result(call.id, result.to_json()),
            ),
            ..conversation
        },
        rest,
    )
}

/// The step behind a summary: the history is compacted with it, and the
/// next turn begins.
pub open spec fn summary_step(
    config: AgentConfig,
    conversation: ConversationView,
    provided: Option<Seq<char>>,
) -> StepView {
    next_turn(
        config,
        ConversationView {
            messages: compacted(conversation.messages, provided),
            ..conversation
        },
    )
}

/// What a turn's text and calls lead to.
///
/// Without calls the text is the answer, and an empty text an error. With
/// calls, their signatures enter the window; a loop ends the conversation;
/// else the assistant's message joins the conversation and the calls are
/// run.
pub open spec fn turn_transition(
    config: AgentConfig,
    conversation: ConversationView,
    text: Seq<char>,
    calls: Seq<ToolCallView>,
) -> TransitionView {
    if calls.len() == 0 {
        if text.len() > 0 {
            TransitionView {
                step: StepView::Finished(
                    ConversationView {
                        messages: conversation.messages.push(ChatMessageView::assistant(text)),
                        ..conversation
                    },
                    Ok(text),
                ),
                store: memory_record_of(config.has_memory, "assistant"@, text),
            }
        } else {
            TransitionView {
                step: StepView::Finished(conversation, Err(AgentErrorView::EmptyResponse)),
                store: None,
            }
        }
    } else {
        let window = slide_all(conversation.recent_tool_calls, calls);
        let seen = ConversationView { recent_tool_calls: window, ..conversation };
        match detect(window) {
            Some(message) => TransitionView {
                step: StepView::Finished(seen, Err(AgentErrorView::ToolLoop(message))),
                store: None,
            },
            None => TransitionView {
                step: dispatch(
                    config,
                    ConversationView {
                        messages: seen.messages.push(
                            ChatMessageView::assistant_with_tool_calls(text, calls),
                        ),
                        ..seen
                    },
                    calls,
                ),
                store: memory_record_of(config.has_memory, "assistant"@, text),
            },
        }
    }
}

/// What an answer in one piece leads to. Tool calls that the provider
/// reports are taken as they are, with its text; else the calls are
/// looked for in the text, between the tag pairs of the loop; no text and
/// no call is an error.
pub open spec fn response_transition(
    config: AgentConfig,
    conversation: ConversationView,
    response: ChatResponseView,
) -> TransitionView {
    if response.tool_calls.len() > 0 {
        turn_transition(
            config,
            conversation,
            match response.text {
                Some(t) => t,
                None => Seq::empty(),
            },
            response.tool_calls,
        )
    } else {
        match response.text {
            Some(t) => turn_transition(
                config,
                conversation,
                parse(t, config.tags).0,
                parse(t, config.tags).1,
            ),
            None => TransitionView {
                step: StepView::Finished(conversation, Err(AgentErrorView::NoResponse)),
                store: None,
            },
        }
    }
}

/// What a stream that has been gathered leads to. Reasoning with no
/// answer and no call is an incomplete answer; the rest goes as a turn
/// with the answer and the calls as they came.
pub open spec fn stream_transition(
    config: AgentConfig,
    conversation: ConversationView,
    gathered: StreamAccumulatorView,
) -> TransitionView {
    if gathered.tool_calls.len() == 0 && gathered.response.len() == 0 && gathered.thinking.len()
        > 0 {
        TransitionView {
            step: StepView::Finished(
                conversation,
                Err(AgentErrorView::IncompleteResponse(incomplete_message(gathered.thinking))),
            ),
            store: None,
        }
    } else {
        turn_transition(config, conversation, gathered.response, gathered.tool_calls)
    }
}

/// How a conversation begins: with the messages of the first turn, no turn
/// begun and an empty window. The user's message goes to the memory
/// store.
pub open spec fn start_transition(
    config: AgentConfig,
    prompt: Seq<char>,
    history: Seq<ChatMessageView>,
    message: Seq<char>,
) -> TransitionView {
    TransitionView {
        step: next_turn(
            config,
            ConversationView {
                messages: turn_messages(prompt, history, message),
                iterations: 0,
                recent_tool_calls: Seq::empty(),
            },
        ),
        store: memory_record_of(config.has_memory, "user"@, message),
    }
}

/// The conversation that a step carries.
pub open spec fn conversation_of(step: StepView) -> ConversationView {
    match step {
        StepView::CallProvider(c) => c,
        StepView::ExecuteTool(c, _, _) => c,
        StepView::Summarize(c, _) => c,
        StepView::Finished(c, _) => c,
    }
}

/// Whether every tool message among `messages` says which call it
/// answers.
pub open spec fn tool_messages_name_their_call(messages: Seq<ChatMessageView>) -> bool {
    forall|i: int|
        0 <= i < messages.len() && (#[trigger] messages[i]).role == "tool"@
            ==> messages[i].tool_call_id is Some
}

/// What holds of a conversation between any two steps: no more turns
/// have begun than the limit allows, the window holds at most five
/// signatures, and every tool message says which call it answers.
pub open spec fn in_order(config: AgentConfig, conversation: ConversationView) -> bool {
    &&& conversation.iterations <= config.max_iterations
    &&& conversation.recent_tool_calls.len() <= LOOP_DETECTION_WINDOW
    &&& tool_messages_name_their_call(conversation.messages)
}

/// The roles that the loop gives its own messages are four different
/// ones.
pub proof fn roles_differ()
    ensures
        "system"@ != "tool"@,
        "user"@ != "tool"@,
        "assistant"@ != "tool"@,
{
    reveal_strlit("system");
    reveal_strlit("user");
    reveal_strlit("assistant");
    reveal_strlit("tool");
    assert("system"@[0] == 's' && "user"@[0] == 'u' && "assistant"@[0] == 'a' && "tool"@[0]
        == 't');
}

/// A conversation begins in order, where the history that it begins with
/// names the call of each of its tool messages.
pub proof fn conversations_begin_in_order(
    config: AgentConfig,
    prompt: Seq<char>,
    history: Seq<ChatMessageView>,
    message: Seq<char>,
)
    requires
        tool_messages_name_their_call(history),
    ensures
        in_order(
            config,
            conversation_of(start_transition(config, prompt, history, message).step),
        ),
{
    roles_differ();
    let messages = turn_messages(prompt, history, message);
    assert forall|i: int|
        0 <= i < messages.len() && (#[trigger] messages[i]).role
            == "tool"@ implies messages[i].tool_call_id is Some by {
        if 1 <= i <= history.len() {
            assert(messages[i] == history[i - 1]);
        }
    }
}

/// The next turn keeps a conversation in order.
pub proof fn next_turn_keeps_order(config: AgentConfig, conversation: ConversationView)
    requires
        in_order(config, conversation),
    ensures
        in_order(config, conversation_of(next_turn(config, conversation))),
{
}

/// Running calls keeps a conversation in order.
pub proof fn dispatch_keeps_order(
    config: AgentConfig,
    conversation: ConversationView,
    calls: Seq<ToolCallView>,
)
    requires
        in_order(config, conversation),
    ensures
        in_order(config, conversation_of(dispatch(config, conversation, calls))),
{
}

/// Whatever the provider answers, in one piece or as a stream, whatever a
/// tool gives and whatever summary comes, the conversation stays in
/// order.
pub proof fn every_step_keeps_order(
    config: AgentConfig,
    conversation: ConversationView,
    response: ChatResponseView,
    gathered: StreamAccumulatorView,
    call: ToolCallView,
    rest: Seq<ToolCallView>,
    result: ToolResultView,
    provided: Option<Seq<char>>,
)
    requires
        in_order(config, conversation),
    ensures
        in_order(
            config,
            conversation_of(response_transition(config, conversation, response).step),
        ),
        in_order(config, conversation_of(stream_transition(config, conversation, gathered).step)),
        in_order(
            config,
            conversation_of(tool_result_step(config, conversation, call, rest, result)),
        ),
        in_order(config, conversation_of(summary_step(config, conversation, provided))),
{
    roles_differ();
    turn_keeps_order(
        config,
        conversation,
        match response.text {
            Some(t) => t,
            None => Seq::empty(),
        },
        response.tool_calls,
    );
    if response.text is Some {
        let parsed = parse(response.text->0, config.tags);
        turn_keeps_order(config, conversation, parsed.0, parsed.1);
    }
    turn_keeps_order(config, conversation, gathered.response, gathered.tool_calls);
    let answered = ConversationView {
        messages: conversation.messages.push(
            ChatMessageView::tool_result(call.id, result.to_json()),
        ),
        ..conversation
    };
    assert(in_order(config, answered));
    dispatch_keeps_order(config, answered, rest);
    let after = compacted(conversation.messages, provided);
    let start = crate::agent::compaction::compaction_start(conversation.messages);
    let count = compaction_count(conversation.messages);
    assert forall|i: int|
        0 <= i < after.len() && (#[trigger] after[i]).role == "tool"@ implies after[i].tool_call_id
        is Some by {
        if count > 0 {
            if i < start {
                assert(after[i] == conversation.messages[i]);
            } else if i > start {
                assert(after[i] == conversation.messages[i - 1 + count]);
            }
        }
    }
    next_turn_keeps_order(config, ConversationView { messages: after, ..conversation });
}

/// A turn's text and calls keep a conversation in order.
pub proof fn turn_keeps_order(
    config: AgentConfig,
    conversation: ConversationView,
    text: Seq<char>,
    calls: Seq<ToolCallView>,
)
    requires
        in_order(config, conversation),
    ensures
        in_order(config, conversation_of(turn_transition(config, conversation, text, calls).step)),
{
    roles_differ();
    window_stays_within_its_size(conversation.recent_tool_calls, calls);
    if calls.len() > 0 {
        let window = slide_all(conversation.recent_tool_calls, calls);
        let seen = ConversationView { recent_tool_calls: window, ..conversation };
        let said = ConversationView {
            messages: seen.messages.push(ChatMessageView::assistant_with_tool_calls(text, calls)),
            ..seen
        };
        assert(in_order(config, said));
        dispatch_keeps_order(config, said, calls);
    }
}

/// How far a step is from the end of the conversation: the turns that
/// may still begin, then how far the turn has come, then the calls that
/// wait.
pub struct Rank {
    pub turns: int,
    pub stage: int,
    pub waiting: int,
}

/// The rank of a step.
pub open spec fn rank(config: AgentConfig, step: StepView) -> Rank {
    let turns = config.max_iterations - conversation_of(step).iterations;
    match step {
        StepView::CallProvider(_) => Rank { turns, stage: 3, waiting: 0 },
        StepView::ExecuteTool(_, _, rest) => Rank { turns, stage: 2, waiting: rest.len() as int },
        StepView::Summarize(_, _) => Rank { turns, stage: 1, waiting: 0 },
        StepView::Finished(_, _) => Rank { turns, stage: 0, waiting: 0 },
    }
}

/// Whether `after` is closer to the end than `before`: fewer turns, or as
/// many and an earlier stage left behind, or the same stage and fewer
/// calls waiting.
pub open spec fn closer(after: Rank, before: Rank) -> bool {
    &&& 0 <= after.turns && 0 <= after.stage && 0 <= after.waiting
    &&& {
        ||| after.turns < before.turns
        ||| after.turns == before.turns && after.stage < before.stage
        ||| after.turns == before.turns && after.stage == before.stage && after.waiting
            < before.waiting
    }
}

/// Every step brings the conversation closer to its end, so every
/// conversation ends: the answer of the provider leads to a step of lower
/// rank than the request, the result of a tool to one of lower rank than
/// the call, and a summary to one of lower rank than the request for it.
pub proof fn every_step_comes_closer_to_the_end(
    config: AgentConfig,
    conversation: ConversationView,
    response: ChatResponseView,
    gathered: StreamAccumulatorView,
    call: ToolCallView,
    rest: Seq<ToolCallView>,
    result: ToolResultView,
    transcript: Seq<char>,
    provided: Option<Seq<char>>,
)
    requires
        in_order(config, conversation),
    ensures
        closer(
            rank(config, response_transition(config, conversation, response).step),
            rank(config, StepView::CallProvider(conversation)),
        ),
        closer(
            rank(config, stream_transition(config, conversation, gathered).step),
            rank(config, StepView::CallProvider(conversation)),
        ),
        closer(
            rank(config, tool_result_step(config, conversation, call, rest, result)),
            rank(config, StepView::ExecuteTool(conversation, call, rest)),
        ),
        closer(
            rank(config, summary_step(config, conversation, provided)),
            rank(config, StepView::Summarize(conversation, transcript)),
        ),
{
}

/// The tool messages that answer `calls` with `results`, in the order of
/// the calls.
pub open spec fn tool_messages(calls: Seq<ToolCallView>, results: Seq<ToolResultView>) -> Seq<
    ChatMessageView,
> {
    Seq::new(calls.len(), |i: int| ChatMessageView::tool_result(calls[i].id, results[i].to_json()))
}

/// The step that the loop has come to once the tools were run and gave
/// `results`, one for each call that the loop asked to run, in order.
/// Results that nothing asked for are not read.
pub open spec fn after_results(config: AgentConfig, step: StepView, results: Seq<ToolResultView>)
    -> StepView
    decreases results.len(),
{
    if results.len() == 0 {
        step
    } else {
        match step {
            StepView::ExecuteTool(conversation, call, rest) => after_results(
                config,
                tool_result_step(config, conversation, call, rest, results[0]),
                results.drop_first(),
            ),
            _ => step,
        }
    }
}

/// Whether the arguments of every call are JSON.
pub open spec fn arguments_are_json(calls: Seq<ToolCallView>) -> bool {
    forall|i: int| 0 <= i < calls.len() ==> json_error_of((#[trigger] calls[i]).arguments) is None
}

/// Calls whose arguments are JSON are run once each, in the order in
/// which they came, and each result joins the conversation as the tool
/// message of its call; whether a tool succeeded changes nothing in
/// that. Behind the last result the turn is over.
pub proof fn calls_are_run_once_each_in_order(
    config: AgentConfig,
    conversation: ConversationView,
    calls: Seq<ToolCallView>,
    results: Seq<ToolResultView>,
)
    requires
        calls.len() == results.len(),
        arguments_are_json(calls),
    ensures
        after_results(config, dispatch(config, conversation, calls), results) == after_tools(
            config,
            ConversationView {
                messages: conversation.messages + tool_messages(calls, results),
                ..conversation
            },
        ),
        forall|n: int|
            0 <= n < calls.len() ==> #[trigger] after_results(
                config,
                dispatch(config, conversation, calls),
                results.take(n),
            ) == StepView::ExecuteTool(
                ConversationView {
                    messages: conversation.messages + tool_messages(calls, results).take(n),
                    ..conversation
                },
                calls[n],
                calls.skip(n + 1),
            ),
    decreases calls.len(),
{
    let all = tool_messages(calls, results);
    if calls.len() == 0 {
        assert(conversation.messages + all =~= conversation.messages);
    } else {
        assert(json_error_of(calls[0].arguments) is None);
        let rest = calls.drop_first();
        let later = results.drop_first();
        let answered = ConversationView {
            messages: conversation.messages.push(
                ChatMessageView::tool_result(calls[0].id, results[0].to_json()),
            ),
            ..conversation
        };
        assert forall|i: int| 0 <= i < rest.len() implies json_error_of(
            (#[trigger] rest[i]).arguments,
        ) is None by {
            assert(rest[i] == calls[i + 1]);
        }
        calls_are_run_once_each_in_order(config, answered, rest, later);
        assert(answered.messages + tool_messages(rest, later) =~= conversation.messages + all);
        assert forall|n: int| 0 <= n < calls.len() implies #[trigger] after_results(
            config,
            dispatch(config, conversation, calls),
            results.take(n),
        ) == StepView::ExecuteTool(
            ConversationView { messages: conversation.messages + all.take(n), ..conversation },
            calls[n],
            calls.skip(n + 1),
        ) by {
            if n == 0 {
                assert(results.take(0).len() == 0);
                assert(conversation.messages + all.take(0) =~= conversation.messages);
                assert(calls.skip(1) =~= calls.drop_first());
            } else {
                assert(results.take(n).drop_first() =~= later.take(n - 1));
                assert(results.take(n)[0] == results[0]);
                assert(after_results(config, dispatch(config, answered, rest), later.take(n - 1))
                    == StepView::ExecuteTool(
                    ConversationView {
                        messages: answered.messages + tool_messages(rest, later).take(n - 1),
                        ..answered
                    },
                    rest[n - 1],
                    rest.skip(n),
                ));
                assert(answered.messages + tool_messages(rest, later).take(n - 1)
                    =~= conversation.messages + all.take(n));
                assert(rest.skip(n) =~= calls.skip(n + 1));
            }
        }
    }
}

/// A turn that calls tools and the answer behind it, for every text,
/// every call and every result: where the calls' arguments are JSON, no
/// loop is seen, nothing is to be compacted and a turn may still begin,
/// the loop runs the calls, asks the provider once more with the
/// messages so far, the assistant's message with the calls and the tool
/// messages, and an answer without calls ends the conversation with its
/// text.
pub proof fn a_tool_turn_leads_to_one_more_request(
    config: AgentConfig,
    conversation: ConversationView,
    text: Seq<char>,
    calls: Seq<ToolCallView>,
    results: Seq<ToolResultView>,
    answer: Seq<char>,
)
    requires
        calls.len() > 0,
        calls.len() == results.len(),
        arguments_are_json(calls),
        detect(slide_all(conversation.recent_tool_calls, calls)) is None,
        conversation.iterations < config.max_iterations,
        !needs_compaction(
            conversation.messages.push(ChatMessageView::assistant_with_tool_calls(text, calls))
                + tool_messages(calls, results),
            config.max_history,
        ),
        parse(answer, config.tags).0.len() > 0,
        parse(answer, config.tags).1.len() == 0,
    ensures
        ({
            let asked = ConversationView {
                messages: conversation.messages.push(
                    ChatMessageView::assistant_with_tool_calls(text, calls),
                ) + tool_messages(calls, results),
                iterations: conversation.iterations + 1,
                recent_tool_calls: slide_all(conversation.recent_tool_calls, calls),
            };
            let said = parse(answer, config.tags).0;
            &&& after_results(
                config,
                turn_transition(config, conversation, text, calls).step,
                results,
            ) == StepView::CallProvider(asked)
            &&& response_transition(
                config,
                asked,
                ChatResponseView { text: Some(answer), tool_calls: Seq::empty() },
            ).step == StepView::Finished(
                ConversationView {
                    messages: asked.messages.push(ChatMessageView::assistant(said)),
                    ..asked
                },
                Ok(said),
            )
        }),
{
    let window = slide_all(conversation.recent_tool_calls, calls);
    let said = ConversationView {
        messages: conversation.messages.push(
            ChatMessageView::assistant_with_tool_calls(text, calls),
        ),
        recent_tool_calls: window,
        ..conversation
    };
    calls_are_run_once_each_in_order(config, said, calls, results);
}

/// No result of a tool ends the conversation: behind a result the loop
/// goes on, unless the arguments of the next call are no JSON. So a call
/// of an unknown tool, or a run that failed, is left to the model to deal
/// with.
pub proof fn tool_results_never_end_the_conversation(
    config: AgentConfig,
    conversation: ConversationView,
    call: ToolCallView,
    rest: Seq<ToolCallView>,
    result: ToolResultView,
)
    ensures
        match tool_result_step(config, conversation, call, rest, result) {
            StepView::Finished(_, Err(error)) => rest.len() > 0 && json_error_of(rest[0].arguments)
                is Some && error is InvalidArguments,
            _ => true,
        },
{
}

/// What is done behind a tool's result does not depend on whether the
/// tool succeeded: two results lead to steps of one kind, with the same
/// call to run next.
pub proof fn tool_failure_is_not_a_reason_to_stop(
    config: AgentConfig,
    conversation: ConversationView,
    call: ToolCallView,
    rest: Seq<ToolCallView>,
    one: ToolResultView,
    other: ToolResultView,
)
    ensures
        match (
            tool_result_step(config, conversation, call, rest, one),
            tool_result_step(config, conversation, call, rest, other),
        ) {
            (StepView::CallProvider(_), StepView::CallProvider(_)) => true,
            (StepView::ExecuteTool(_, a, r), StepView::ExecuteTool(_, b, s)) => a == b && r == s,
            (StepView::Summarize(_, _), StepView::Summarize(_, _)) => true,
            (StepView::Finished(_, a), StepView::Finished(_, b)) => a == b,
            _ => false,
        },
{
    let m1 = conversation.messages.push(ChatMessageView::tool_result(call.id, one.to_json()));
    let m2 = conversation.messages.push(ChatMessageView::tool_result(call.id, other.to_json()));
    assert(m1.len() == m2.len());
    if conversation.messages.len() > 0 {
        assert(m1[0] == m2[0]);
    } else {
        assert(m1[0].role == m2[0].role);
    }
}

/// A conversation never takes more turns than the limit allows: a step
/// that asks the provider has begun at most `max_iterations` turns.
pub proof fn turns_stay_within_the_limit(config: AgentConfig, conversation: ConversationView)
    ensures
        match next_turn(config, conversation) {
            StepView::CallProvider(next) => next.iterations <= config.max_iterations
                && next.iterations == conversation.iterations + 1,
            StepView::Finished(_, outcome) => outcome == Ok::<Seq<char>, AgentErrorView>(
                max_iterations_text(),
            ),
            _ => false,
        },
{
}

/// The record for a message of `role` with `content`.
pub fn memory_record(has_memory: bool, role: &str, content: &str) -> (r: Option<MemoryRecord>)
    ensures
        r.deep_view() == memory_record_of(has_memory, role@, content@),
{
    if !has_memory {
        return None;
    }
    if trimmed(content).as_str().is_empty() {
        return None;
    }
    let mut key = "msg_".to_owned();
    key.append(role);
    key.append("_");
    let digest = md5_hex(content);
    key.append(digest.as_str());
    Some(MemoryRecord { key, content: content.to_owned(), category: MemoryCategory::Daily })
}

impl Conversation {
    /// A conversation of `messages` in which no turn has begun.
    pub fn new(messages: Vec<ChatMessage>) -> (r: Self)
        ensures
            r@ == (ConversationView {
                messages: messages.deep_view(),
                iterations: 0,
                recent_tool_calls: Seq::empty(),
            }),
    {
        let r = Conversation { messages, iterations: 0, recent_tool_calls: VecDeque::new() };
        assert(r.recent_tool_calls.deep_view() =~= Seq::<ToolCallSignatureView>::empty());
        r
    }
}

/// Drives conversations. `M` is whatever the caller uses to reach its
/// memory store.
pub struct AgentLoop<M> {
    context_builder: ContextBuilder<M>,
    max_iterations: usize,
    max_history: usize,
    model_name: String,
    tags: Vec<TagPair>,
}

impl<M> AgentLoop<M> {
    /// The limits of the loop, and whether it has a memory store.
    pub closed spec fn config(&self) -> AgentConfig {
        AgentConfig {
            max_iterations: self.max_iterations as nat,
            max_history: self.max_history as nat,
            has_memory: self.context_builder.memory is Some,
            tags: self.tags.deep_view(),
        }
    }

    /// The context builder, as plain values.
    pub closed spec fn context(&self) -> ContextBuilderView {
        self.context_builder@
    }

    /// The name of the model that the provider is asked for.
    pub closed spec fn model(&self) -> Seq<char> {
        self.model_name@
    }

    /// A loop around `context_builder`, with at most 20 turns, at most 50
    /// messages before compaction, the default model and the default tag
    /// pairs.
    pub fn new(context_builder: ContextBuilder<M>) -> (r: Self)
        ensures
            r.config() == (AgentConfig {
                max_iterations: DEFAULT_MAX_ITERATIONS as nat,
                max_history: DEFAULT_MAX_HISTORY as nat,
                has_memory: context_builder@.has_memory,
                tags: default_tag_views(),
            }),
            r.context() == context_builder@,
            r.model() == "openai/gpt-5-mini"@,
    {
        AgentLoop {
            context_builder,
            max_iterations: DEFAULT_MAX_ITERATIONS,
            max_history: DEFAULT_MAX_HISTORY,
            model_name: "openai/gpt-5-mini".to_owned(),
            tags: default_tags(),
        }
    }

    /// The loop with `skills` in place of its skills.
    pub fn with_skills(self, skills: Vec<Skill>) -> (r: Self)
        ensures
            r.config() == self.config(),
            r.context() == (ContextBuilderView { skills: skills.deep_view(), ..self.context() }),
            r.model() == self.model(),
    {
        AgentLoop {
            context_builder: self.context_builder.with_skills(skills),
            max_iterations: self.max_iterations,
            max_history: self.max_history,
            model_name: self.model_name,
            tags: self.tags,
        }
    }

    /// The loop with at most `max` turns.
    pub fn with_max_iterations(self, max: usize) -> (r: Self)
        ensures
            r.config() == (AgentConfig { max_iterations: max as nat, ..self.config() }),
            r.context() == self.context(),
            r.model() == self.model(),
    {
        AgentLoop {
            context_builder: self.context_builder,
            max_iterations: max,
            max_history: self.max_history,
            model_name: self.model_name,
            tags: self.tags,
        }
    }

    /// The loop with at most `max` messages before compaction.
    pub fn with_max_history(self, max: usize) -> (r: Self)
        ensures
            r.config() == (AgentConfig { max_history: max as nat, ..self.config() }),
            r.context() == self.context(),
            r.model() == self.model(),
    {
        AgentLoop {
            context_builder: self.context_builder,
            max_iterations: self.max_iterations,
            max_history: max,
            model_name: self.model_name,
            tags: self.tags,
        }
    }

    /// The loop with `model_name` as the model to ask for.
    pub fn with_model_name(self, model_name: String) -> (r: Self)
        ensures
            r.config() == self.config(),
            r.context() == self.context(),
            r.model() == model_name@,
    {
        AgentLoop {
            context_builder: self.context_builder,
            max_iterations: self.max_iterations,
            max_history: self.max_history,
            model_name,
            tags: self.tags,
        }
    }

    /// The loop with `tags` as the tag pairs by which tool calls are found
    /// in the text of an answer.
    pub fn with_tool_call_tags(self, tags: Vec<TagPair>) -> (r: Self)
        ensures
            r.config() == (AgentConfig { tags: tags.deep_view(), ..self.config() }),
            r.context() == self.context(),
            r.model() == self.model(),
    {
        AgentLoop {
            context_builder: self.context_builder,
            max_iterations: self.max_iterations,
            max_history: self.max_history,
            model_name: self.model_name,
            tags,
        }
    }

    /// The context builder.
    pub fn context_builder(&self) -> (r: &ContextBuilder<M>)
        ensures
            r@ == self.context(),
            (r.memory is Some) == self.config().has_memory,
    {
        &self.context_builder
    }

    /// How many turns a conversation may take.
    pub fn max_iterations(&self) -> (r: usize)
        ensures
            r == self.config().max_iterations,
    {
        self.max_iterations
    }

    /// How many messages a conversation may hold before compaction.
    pub fn max_history(&self) -> (r: usize)
        ensures
            r == self.config().max_history,
    {
        self.max_history
    }

    /// The name of the model that the provider is asked for.
    pub fn model_name(&self) -> (r: &str)
        ensures
            r@ == self.model(),
    {
        self.model_name.as_str()
    }

    /// The record for a message of `role` with `content`, if the loop has
    /// a memory store and the content is not blank.
    pub fn store_message(&self, role: &str, content: &str) -> (r: Option<MemoryRecord>)
        ensures
            r.deep_view() == memory_record_of(self.config().has_memory, role@, content@),
    {
        memory_record(self.context_builder.memory.is_some(), role, content)
    }

    /// The step that begins the next turn.
    fn next_turn(&self, conversation: Conversation) -> (r: Step)
        ensures
            r@ == next_turn(self.config(), conversation@),
    {
        let mut conversation = conversation;
        if conversation.iterations < self.max_iterations {
            conversation.iterations = conversation.iterations + 1;
            Step::CallProvider(conversation)
        } else {
            Step::Finished(conversation, Ok("Max iterations reached".to_owned()))
        }
    }

    /// The step behind the last tool call of a turn.
    fn after_tools(&self, conversation: Conversation) -> (r: Step)
        ensures
            r@ == after_tools(self.config(), conversation@),
    {
        if should_compact_history(&conversation.messages, self.max_history) {
            match compaction_transcript(&conversation.messages) {
                Some(source) => {
                    return Step::Summarize(conversation, source);
                },
                None => {},
            }
        }
        self.next_turn(conversation)
    }

    /// The step that runs the first of `calls`.
    fn dispatch(&self, conversation: Conversation, calls: Vec<ToolCall>) -> (r: Step)
        ensures
            r@ == dispatch(self.config(), conversation@, calls.deep_view()),
    {
        if calls.is_empty() {
            return self.after_tools(conversation);
        }
        let ghost all = calls.deep_view();
        let mut rest = calls;
        let call = rest.remove(0);
        assert(rest.deep_view() =~= all.drop_first());
        assert(call@ == all[0]);
        match json_error(call.arguments.as_str()) {
            Some(error) => {
                let mut message = "Failed to parse tool arguments for ".to_owned();
                message.append(call.name.as_str());
                message.append(": ");
                message.append(error.as_str());
                Step::Finished(conversation, Err(AgentError::InvalidArguments(message)))
            },
            None => Step::ExecuteTool(conversation, call, rest),
        }
    }

    /// What a turn's text and calls lead to.
    fn on_turn(&self, conversation: Conversation, text: String, calls: Vec<ToolCall>) -> (r:
        Transition)
        ensures
            r@ == turn_transition(self.config(), conversation@, text@, calls.deep_view()),
    {
        let mut conversation = conversation;
        if calls.is_empty() {
            if text.as_str().is_empty() {
                return Transition {
                    step: Step::Finished(conversation, Err(AgentError::EmptyResponse)),
                    store: None,
                };
            }
            let store = self.store_message("assistant", text.as_str());
            let ghost before = conversation.messages.deep_view();
            let answer = ChatMessage::assistant(text.as_str());
            conversation.messages.push(answer);
            assert(conversation.messages.deep_view() =~= before.push(answer@));
            return Transition { step: Step::Finished(conversation, Ok(text)), store };
        }
        match detect_tool_loop(&mut conversation.recent_tool_calls, &calls) {
            Some(message) => Transition {
                step: Step::Finished(conversation, Err(AgentError::ToolLoop(message))),
                store: None,
            },
            None => {
                let store = self.store_message("assistant", text.as_str());
                let copy = calls.clone();
                assert(copy@ =~= calls@);
                assert(copy.deep_view() =~= calls.deep_view());
                let ghost before = conversation.messages.deep_view();
                let said = ChatMessage::assistant_with_tool_calls(text.as_str(), copy);
                conversation.messages.push(said);
                assert(conversation.messages.deep_view() =~= before.push(said@));
                Transition { step: self.dispatch(conversation, calls), store }
            },
        }
    }

    /// Begins a conversation with the system prompt `prompt`: the
    /// messages of the first turn are the prompt, `history` and `message`.
    pub fn start_with_prompt(&self, prompt: &str, history: Vec<ChatMessage>, message: &str) -> (r:
        Transition)
        ensures
            r@ == start_transition(self.config(), prompt@, history.deep_view(), message@),
    {
        let store = self.store_message("user", message);
        let messages = ContextBuilder::<M>::messages_with_prompt(prompt, history, message);
        let conversation = Conversation::new(messages);
        Transition { step: self.next_turn(conversation), store }
    }

    /// Begins a conversation. The system prompt is built from what the
    /// caller read for it, for the time that the clock gives.
    pub fn start(&self, history: Vec<ChatMessage>, message: &str, inputs: &PromptInputs) -> (r:
        Transition)
        ensures
            exists|timestamp: Seq<char>|
                r@ == start_transition(
                    self.config(),
                    #[trigger] system_prompt(self.context(), inputs@, timestamp),
                    history.deep_view(),
                    message@,
                ),
    {
        let prompt = self.context_builder.build_system_prompt(inputs);
        let ghost timestamp = choose|timestamp: Seq<char>|
            prompt@ == #[trigger] system_prompt(self.context(), inputs@, timestamp);
        let r = self.start_with_prompt(prompt.as_str(), history, message);
        assert(r@ == start_transition(
            self.config(),
            system_prompt(self.context(), inputs@, timestamp),
            history.deep_view(),
            message@,
        ));
        r
    }

    /// Takes the provider's answer in one piece.
    pub fn on_response(&self, conversation: Conversation, response: ChatResponse) -> (r:
        Transition)
        ensures
            r@ == response_transition(self.config(), conversation@, response@),
    {
        if response.has_tool_calls() {
            let text = match response.text {
                Some(t) => t,
                None => String::new(),
            };
            return self.on_turn(conversation, text, response.tool_calls);
        }
        match response.text {
            Some(t) => {
                let (text, calls) = parse_tool_calls_with_tags(t.as_str(), &self.tags);
                self.on_turn(conversation, text, calls)
            },
            None => Transition {
                step: Step::Finished(conversation, Err(AgentError::NoResponse)),
                store: None,
            },
        }
    }

    /// Takes what a stream gave, once it has ended.
    pub fn on_stream_end(&self, conversation: Conversation, gathered: StreamAccumulator) -> (r:
        Transition)
        ensures
            r@ == stream_transition(self.config(), conversation@, gathered@),
    {
        if gathered.tool_calls.is_empty() && gathered.response.as_str().is_empty()
            && !gathered.thinking.as_str().is_empty() {
            let message = StreamAccumulator::incomplete_message(gathered.thinking.as_str());
            return Transition {
                step: Step::Finished(conversation, Err(AgentError::IncompleteResponse(message))),
                store: None,
            };
        }
        self.on_turn(conversation, gathered.response, gathered.tool_calls)
    }

    /// Takes the failure of the provider: the conversation ends with it.
    pub fn on_provider_error(&self, conversation: Conversation, message: String) -> (r: Transition)
        ensures
            r@ == (TransitionView {
                step: StepView::Finished(conversation@, Err(AgentErrorView::Provider(message@))),
                store: None,
            }),
    {
        Transition {
            step: Step::Finished(conversation, Err(AgentError::Provider(message))),
            store: None,
        }
    }

    /// Takes the result of running `call`, with the calls in `rest` still
    /// to run.
    pub fn on_tool_result(
        &self,
        conversation: Conversation,
        call: ToolCall,
        rest: Vec<ToolCall>,
        result: &ToolResult,
    ) -> (r: Step)
        ensures
            r@ == tool_result_step(
                self.config(),
                conversation@,
                call@,
                rest.deep_view(),
                result@,
            ),
    {
        let mut conversation = conversation;
        let content = result.to_json();
        let ghost before = conversation.messages.deep_view();
        let answer = ChatMessage::tool_result(call.id, content.as_str());
        conversation.messages.push(answer);
        assert(conversation.messages.deep_view() =~= before.push(answer@));
        self.dispatch(conversation, rest)
    }

    /// The request that asks the provider for a summary of `transcript`.
    pub fn summarize(&self, transcript: &str) -> (r: Vec<ChatMessage>)
        ensures
            r.deep_view() == summary_request_of(transcript@),
    {
        summary_request(transcript)
    }

    /// Takes the summary that the provider gave, or `None` where it
    /// failed or gave no text.
    pub fn on_summary(&self, conversation: Conversation, summary: Option<String>) -> (r: Step)
        ensures
            r@ == summary_step(self.config(), conversation@, summary.deep_view()),
    {
        let mut conversation = conversation;
        compact_history(&mut conversation.messages, summary);
        self.next_turn(conversation)
    }
}

} // verus!
