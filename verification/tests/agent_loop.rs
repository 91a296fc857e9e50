use dinoe_core::agent::context::{ContextBuilder, PromptInputs};
use dinoe_core::agent::fallback::TagPair;
use dinoe_core::agent::loop_::{
    memory_record, AgentError, AgentLoop, Conversation, Step, Transition,
    DEFAULT_MAX_ITERATIONS,
};
use dinoe_core::agent::registry::ToolRegistry;
use dinoe_core::agent::stream::StreamAccumulator;
use dinoe_core::tools::ShellTool;
use dinoe_core::traits::{
    ChatMessage, ChatResponse, MemoryCategory, ProviderEvent, ToolCall, ToolResult,
};

fn agent() -> AgentLoop<()> {
    AgentLoop::new(ContextBuilder::new("/w"))
}

fn agent_with_memory() -> AgentLoop<()> {
    AgentLoop::new(ContextBuilder::new("/w").with_memory(()))
}

fn call(id: &str, name: &str, arguments: &str) -> ToolCall {
    ToolCall { id: id.to_string(), name: name.to_string(), arguments: arguments.to_string() }
}

fn text(t: &str) -> ChatResponse {
    ChatResponse { text: Some(t.to_string()), tool_calls: vec![] }
}

fn calls(t: Option<&str>, tool_calls: Vec<ToolCall>) -> ChatResponse {
    ChatResponse { text: t.map(|s| s.to_string()), tool_calls }
}

struct Run {
    outcome: Result<String, AgentError>,
    messages: Vec<ChatMessage>,
    provider_calls: usize,
    tool_runs: Vec<String>,
    summaries: usize,
    iterations: usize,
}

/// Carries out the steps as a caller would: `provider` answers each request,
/// `tool` runs each call, `summary` answers each request for a summary.
fn drive(
    agent: &AgentLoop<()>,
    first: Transition,
    mut provider: impl FnMut(&[ChatMessage]) -> Result<ChatResponse, String>,
    mut tool: impl FnMut(&ToolCall) -> ToolResult,
    mut summary: impl FnMut(&str) -> Option<String>,
) -> Run {
    let mut step = first.step;
    let mut provider_calls = 0;
    let mut tool_runs = Vec::new();
    let mut summaries = 0;
    loop {
        step = match step {
            Step::CallProvider(conversation) => {
                provider_calls += 1;
                match provider(&conversation.messages) {
                    Ok(response) => agent.on_response(conversation, response).step,
                    Err(e) => agent.on_provider_error(conversation, e).step,
                }
            }
            Step::ExecuteTool(conversation, call, rest) => {
                tool_runs.push(call.name.clone());
                let result = tool(&call);
                agent.on_tool_result(conversation, call, rest, &result)
            }
            Step::Summarize(conversation, transcript) => {
                summaries += 1;
                let request = agent.summarize(&transcript);
                assert_eq!(request.len(), 2);
                let provided = summary(&transcript);
                agent.on_summary(conversation, provided)
            }
            Step::Finished(conversation, outcome) => {
                return Run {
                    outcome,
                    iterations: conversation.iterations,
                    messages: conversation.messages,
                    provider_calls,
                    tool_runs,
                    summaries,
                };
            }
        };
    }
}

#[test]
fn date_question_runs_the_shell_once_and_answers_in_the_second_turn() {
    let agent = agent();
    let mut registry = ToolRegistry::new();
    registry.register(ShellTool::new("/w"));
    let mut turn = 0;
    let run = drive(
        &agent,
        agent.start_with_prompt("P", vec![], "what's the date?"),
        |messages| {
            turn += 1;
            if turn == 1 {
                assert_eq!(messages.len(), 2);
                Ok(calls(None, vec![call("c1", "shell", "{\"command\":\"date\"}")]))
            } else {
                assert_eq!(messages.len(), 4);
                Ok(text("It is Monday."))
            }
        },
        |c| {
            registry.execute(&c.name, &c.arguments, |tool, args| {
                assert_eq!(tool.plan(args), Ok("date".to_string()));
                Ok(ToolResult::success("Mon Jan  1 00:00:00 UTC 2026\n"))
            })
        },
        |_| None,
    );
    assert_eq!(run.outcome.unwrap(), "It is Monday.");
    assert_eq!(run.provider_calls, 2);
    assert_eq!(run.iterations, 2);
    assert_eq!(run.tool_runs, vec!["shell"]);
    let roles: Vec<&str> = run.messages.iter().map(|m| m.role.as_str()).collect();
    assert_eq!(roles, vec!["system", "user", "assistant", "tool", "assistant"]);
    assert_eq!(run.messages[1].content, "what's the date?");
    assert_eq!(run.messages[2].content, "");
    assert_eq!(run.messages[2].tool_calls.as_ref().unwrap()[0].id, "c1");
    assert_eq!(run.messages[3].tool_call_id.as_deref(), Some("c1"));
    assert_eq!(
        run.messages[3].content,
        "{\"success\":true,\"output\":\"Mon Jan  1 00:00:00 UTC 2026\\n\",\"error\":null}"
    );
    assert_eq!(run.messages[4].content, "It is Monday.");
}

#[test]
fn tagged_call_in_the_text_is_run_too() {
    let agent = agent();
    let mut turn = 0;
    let run = drive(
        &agent,
        agent.start_with_prompt("P", vec![], "what's the date?"),
        |_| {
            turn += 1;
            if turn == 1 {
                Ok(text("<tool_call>\n{\"name\":\"shell\",\"arguments\":{\"command\":\"date\"}}\n</tool_call>"))
            } else {
                Ok(text("Done."))
            }
        },
        |c| {
            assert_eq!(c.id, "call_5e82c7b0442cd0c1b0ef5dc194c8ef0b");
            assert_eq!(c.arguments, "{\"command\":\"date\"}");
            ToolResult::success("today")
        },
        |_| None,
    );
    assert_eq!(run.outcome.unwrap(), "Done.");
    assert_eq!(run.tool_runs, vec!["shell"]);
    assert_eq!(run.messages[2].content, ">");
}

#[test]
fn unknown_tool_gives_a_failure_and_the_loop_goes_on() {
    let agent = agent();
    let registry: ToolRegistry<ShellTool> = ToolRegistry::new();
    let mut turn = 0;
    let run = drive(
        &agent,
        agent.start_with_prompt("P", vec![], "go"),
        |_| {
            turn += 1;
            if turn == 1 {
                Ok(calls(Some("trying"), vec![call("c1", "teleport", "{}")]))
            } else {
                Ok(text("I cannot do that."))
            }
        },
        |c| registry.execute(&c.name, &c.arguments, |_, _| Ok(ToolResult::success("never"))),
        |_| None,
    );
    assert_eq!(run.outcome.unwrap(), "I cannot do that.");
    assert_eq!(run.provider_calls, 2);
    assert_eq!(
        run.messages[3].content,
        "{\"success\":false,\"output\":\"\",\"error\":\"Tool 'teleport' not found\"}"
    );
}

#[test]
fn failing_tool_does_not_end_the_conversation() {
    let agent = agent();
    let conversation = Conversation::new(vec![ChatMessage::system("P"), ChatMessage::user("go")]);
    let rest = vec![call("c2", "b", "{}")];
    let failed = ToolResult::error("Execution failed: boom");
    match agent.on_tool_result(conversation, call("c1", "a", "{}"), rest, &failed) {
        Step::ExecuteTool(conversation, next, rest) => {
            assert_eq!(next.id, "c2");
            assert!(rest.is_empty());
            assert_eq!(conversation.messages.len(), 3);
            assert_eq!(conversation.messages[2].role, "tool");
        }
        other => panic!("unexpected step: {:?}", other),
    }
}

#[test]
fn tools_run_in_the_order_of_the_calls() {
    let agent = agent();
    let mut turn = 0;
    let run = drive(
        &agent,
        agent.start_with_prompt("P", vec![], "go"),
        |_| {
            turn += 1;
            if turn == 1 {
                Ok(calls(
                    Some("on it"),
                    vec![call("1", "a", "{}"), call("2", "b", "[]"), call("3", "c", "null")],
                ))
            } else {
                Ok(text("done"))
            }
        },
        |c| ToolResult::success(&c.name),
        |_| None,
    );
    assert_eq!(run.tool_runs, vec!["a", "b", "c"]);
    let ids: Vec<Option<&str>> =
        run.messages.iter().map(|m| m.tool_call_id.as_deref()).collect();
    assert_eq!(ids, vec![None, None, None, Some("1"), Some("2"), Some("3"), None]);
}

#[test]
fn malformed_arguments_end_the_conversation_at_once() {
    let agent = agent();
    let run = drive(
        &agent,
        agent.start_with_prompt("P", vec![], "go"),
        |_| Ok(calls(None, vec![call("1", "a", "{}"), call("2", "b", "{oops"), call("3", "c", "{}")])),
        |c| ToolResult::success(&c.name),
        |_| None,
    );
    assert_eq!(run.tool_runs, vec!["a"]);
    match run.outcome {
        Err(AgentError::InvalidArguments(message)) => {
            assert_eq!(
                message,
                "Failed to parse tool arguments for b: key must be a string at line 1 column 2"
            );
        }
        other => panic!("unexpected outcome: {:?}", other),
    }
}

#[test]
fn three_identical_calls_end_the_conversation() {
    let agent = agent();
    let run = drive(
        &agent,
        agent.start_with_prompt("P", vec![], "go"),
        |_| Ok(calls(None, vec![call("x", "shell", "{\"command\":\"date\"}")])),
        |_| ToolResult::success("same"),
        |_| None,
    );
    assert_eq!(run.provider_calls, 3);
    assert_eq!(run.tool_runs.len(), 2);
    match run.outcome {
        Err(AgentError::ToolLoop(message)) => assert_eq!(
            message,
            "Tool loop detected: 'shell' called 3 times with same arguments. The model may be stuck. Try rephrasing your request or using a larger model."
        ),
        other => panic!("unexpected outcome: {:?}", other),
    }
}

#[test]
fn turns_are_limited() {
    let agent = agent().with_max_iterations(4);
    let mut n = 0;
    let run = drive(
        &agent,
        agent.start_with_prompt("P", vec![], "go"),
        |_| {
            n += 1;
            Ok(calls(None, vec![call("x", "shell", &format!("{{\"n\":{}}}", n))]))
        },
        |_| ToolResult::success("ok"),
        |_| None,
    );
    assert_eq!(run.outcome.unwrap(), "Max iterations reached");
    assert_eq!(run.provider_calls, 4);
    assert_eq!(run.iterations, 4);
}

#[test]
fn no_turn_at_all_with_a_limit_of_zero() {
    let agent = agent().with_max_iterations(0);
    let run = drive(
        &agent,
        agent.start_with_prompt("P", vec![], "go"),
        |_| panic!("the provider must not be asked"),
        |_| panic!("no tool must run"),
        |_| None,
    );
    assert_eq!(run.outcome.unwrap(), "Max iterations reached");
    assert_eq!(run.provider_calls, 0);
}

#[test]
fn empty_text_without_calls_is_an_error() {
    let agent = agent();
    let run = drive(
        &agent,
        agent.start_with_prompt("P", vec![], "go"),
        |_| Ok(text("")),
        |_| panic!("no tool must run"),
        |_| None,
    );
    assert!(matches!(run.outcome, Err(AgentError::EmptyResponse)));
    assert_eq!(
        AgentError::EmptyResponse.message(),
        "Empty response from model. Please try again."
    );
}

#[test]
fn neither_text_nor_calls_is_an_error() {
    let agent = agent();
    let run = drive(
        &agent,
        agent.start_with_prompt("P", vec![], "go"),
        |_| Ok(calls(None, vec![])),
        |_| panic!("no tool must run"),
        |_| None,
    );
    assert!(matches!(run.outcome, Err(AgentError::NoResponse)));
    assert_eq!(AgentError::NoResponse.message(), "No response from provider");
}

#[test]
fn provider_failure_ends_the_conversation() {
    let agent = agent();
    let run = drive(
        &agent,
        agent.start_with_prompt("P", vec![], "go"),
        |_| Err("connection refused".to_string()),
        |_| panic!("no tool must run"),
        |_| None,
    );
    match run.outcome {
        Err(AgentError::Provider(message)) => assert_eq!(message, "connection refused"),
        other => panic!("unexpected outcome: {:?}", other),
    }
}

#[test]
fn long_history_is_compacted_before_the_next_turn() {
    let agent = agent().with_max_history(22);
    let mut history = Vec::new();
    for i in 0..20 {
        history.push(ChatMessage::user(&format!("q{}", i)));
    }
    let mut turn = 0;
    let run = drive(
        &agent,
        agent.start_with_prompt("P", history, "go"),
        |messages| {
            turn += 1;
            if turn == 1 {
                assert_eq!(messages.len(), 22);
                Ok(calls(None, vec![call("1", "a", "{}")]))
            } else {
                // system, summary, twenty recent
                assert_eq!(messages.len(), 22);
                assert_eq!(messages[1].content, "[Conversation summary]\nthree questions");
                Ok(text("done"))
            }
        },
        |_| ToolResult::success("ok"),
        |transcript| {
            assert_eq!(transcript, "USER: q0\nUSER: q1\nUSER: q2\n");
            Some(" three questions ".to_string())
        },
    );
    assert_eq!(run.summaries, 1);
    assert_eq!(run.outcome.unwrap(), "done");
    assert_eq!(run.messages.len(), 23);
}

#[test]
fn short_history_over_a_small_limit_is_left_alone() {
    let agent = agent().with_max_history(1);
    let mut turn = 0;
    let run = drive(
        &agent,
        agent.start_with_prompt("P", vec![], "go"),
        |_| {
            turn += 1;
            if turn == 1 {
                Ok(calls(None, vec![call("1", "a", "{}")]))
            } else {
                Ok(text("done"))
            }
        },
        |_| ToolResult::success("ok"),
        |_| panic!("nothing to summarise"),
    );
    assert_eq!(run.summaries, 0);
    assert_eq!(run.messages.len(), 5);
}

#[test]
fn failed_summary_falls_back_to_the_transcript() {
    let agent = agent().with_max_history(21);
    let mut history = Vec::new();
    for i in 0..20 {
        history.push(ChatMessage::user(&format!("q{}", i)));
    }
    let mut turn = 0;
    let run = drive(
        &agent,
        agent.start_with_prompt("P", history, "go"),
        |_| {
            turn += 1;
            if turn == 1 {
                Ok(calls(None, vec![call("1", "a", "{}")]))
            } else {
                Ok(text("done"))
            }
        },
        |_| ToolResult::success("ok"),
        |_| None,
    );
    assert_eq!(run.messages[1].content, "[Conversation summary]\nUSER: q0\nUSER: q1\nUSER: q2");
}

#[test]
fn loop_defaults() {
    let agent = agent();
    assert_eq!(DEFAULT_MAX_ITERATIONS, 20);
    assert_eq!(agent.max_iterations(), 20);
    assert_eq!(agent.max_history(), 50);
    assert_eq!(agent.model_name(), "openai/gpt-5-mini");
    assert_eq!(agent.context_builder().workspace, "/w");
    let agent = agent.with_model_name("m".to_string()).with_max_history(7).with_skills(vec![]);
    assert_eq!(agent.model_name(), "m");
    assert_eq!(agent.max_history(), 7);
    assert_eq!(agent.max_iterations(), 20);
}

#[test]
fn start_stores_the_user_message_when_there_is_a_memory_store() {
    let first = agent_with_memory().start_with_prompt("P", vec![], "hello");
    let record = first.store.unwrap();
    assert_eq!(record.key, "msg_user_5d41402abc4b2a76b9719d911017c592");
    assert_eq!(record.content, "hello");
    assert!(matches!(record.category, MemoryCategory::Daily));
    assert!(agent().start_with_prompt("P", vec![], "hello").store.is_none());
    assert!(agent_with_memory().start_with_prompt("P", vec![], "  \n").store.is_none());
}

#[test]
fn answers_are_stored_when_they_are_not_blank() {
    let agent = agent_with_memory();
    let conversation = Conversation::new(vec![]);
    let done = agent.on_response(conversation, text("hello"));
    assert_eq!(done.store.unwrap().key, "msg_assistant_5d41402abc4b2a76b9719d911017c592");
    let conversation = Conversation::new(vec![]);
    let blank = agent.on_response(conversation, calls(Some("  "), vec![call("1", "a", "{}")]));
    assert!(blank.store.is_none());
    let conversation = Conversation::new(vec![]);
    let said = agent.on_response(conversation, calls(Some("hello"), vec![call("1", "a", "{}")]));
    assert_eq!(said.store.unwrap().key, "msg_assistant_5d41402abc4b2a76b9719d911017c592");
}

#[test]
fn memory_record_needs_store_and_content() {
    assert!(memory_record(false, "user", "hello").is_none());
    assert!(memory_record(true, "user", " \t").is_none());
    let r = memory_record(true, "tool", " hello ").unwrap();
    assert_eq!(r.key, format!("msg_tool_{:x}", md5::compute(" hello ")));
    assert_eq!(r.content, " hello ");
}

#[test]
fn start_builds_the_prompt_for_now() {
    let first = agent().start(vec![ChatMessage::user("before")], "hi", &PromptInputs::new());
    match first.step {
        Step::CallProvider(conversation) => {
            assert_eq!(conversation.iterations, 1);
            assert_eq!(conversation.messages.len(), 3);
            assert_eq!(conversation.messages[0].role, "system");
            assert!(conversation.messages[0].content.contains("### Workspace\n/w"));
            assert_eq!(conversation.messages[1].content, "before");
            assert_eq!(conversation.messages[2].content, "hi");
        }
        other => panic!("unexpected step: {:?}", other),
    }
}

#[test]
fn stream_tokens_make_the_answer() {
    let mut acc = StreamAccumulator::new();
    assert_eq!(acc.push(ProviderEvent::Thinking("hm".to_string())), "\x1b[90mhm\x1b[0m");
    assert_eq!(acc.push(ProviderEvent::Token("It ".to_string())), "\n\nIt ");
    assert_eq!(acc.thinking, "");
    assert_eq!(acc.push(ProviderEvent::Token("is.".to_string())), "is.");
    assert_eq!(acc.push(ProviderEvent::Done), "");
    assert!(acc.done);
    assert_eq!(acc.push(ProviderEvent::Token("late".to_string())), "");
    assert_eq!(acc.response, "It is.");
    let agent = agent();
    let done = agent.on_stream_end(Conversation::new(vec![]), acc);
    match done.step {
        Step::Finished(conversation, Ok(answer)) => {
            assert_eq!(answer, "It is.");
            assert_eq!(conversation.messages.len(), 1);
            assert_eq!(conversation.messages[0].role, "assistant");
        }
        other => panic!("unexpected step: {:?}", other),
    }
}

#[test]
fn stream_tool_calls_are_run_without_parsing_the_text() {
    let mut acc = StreamAccumulator::new();
    acc.push(ProviderEvent::Token("<invoke>{\"name\":\"x\",\"arguments\":{}}</invoke>".to_string()));
    acc.push(ProviderEvent::ToolCall(call("1", "shell", "{}")));
    acc.push(ProviderEvent::Done);
    let agent = agent();
    match agent.on_stream_end(Conversation::new(vec![]), acc).step {
        Step::ExecuteTool(conversation, next, rest) => {
            assert_eq!(next.name, "shell");
            assert!(rest.is_empty());
            assert_eq!(
                conversation.messages[0].content,
                "<invoke>{\"name\":\"x\",\"arguments\":{}}</invoke>"
            );
        }
        other => panic!("unexpected step: {:?}", other),
    }
}

#[test]
fn thinking_only_is_an_incomplete_answer() {
    let mut acc = StreamAccumulator::new();
    acc.push(ProviderEvent::Thinking("é".repeat(250)));
    let agent = agent();
    match agent.on_stream_end(Conversation::new(vec![]), acc).step {
        Step::Finished(conversation, Err(AgentError::IncompleteResponse(message))) => {
            assert_eq!(
                message,
                format!(
                    "I was thinking: {}... but didn't complete my response. Please try again.",
                    "é".repeat(200)
                )
            );
            assert!(conversation.messages.is_empty());
        }
        other => panic!("unexpected step: {:?}", other),
    }
    assert_eq!(
        StreamAccumulator::incomplete_message("short"),
        "I was thinking: short... but didn't complete my response. Please try again."
    );
}

#[test]
fn empty_stream_is_an_empty_answer() {
    let agent = agent();
    let step = agent.on_stream_end(Conversation::new(vec![]), StreamAccumulator::new()).step;
    assert!(matches!(step, Step::Finished(_, Err(AgentError::EmptyResponse))));
}

#[test]
fn the_loop_reads_calls_between_its_own_tags() {
    let agent = agent().with_tool_call_tags(vec![TagPair::new("<call>", "</call>")]);
    let answer = text("now <call>{\"name\":\"shell\",\"arguments\":{}}</call>");
    match agent.on_response(Conversation::new(vec![]), answer).step {
        Step::ExecuteTool(conversation, next, _) => {
            assert_eq!(next.name, "shell");
            assert_eq!(conversation.messages[0].content, "now");
        }
        other => panic!("unexpected step: {:?}", other),
    }
    let answer = text("<invoke>{\"name\":\"shell\",\"arguments\":{}}</invoke>");
    match agent.on_response(Conversation::new(vec![]), answer).step {
        Step::Finished(_, Ok(answer)) => {
            assert_eq!(answer, "<invoke>{\"name\":\"shell\",\"arguments\":{}}</invoke>")
        }
        other => panic!("unexpected step: {:?}", other),
    }
}
