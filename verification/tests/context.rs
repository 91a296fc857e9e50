use dinoe_core::agent::context::{
    bootstrap_file_content, bootstrap_files, get_memory_context, get_runtime_context,
    get_skills_context, get_tool_instructions, load_bootstrap_files, ContextBuilder, PromptInputs,
    BOOTSTRAP_MAX_CHARS, MEMORY_RECALL_LIMIT,
};
use dinoe_core::skills::Skill;
use dinoe_core::traits::{ChatMessage, MemoryCategory, MemoryEntry, ToolSpec};

const NOTICE: &str = "\n\n[... truncated at 20000 chars — use file_read for full content]\n";

fn entry(content: &str, score: Option<f64>) -> MemoryEntry {
    MemoryEntry {
        id: "1".to_string(),
        key: "k".to_string(),
        content: content.to_string(),
        category: MemoryCategory::Core,
        timestamp: "0".to_string(),
        session_id: None,
        score: score.map(f64::to_bits),
    }
}

fn skill(name: &str, location: Option<&str>) -> Skill {
    Skill {
        name: name.to_string(),
        description: format!("does {}", name),
        version: "0.1.0".to_string(),
        author: None,
        tags: vec![],
        location: location.map(|l| l.to_string()),
    }
}

fn shell_spec() -> ToolSpec {
    ToolSpec {
        name: "shell".to_string(),
        description: "Runs a command".to_string(),
        parameters_schema: "{\"type\":\"object\"}".to_string(),
    }
}

const PROTOCOL: &str = "## Tool Use Protocol\n\nTo use a tool, wrap a JSON object in <tool_call> tags:\n\n```\n<tool_call>\n{\"name\": \"tool_name\", \"arguments\": {\"param\": \"value\"}}\n</tool_call>\n```\n\nCRITICAL: Output actual <tool_call> tags—never describe steps or give examples.\n\nExample: User says \"what's the date?\". You MUST respond with:\n<tool_call>\n{\"name\":\"shell\",\"arguments\":{\"command\":\"date\"}}\n</tool_call>\n\nYou may use multiple tool calls in a single response. After tool execution, results appear in <tool_result> tags. Continue reasoning with the results until you can give a final answer.\n\n### Available Tools\n\n";

#[test]
fn limits() {
    assert_eq!(BOOTSTRAP_MAX_CHARS, 20_000);
    assert_eq!(MEMORY_RECALL_LIMIT, 5);
}

#[test]
fn bootstrap_files_in_order() {
    let files = bootstrap_files();
    assert_eq!(
        files,
        vec![
            ("SOUL.md".to_string(), "## Agent Identity (SOUL.md)".to_string()),
            ("TOOLS.md".to_string(), "## Local Tool Notes (TOOLS.md)".to_string()),
            ("USER.md".to_string(), "## User Context (USER.md)".to_string()),
        ]
    );
}

#[test]
fn bootstrap_file_over_the_limit_is_cut_with_the_notice() {
    let long = "x".repeat(20_001);
    assert_eq!(bootstrap_file_content(&long), format!("{}{}", "x".repeat(20_000), NOTICE));
    let section = load_bootstrap_files(&vec![Some(long), None, None]).unwrap();
    assert_eq!(
        section,
        format!("## Agent Identity (SOUL.md)\n\n{}{}", "x".repeat(20_000), NOTICE)
    );
}

#[test]
fn bootstrap_file_at_the_limit_appears_verbatim() {
    let exact = "ü".repeat(20_000);
    assert_eq!(bootstrap_file_content(&exact), exact);
    let padded = format!("  \n{}\n\n", exact);
    assert_eq!(bootstrap_file_content(&padded), exact);
    let section = load_bootstrap_files(&vec![None, Some(padded), None]).unwrap();
    assert_eq!(section, format!("## Local Tool Notes (TOOLS.md)\n\n{}", exact));
}

#[test]
fn bootstrap_limit_counts_characters_after_trimming() {
    let text = format!("   {}   ", "y".repeat(20_000));
    assert_eq!(bootstrap_file_content(&text), "y".repeat(20_000));
}

#[test]
fn blank_and_missing_bootstrap_files_leave_no_part() {
    assert_eq!(load_bootstrap_files(&vec![]), None);
    assert_eq!(load_bootstrap_files(&vec![None, None, None]), None);
    assert_eq!(load_bootstrap_files(&vec![Some("  \n ".to_string()), None, Some(String::new())]), None);
}

#[test]
fn bootstrap_section_joins_the_files_that_are_there() {
    let section = load_bootstrap_files(&vec![
        Some("I am.\n".to_string()),
        None,
        Some(" You are. ".to_string()),
        Some("a fourth text is not read".to_string()),
    ]);
    assert_eq!(
        section.as_deref(),
        Some("## Agent Identity (SOUL.md)\n\nI am.\n\n---\n\n## User Context (USER.md)\n\nYou are.")
    );
}

#[test]
fn tool_instructions_only_with_tools() {
    assert_eq!(get_tool_instructions(&vec![]), None);
    let text = get_tool_instructions(&vec![shell_spec()]).unwrap();
    assert_eq!(
        text,
        format!("{}**shell**: Runs a command\nParameters: `{{\"type\":\"object\"}}`\n\n", PROTOCOL)
    );
}

#[test]
fn tool_instructions_list_every_tool() {
    let mut other = shell_spec();
    other.name = "file_read".to_string();
    let text = get_tool_instructions(&vec![shell_spec(), other]).unwrap();
    assert!(text.ends_with(
        "**shell**: Runs a command\nParameters: `{\"type\":\"object\"}`\n\n**file_read**: Runs a command\nParameters: `{\"type\":\"object\"}`\n\n"
    ));
}

#[test]
fn runtime_context_names_time_and_workspace() {
    assert_eq!(
        get_runtime_context("2026-01-02 03:04 (Friday)", "/home/u/.dinoe/workspace"),
        "## Runtime Context\n\n### Current Time\n2026-01-02 03:04 (Friday)\n\n### Workspace\n/home/u/.dinoe/workspace"
    );
}

#[test]
fn skills_section_only_with_skills() {
    assert_eq!(get_skills_context("/w", &vec![]), None);
    let text = get_skills_context("/w", &vec![skill("a", None), skill("b", Some("/x/SKILL.md"))]);
    assert_eq!(
        text.as_deref(),
        Some(
            "## Available Skills\n\n<available_skills>\n  <skill>\n    <name>a</name>\n    <description>does a</description>\n    <location>/w/skills/a/SKILL.md</location>\n  </skill>\n  <skill>\n    <name>b</name>\n    <description>does b</description>\n    <location>/x/SKILL.md</location>\n  </skill>\n</available_skills>"
        )
    );
}

#[test]
fn memory_section_keeps_entries_without_score_or_with_at_least_point_four() {
    let recalled = Some(vec![
        entry("low", Some(0.39)),
        entry("edge", Some(0.4)),
        entry("none", None),
        entry("high", Some(0.93)),
        entry("negative", Some(-1.0)),
        entry("nan", Some(f64::NAN)),
        entry("infinite", Some(f64::INFINITY)),
        entry("zero", Some(0.0)),
        entry("minus zero", Some(-0.0)),
        entry("just below", Some(0.39999999999999997)),
    ]);
    assert_eq!(
        get_memory_context(true, &recalled).as_deref(),
        Some("## Relevant Memory\n\n- edge\n\n- none\n\n- high\n\n- infinite")
    );
}

#[test]
fn relevance_of_one_entry() {
    assert!(entry("a", None).is_relevant());
    assert!(entry("a", Some(0.4)).is_relevant());
    assert!(entry("a", Some(1.0)).is_relevant());
    assert!(!entry("a", Some(0.3999)).is_relevant());
    assert!(!entry("a", Some(f64::NAN)).is_relevant());
    assert!(!entry("a", Some(-0.5)).is_relevant());
}

#[test]
fn memory_section_is_left_out_when_nothing_survives() {
    assert_eq!(get_memory_context(true, &None), None);
    assert_eq!(get_memory_context(true, &Some(vec![])), None);
    assert_eq!(get_memory_context(true, &Some(vec![entry("low", Some(0.1))])), None);
    assert_eq!(get_memory_context(false, &Some(vec![entry("kept", None)])), None);
}

#[test]
fn memory_section_skips_entries_without_content() {
    assert_eq!(
        get_memory_context(true, &Some(vec![entry("", None)])).as_deref(),
        Some("## Relevant Memory")
    );
    assert_eq!(
        get_memory_context(true, &Some(vec![entry("", Some(0.9)), entry("x", Some(0.5))])).as_deref(),
        Some("## Relevant Memory\n\n- x")
    );
}

#[test]
fn prompt_with_nothing_but_the_runtime_section() {
    let builder: ContextBuilder<()> = ContextBuilder::new("/w");
    let prompt = builder.build_system_prompt_at(&PromptInputs::new(), "now");
    assert_eq!(prompt, "## Runtime Context\n\n### Current Time\nnow\n\n### Workspace\n/w");
}

#[test]
fn prompt_holds_the_sections_in_order() {
    let builder = ContextBuilder::new("/w")
        .with_memory(())
        .with_skills(vec![skill("a", Some("/s"))])
        .with_tool_specs(vec![shell_spec()]);
    let inputs = PromptInputs {
        bootstrap: vec![Some("soul".to_string())],
        recalled: Some(vec![entry("remember", Some(0.8))]),
    };
    let prompt = builder.build_system_prompt_at(&inputs, "T");
    let expected = [
        "## Agent Identity (SOUL.md)\n\nsoul".to_string(),
        format!("{}**shell**: Runs a command\nParameters: `{{\"type\":\"object\"}}`\n\n", PROTOCOL),
        "## Runtime Context\n\n### Current Time\nT\n\n### Workspace\n/w".to_string(),
        "## Available Skills\n\n<available_skills>\n  <skill>\n    <name>a</name>\n    <description>does a</description>\n    <location>/s</location>\n  </skill>\n</available_skills>".to_string(),
        "## Relevant Memory\n\n- remember".to_string(),
    ]
    .join("\n\n---\n\n");
    assert_eq!(prompt, expected);
}

#[test]
fn prompt_without_memory_store_has_no_memory_section() {
    let builder: ContextBuilder<()> = ContextBuilder::new("/w");
    let inputs = PromptInputs { bootstrap: vec![], recalled: Some(vec![entry("remember", None)]) };
    let prompt = builder.build_system_prompt_at(&inputs, "T");
    assert!(!prompt.contains("Relevant Memory"));
}

#[test]
fn prompt_for_now_holds_a_timestamp() {
    let builder: ContextBuilder<()> = ContextBuilder::new("/w");
    let prompt = builder.build_system_prompt(&PromptInputs::new());
    assert!(prompt.starts_with("## Runtime Context\n\n### Current Time\n"));
    assert!(prompt.ends_with("\n\n### Workspace\n/w"));
    let stamp = &prompt["## Runtime Context\n\n### Current Time\n".len()..prompt.len() - "\n\n### Workspace\n/w".len()];
    // Such as "2026-01-02 03:04 (Friday)".
    assert!(stamp.len() >= 25, "{}", stamp);
    assert_eq!(&stamp[4..5], "-");
    assert_eq!(&stamp[13..14], ":");
    assert!(stamp.ends_with("day)"));
}

#[test]
fn messages_are_system_history_user() {
    let builder: ContextBuilder<()> = ContextBuilder::new("/w");
    let history = vec![
        ChatMessage::user("earlier"),
        ChatMessage::assistant("reply"),
        ChatMessage::system("an old system message stays where it is"),
    ];
    let messages = builder.build_messages(history.clone(), "what now?", &PromptInputs::new());
    assert_eq!(messages.len(), history.len() + 2);
    assert_eq!(messages[0].role, "system");
    assert!(messages[0].content.starts_with("## Runtime Context"));
    for (got, want) in messages[1..4].iter().zip(&history) {
        assert_eq!(got.role, want.role);
        assert_eq!(got.content, want.content);
    }
    assert_eq!(messages[4].role, "user");
    assert_eq!(messages[4].content, "what now?");
}

#[test]
fn messages_with_empty_history() {
    let messages = ContextBuilder::<()>::messages_with_prompt("P", vec![], "hi");
    assert_eq!(messages.len(), 2);
    assert_eq!(messages[0].role, "system");
    assert_eq!(messages[0].content, "P");
    assert_eq!(messages[1].role, "user");
    assert_eq!(messages[1].content, "hi");
}
