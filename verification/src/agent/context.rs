//! The system prompt of a turn, and the messages sent with it.
//!
//! The prompt is made of sections: what the workspace's bootstrap files
//! say, how to call tools, when and where the agent runs, which skills
//! there are, and what the memory store recalls. The caller reads the
//! files and asks the store; the builder decides what the prompt says.

use crate::skills::manifest::{Skill, SkillView};
use crate::skills::{default_skill_location, skill_location};
use crate::text::{chars_of, join, join_strings, string_of_range, trim, trim_bounds};
use crate::traits::memory::{MemoryEntry, MemoryEntryView};
use crate::traits::provider::{ChatMessage, ChatMessageView};
use crate::traits::tool::{ToolSpec, ToolSpecView};
use std::fmt::Write;
use vstd::prelude::*;
use vstd::string::*;

verus! {

/// How many characters of a bootstrap file the prompt holds at most.
pub const BOOTSTRAP_MAX_CHARS: usize = 20_000;

/// How many entries the memory store is asked for.
pub const MEMORY_RECALL_LIMIT: usize = 5;

/// How many bootstrap files there are.
pub const BOOTSTRAP_FILE_COUNT: usize = 3;

/// What stands between two sections of the prompt.
pub open spec fn section_separator() -> Seq<char> {
    "\n\n---\n\n"@
}

/// The name of the bootstrap file at `index`.
pub open spec fn bootstrap_file_name(index: int) -> Seq<char> {
    if index == 0 {
        "SOUL.md"@
    } else if index == 1 {
        "TOOLS.md"@
    } else {
        "USER.md"@
    }
}

/// The heading under which the bootstrap file at `index` appears.
pub open spec fn bootstrap_header(index: int) -> Seq<char> {
    if index == 0 {
        "## Agent Identity (SOUL.md)"@
    } else if index == 1 {
        "## Local Tool Notes (TOOLS.md)"@
    } else {
        "## User Context (USER.md)"@
    }
}

/// The notice that ends a bootstrap file that was cut.
pub open spec fn truncation_notice() -> Seq<char> {
    "\n\n[... truncated at 20000 chars — use file_read for full content]\n"@
}

/// What the prompt holds of a bootstrap file: the trimmed text as it is
/// where it has at most 20000 characters, else its first 20000 characters
/// and the notice.
pub open spec fn bootstrap_content(raw: Seq<char>) -> Seq<char> {
    let text = trim(raw);
    if text.len() > BOOTSTRAP_MAX_CHARS {
        text.take(BOOTSTRAP_MAX_CHARS as int) + truncation_notice()
    } else {
        text
    }
}

/// The part of the bootstrap section for one file, or nothing where the
/// file is missing or blank.
pub open spec fn bootstrap_part(header: Seq<char>, file: Option<Seq<char>>) -> Option<Seq<char>> {
    match file {
        Some(raw) => if trim(raw).len() == 0 {
            None
        } else {
            Some(header + "\n\n"@ + bootstrap_content(raw))
        },
        None => None,
    }
}

/// The file at `index` of `files`, or nothing where `files` is shorter.
pub open spec fn file_at(files: Seq<Option<Seq<char>>>, index: int) -> Option<Seq<char>> {
    if 0 <= index < files.len() {
        files[index]
    } else {
        None
    }
}

/// `parts` with `part` added where there is one.
pub open spec fn push_some(parts: Seq<Seq<char>>, part: Option<Seq<char>>) -> Seq<Seq<char>> {
    match part {
        Some(p) => parts.push(p),
        None => parts,
    }
}

/// The parts of the bootstrap section for the first `n` files.
pub open spec fn bootstrap_parts(files: Seq<Option<Seq<char>>>, n: int) -> Seq<Seq<char>>
    decreases n,
{
    if n <= 0 {
        Seq::empty()
    } else {
        push_some(
            bootstrap_parts(files, n - 1),
            bootstrap_part(bootstrap_header(n - 1), file_at(files, n - 1)),
        )
    }
}

/// `parts` joined by the section separator, or nothing where there are
/// none.
pub open spec fn joined_or_none(parts: Seq<Seq<char>>, separator: Seq<char>) -> Option<Seq<char>> {
    if parts.len() == 0 {
        None
    } else {
        Some(join(parts, separator))
    }
}

/// The bootstrap section: the parts of the three files, in order.
pub open spec fn bootstrap_section(files: Seq<Option<Seq<char>>>) -> Option<Seq<char>> {
    joined_or_none(bootstrap_parts(files, BOOTSTRAP_FILE_COUNT as int), section_separator())
}

/// How a model is told to call tools.
pub open spec fn tool_protocol() -> Seq<char> {
    "## Tool Use Protocol\n\n"@ + "To use a tool, wrap a JSON object in <tool_call> tags:\n\n"@
        + "```\n<tool_call>\n{\"name\": \"tool_name\", \"arguments\": {\"param\": \"value\"}}\n</tool_call>\n```\n\n"@
        + "CRITICAL: Output actual <tool_call> tags—never describe steps or give examples.\n\n"@
        + "Example: User says \"what's the date?\". You MUST respond with:\n<tool_call>\n{\"name\":\"shell\",\"arguments\":{\"command\":\"date\"}}\n</tool_call>\n\n"@
        + "You may use multiple tool calls in a single response. "@
        + "After tool execution, results appear in <tool_result> tags. "@
        + "Continue reasoning with the results until you can give a final answer.\n\n"@
        + "### Available Tools\n\n"@
}

/// The entry of one tool: name, description and parameter schema.
pub open spec fn tool_entry(spec: ToolSpecView) -> Seq<char> {
    "**"@ + spec.name + "**: "@ + spec.description + "\nParameters: `"@ + spec.parameters_schema
        + "`\n\n"@
}

/// The entries of `specs`, one after the other.
pub open spec fn tool_entries(specs: Seq<ToolSpecView>) -> Seq<char>
    decreases specs.len(),
{
    if specs.len() == 0 {
        Seq::empty()
    } else {
        tool_entries(specs.drop_last()) + tool_entry(specs.last())
    }
}

/// The tool section: the protocol and one entry for each tool, or nothing
/// where there is no tool.
pub open spec fn tool_section(specs: Seq<ToolSpecView>) -> Option<Seq<char>> {
    if specs.len() == 0 {
        None
    } else {
        Some(tool_protocol() + tool_entries(specs))
    }
}

/// The runtime section: the time and the workspace.
pub open spec fn runtime_section(timestamp: Seq<char>, workspace: Seq<char>) -> Seq<char> {
    "## Runtime Context\n\n### Current Time\n"@ + timestamp + "\n\n### Workspace\n"@ + workspace
}

/// The block of one skill: name, description and the place of its file.
pub open spec fn skill_block(workspace: Seq<char>, skill: SkillView) -> Seq<char> {
    "  <skill>\n    <name>"@ + skill.name + "</name>\n    <description>"@ + skill.description
        + "</description>\n    <location>"@ + (match skill.location {
        Some(l) => l,
        None => default_skill_location(workspace, skill.name),
    }) + "</location>\n  </skill>"@
}

/// The blocks of `skills`, in order.
pub open spec fn skill_blocks(workspace: Seq<char>, skills: Seq<SkillView>) -> Seq<Seq<char>>
    decreases skills.len(),
{
    if skills.len() == 0 {
        Seq::empty()
    } else {
        skill_blocks(workspace, skills.drop_last()).push(skill_block(workspace, skills.last()))
    }
}

/// The skills section, or nothing where there is no skill.
pub open spec fn skills_section(workspace: Seq<char>, skills: Seq<SkillView>) -> Option<Seq<char>> {
    if skills.len() == 0 {
        None
    } else {
        Some(
            join(
                (seq!["## Available Skills\n\n<available_skills>"@] + skill_blocks(
                    workspace,
                    skills,
                )).push("</available_skills>"@),
                "\n"@,
            ),
        )
    }
}

/// Whether any of `entries` is kept for the prompt.
pub open spec fn any_relevant(entries: Seq<MemoryEntryView>) -> bool {
    exists|i: int| 0 <= i < entries.len() && (#[trigger] entries[i]).is_relevant()
}

/// The bullets of the memory section: one for each entry that is kept and
/// has content.
pub open spec fn memory_bullets(entries: Seq<MemoryEntryView>) -> Seq<Seq<char>>
    decreases entries.len(),
{
    if entries.len() == 0 {
        Seq::empty()
    } else {
        let before = memory_bullets(entries.drop_last());
        let entry = entries.last();
        if entry.is_relevant() && entry.content.len() > 0 {
            before.push("- "@ + entry.content)
        } else {
            before
        }
    }
}

/// The memory section: a heading and the bullets. There is none where no
/// memory store is configured, the recall failed, or no entry is kept.
pub open spec fn memory_section(has_memory: bool, recalled: Option<Seq<MemoryEntryView>>) -> Option<
    Seq<char>,
> {
    match recalled {
        Some(entries) => if has_memory && any_relevant(entries) {
            Some(join(seq!["## Relevant Memory"@] + memory_bullets(entries), "\n\n"@))
        } else {
            None
        },
        None => None,
    }
}

/// What the caller has read for one prompt.
#[derive(Debug)]
pub struct PromptInputs {
    /// The text of each bootstrap file, in the order of the files; `None`
    /// for a file that is missing or could not be read.
    pub bootstrap: Vec<Option<String>>,
    /// What the memory store recalled for the user's message; `None` where
    /// there is no store or the recall failed.
    pub recalled: Option<Vec<MemoryEntry>>,
}

/// `PromptInputs` as plain values.
pub struct PromptInputsView {
    pub bootstrap: Seq<Option<Seq<char>>>,
    pub recalled: Option<Seq<MemoryEntryView>>,
}

impl View for PromptInputs {
    type V = PromptInputsView;

    open spec fn view(&self) -> PromptInputsView {
        PromptInputsView {
            bootstrap: self.bootstrap.deep_view(),
            recalled: self.recalled.deep_view(),
        }
    }
}

impl PromptInputs {
    /// Inputs with no bootstrap file and no recall.
    pub fn new() -> (r: Self)
        ensures
            r@ == (PromptInputsView { bootstrap: Seq::empty(), recalled: None }),
    {
        let r = PromptInputs { bootstrap: Vec::new(), recalled: None };
        assert(r.bootstrap.deep_view() =~= Seq::<Option<Seq<char>>>::empty());
        r
    }
}

/// A `ContextBuilder` as plain values.
pub struct ContextBuilderView {
    pub workspace: Seq<char>,
    pub has_memory: bool,
    pub skills: Seq<SkillView>,
    pub tool_specs: Seq<ToolSpecView>,
}

/// The sections of the prompt that are there, in order.
pub open spec fn prompt_sections(
    builder: ContextBuilderView,
    inputs: PromptInputsView,
    timestamp: Seq<char>,
) -> Seq<Seq<char>> {
    push_some(
        push_some(
            push_some(
                push_some(Seq::empty(), bootstrap_section(inputs.bootstrap)),
                tool_section(builder.tool_specs),
            ).push(runtime_section(timestamp, builder.workspace)),
            skills_section(builder.workspace, builder.skills),
        ),
        memory_section(builder.has_memory, inputs.recalled),
    )
}

/// The system prompt: the sections, with the separator between them.
pub open spec fn system_prompt(
    builder: ContextBuilderView,
    inputs: PromptInputsView,
    timestamp: Seq<char>,
) -> Seq<char> {
    join(prompt_sections(builder, inputs, timestamp), section_separator())
}

/// The messages of a turn: the system prompt, the history as it is, and
/// the user's message.
pub open spec fn turn_messages(
    prompt: Seq<char>,
    history: Seq<ChatMessageView>,
    current_message: Seq<char>,
) -> Seq<ChatMessageView> {
    (seq![ChatMessageView::system(prompt)] + history).push(ChatMessageView::user(current_message))
}

/// The messages of a turn begin with exactly one message more than the
/// history, the system message; the history follows unchanged; one user
/// message ends them.
pub proof fn turn_messages_shape(
    prompt: Seq<char>,
    history: Seq<ChatMessageView>,
    current_message: Seq<char>,
)
    ensures
        turn_messages(prompt, history, current_message).len() == history.len() + 2,
        turn_messages(prompt, history, current_message)[0] == ChatMessageView::system(prompt),
        turn_messages(prompt, history, current_message).subrange(1, 1 + history.len() as int)
            == history,
        turn_messages(prompt, history, current_message).last() == ChatMessageView::user(
            current_message,
        ),
{
    let all = turn_messages(prompt, history, current_message);
    assert(all.subrange(1, 1 + history.len() as int) =~= history);
}

/// A bootstrap file of more than 20000 characters stands in the prompt
/// cut to 20000 characters, with the notice behind them; a shorter one
/// stands there as it is. Either way it stands under its heading.
pub proof fn bootstrap_files_are_cut_at_the_limit(header: Seq<char>, raw: Seq<char>)
    requires
        trim(raw).len() > 0,
    ensures
        trim(raw).len() > BOOTSTRAP_MAX_CHARS ==> bootstrap_content(raw) == trim(raw).take(
            BOOTSTRAP_MAX_CHARS as int,
        ) + truncation_notice(),
        trim(raw).len() <= BOOTSTRAP_MAX_CHARS ==> bootstrap_content(raw) == trim(raw),
        bootstrap_part(header, Some(raw)) == Some(header + "\n\n"@ + bootstrap_content(raw)),
{
}

/// Assembles system prompts and the messages of a turn. `M` is whatever
/// the caller uses to reach its memory store.
pub struct ContextBuilder<M> {
    pub workspace: String,
    pub memory: Option<M>,
    pub skills: Vec<Skill>,
    pub tool_specs: Vec<ToolSpec>,
}

impl<M> View for ContextBuilder<M> {
    type V = ContextBuilderView;

    open spec fn view(&self) -> ContextBuilderView {
        ContextBuilderView {
            workspace: self.workspace@,
            has_memory: self.memory is Some,
            skills: self.skills.deep_view(),
            tool_specs: self.tool_specs.deep_view(),
        }
    }
}

/// `chrono::Local::now`, written by `DateTime::format` with `format`. What
/// comes out depends on the clock and the time zone, so nothing is
/// promised of it.
#[verifier::external_body]
fn local_time_text(format: &str) -> (r: String) {
    let mut out = String::new();
    let _ = write!(out, "{}", chrono::Local::now().format(format));
    out
}

/// The name of each bootstrap file and the heading under which it appears,
/// in the order in which the prompt holds them.
pub fn bootstrap_files() -> (r: Vec<(String, String)>)
    ensures
        r.len() == BOOTSTRAP_FILE_COUNT,
        forall|i: int|
            0 <= i < r.len() ==> (#[trigger] r[i]).0@ == bootstrap_file_name(i) && r[i].1@
                == bootstrap_header(i),
{
    let mut r: Vec<(String, String)> = Vec::new();
    r.push(("SOUL.md".to_owned(), "## Agent Identity (SOUL.md)".to_owned()));
    r.push(("TOOLS.md".to_owned(), "## Local Tool Notes (TOOLS.md)".to_owned()));
    r.push(("USER.md".to_owned(), "## User Context (USER.md)".to_owned()));
    r
}

/// What the prompt holds of a bootstrap file with the text `raw`.
pub fn bootstrap_file_content(raw: &str) -> (r: String)
    ensures
        r@ == bootstrap_content(raw@),
{
    let chars = chars_of(raw);
    assert(chars@.subrange(0, chars@.len() as int) =~= chars@);
    let (a, b) = trim_bounds(&chars, 0, chars.len());
    if b - a > BOOTSTRAP_MAX_CHARS {
        let mut cut = string_of_range(&chars, a, a + BOOTSTRAP_MAX_CHARS);
        assert(chars@.subrange(a as int, a + BOOTSTRAP_MAX_CHARS) =~= chars@.subrange(
            a as int,
            b as int,
        ).take(BOOTSTRAP_MAX_CHARS as int));
        cut.append("\n\n[... truncated at 20000 chars — use file_read for full content]\n");
        cut
    } else {
        string_of_range(&chars, a, b)
    }
}

/// The part of the bootstrap section for one file.
fn bootstrap_file_part(header: &str, file: &Option<String>) -> (r: Option<String>)
    ensures
        r.deep_view() == bootstrap_part(header@, file.deep_view()),
{
    match file {
        Some(raw) => {
            let content = bootstrap_file_content(raw.as_str());
            if crate::text::trimmed(raw.as_str()).as_str().is_empty() {
                None
            } else {
                let mut part = header.to_owned();
                part.append("\n\n");
                part.append(content.as_str());
                Some(part)
            }
        },
        None => None,
    }
}

/// Adds `part` to `parts` where there is one.
fn push_part(parts: &mut Vec<String>, part: Option<String>)
    ensures
        final(parts).deep_view() == push_some(old(parts).deep_view(), part.deep_view()),
{
    match part {
        Some(p) => {
            let ghost before = parts.deep_view();
            parts.push(p);
            assert(parts.deep_view() =~= before.push(p@));
        },
        None => {},
    }
}

/// `parts` joined by `separator`, or nothing where there are none.
fn join_or_none(parts: &Vec<String>, separator: &str) -> (r: Option<String>)
    ensures
        r.deep_view() == joined_or_none(parts.deep_view(), separator@),
{
    if parts.is_empty() {
        None
    } else {
        Some(join_strings(parts, separator))
    }
}

/// The bootstrap section for the files' texts `files`, given in the order
/// of the files. A file that is missing or blank leaves no part, and a text
/// beyond those of the three files is not read.
pub fn load_bootstrap_files(files: &Vec<Option<String>>) -> (r: Option<String>)
    ensures
        r.deep_view() == bootstrap_section(files.deep_view()),
{
    let table = bootstrap_files();
    let absent: Option<String> = None;
    let mut parts: Vec<String> = Vec::new();
    assert(parts.deep_view() =~= Seq::<Seq<char>>::empty());
    let mut i: usize = 0;
    while i < BOOTSTRAP_FILE_COUNT
        invariant
            i <= BOOTSTRAP_FILE_COUNT,
            table.len() == BOOTSTRAP_FILE_COUNT,
            absent is None,
            forall|k: int| 0 <= k < table.len() ==> (#[trigger] table[k]).1@ == bootstrap_header(k),
            parts.deep_view() == bootstrap_parts(files.deep_view(), i as int),
        decreases BOOTSTRAP_FILE_COUNT - i,
    {
        let file = if i < files.len() {
            &files[i]
        } else {
            &absent
        };
        assert(file.deep_view() == file_at(files.deep_view(), i as int));
        let part = bootstrap_file_part(table[i].1.as_str(), file);
        push_part(&mut parts, part);
        i += 1;
    }
    join_or_none(&parts, "\n\n---\n\n")
}

/// The tool section for `specs`.
pub fn get_tool_instructions(specs: &Vec<ToolSpec>) -> (r: Option<String>)
    ensures
        r.deep_view() == tool_section(specs.deep_view()),
{
    if specs.is_empty() {
        return None;
    }
    let mut text = "## Tool Use Protocol\n\n".to_owned();
    text.append("To use a tool, wrap a JSON object in <tool_call> tags:\n\n");
    text.append(
        "```\n<tool_call>\n{\"name\": \"tool_name\", \"arguments\": {\"param\": \"value\"}}\n</tool_call>\n```\n\n",
    );
    text.append(
        "CRITICAL: Output actual <tool_call> tags—never describe steps or give examples.\n\n",
    );
    text.append(
        "Example: User says \"what's the date?\". You MUST respond with:\n<tool_call>\n{\"name\":\"shell\",\"arguments\":{\"command\":\"date\"}}\n</tool_call>\n\n",
    );
    text.append("You may use multiple tool calls in a single response. ");
    text.append("After tool execution, results appear in <tool_result> tags. ");
    text.append("Continue reasoning with the results until you can give a final answer.\n\n");
    text.append("### Available Tools\n\n");
    let ghost views = specs.deep_view();
    let mut i: usize = 0;
    assert(views.take(0) =~= Seq::<ToolSpecView>::empty());
    assert(text@ =~= tool_protocol() + tool_entries(views.take(0)));
    while i < specs.len()
        invariant
            i <= specs.len(),
            views == specs.deep_view(),
            text@ == tool_protocol() + tool_entries(views.take(i as int)),
        decreases specs.len() - i,
    {
        let ghost before = text@;
        proof {
            let done = views.take(i as int);
            let next = views.take(i + 1);
            assert(next.drop_last() =~= done);
            assert(next.last() == specs[i as int]@);
        }
        text.append("**");
        text.append(specs[i].name.as_str());
        text.append("**: ");
        text.append(specs[i].description.as_str());
        text.append("\nParameters: `");
        text.append(specs[i].parameters_schema.as_str());
        text.append("`\n\n");
        assert(text@ =~= before + tool_entry(specs[i as int]@));
        assert(text@ =~= tool_protocol() + tool_entries(views.take(i + 1)));
        i += 1;
    }
    assert(views.take(specs.len() as int) =~= views);
    Some(text)
}

/// The runtime section for the time `timestamp` and the workspace.
pub fn get_runtime_context(timestamp: &str, workspace: &str) -> (r: String)
    ensures
        r@ == runtime_section(timestamp@, workspace@),
{
    let mut text = "## Runtime Context\n\n### Current Time\n".to_owned();
    text.append(timestamp);
    text.append("\n\n### Workspace\n");
    text.append(workspace);
    text
}

/// The block of one skill.
fn skill_block_text(workspace: &str, skill: &Skill) -> (r: String)
    ensures
        r@ == skill_block(workspace@, skill@),
{
    let mut text = "  <skill>\n    <name>".to_owned();
    text.append(skill.name.as_str());
    text.append("</name>\n    <description>");
    text.append(skill.description.as_str());
    text.append("</description>\n    <location>");
    match &skill.location {
        Some(l) => {
            text.append(l.as_str());
        },
        None => {
            let l = skill_location(workspace, skill.name.as_str());
            text.append(l.as_str());
        },
    }
    text.append("</location>\n  </skill>");
    text
}

/// The skills section for `skills`.
pub fn get_skills_context(workspace: &str, skills: &Vec<Skill>) -> (r: Option<String>)
    ensures
        r.deep_view() == skills_section(workspace@, skills.deep_view()),
{
    if skills.is_empty() {
        return None;
    }
    let ghost views = skills.deep_view();
    let ghost head = seq!["## Available Skills\n\n<available_skills>"@];
    let mut parts: Vec<String> = Vec::new();
    parts.push("## Available Skills\n\n<available_skills>".to_owned());
    assert(views.take(0) =~= Seq::<SkillView>::empty());
    assert(parts.deep_view() =~= head + skill_blocks(workspace@, views.take(0)));
    let mut i: usize = 0;
    while i < skills.len()
        invariant
            i <= skills.len(),
            views == skills.deep_view(),
            head == seq!["## Available Skills\n\n<available_skills>"@],
            parts.deep_view() == head + skill_blocks(workspace@, views.take(i as int)),
        decreases skills.len() - i,
    {
        let ghost before = parts.deep_view();
        proof {
            let done = views.take(i as int);
            let next = views.take(i + 1);
            assert(next.drop_last() =~= done);
            assert(next.last() == skills[i as int]@);
        }
        let block = skill_block_text(workspace, &skills[i]);
        parts.push(block);
        assert(parts.deep_view() =~= before.push(block@));
        assert(before.push(block@) =~= head + skill_blocks(workspace@, views.take(i + 1)));
        i += 1;
    }
    assert(views.take(skills.len() as int) =~= views);
    let ghost body = parts.deep_view();
    parts.push("</available_skills>".to_owned());
    assert(parts.deep_view() =~= body.push("</available_skills>"@));
    Some(join_strings(&parts, "\n"))
}

/// The memory section for what the store recalled.
pub fn get_memory_context(has_memory: bool, recalled: &Option<Vec<MemoryEntry>>) -> (r: Option<
    String,
>)
    ensures
        r.deep_view() == memory_section(has_memory, recalled.deep_view()),
{
    let entries = match recalled {
        Some(entries) => entries,
        None => {
            return None;
        },
    };
    if !has_memory {
        return None;
    }
    let ghost views = entries.deep_view();
    let ghost head = seq!["## Relevant Memory"@];
    let mut parts: Vec<String> = Vec::new();
    parts.push("## Relevant Memory".to_owned());
    let mut any = false;
    assert(views.take(0) =~= Seq::<MemoryEntryView>::empty());
    assert(parts.deep_view() =~= head + memory_bullets(views.take(0)));
    let mut i: usize = 0;
    while i < entries.len()
        invariant
            i <= entries.len(),
            views == entries.deep_view(),
            head == seq!["## Relevant Memory"@],
            parts.deep_view() == head + memory_bullets(views.take(i as int)),
            any == any_relevant(views.take(i as int)),
        decreases entries.len() - i,
    {
        let ghost before = parts.deep_view();
        proof {
            let done = views.take(i as int);
            let next = views.take(i + 1);
            assert(next.drop_last() =~= done);
            assert(next.last() == entries[i as int]@);
            if any_relevant(done) {
                let k = choose|k: int| 0 <= k < done.len() && (#[trigger] done[k]).is_relevant();
                assert(next[k] == done[k]);
            }
            if any_relevant(next) && !entries[i as int]@.is_relevant() {
                let k = choose|k: int| 0 <= k < next.len() && (#[trigger] next[k]).is_relevant();
                assert(done[k] == next[k]);
            }
            if entries[i as int]@.is_relevant() {
                assert(next[i as int].is_relevant());
            }
        }
        if entries[i].is_relevant() {
            any = true;
            if !entries[i].content.as_str().is_empty() {
                let mut bullet = "- ".to_owned();
                bullet.append(entries[i].content.as_str());
                parts.push(bullet);
                assert(parts.deep_view() =~= before.push(bullet@));
                assert(before.push(bullet@) =~= head + memory_bullets(views.take(i + 1)));
            }
        }
        i += 1;
    }
    assert(views.take(entries.len() as int) =~= views);
    if any {
        Some(join_strings(&parts, "\n\n"))
    } else {
        None
    }
}

impl<M> ContextBuilder<M> {
    /// A builder for `workspace`, with no memory store, skill or tool.
    pub fn new(workspace: &str) -> (r: Self)
        ensures
            r@ == (ContextBuilderView {
                workspace: workspace@,
                has_memory: false,
                skills: Seq::empty(),
                tool_specs: Seq::empty(),
            }),
            r.memory is None,
    {
        let r = ContextBuilder {
            workspace: workspace.to_owned(),
            memory: None,
            skills: Vec::new(),
            tool_specs: Vec::new(),
        };
        assert(r.skills.deep_view() =~= Seq::<SkillView>::empty());
        assert(r.tool_specs.deep_view() =~= Seq::<ToolSpecView>::empty());
        r
    }

    /// The builder with `memory` as its memory store.
    pub fn with_memory(self, memory: M) -> (r: Self)
        ensures
            r@ == (ContextBuilderView { has_memory: true, ..self@ }),
            r.memory == Some(memory),
    {
        let mut r = self;
        r.memory = Some(memory);
        r
    }

    /// The builder with `skills` in place of its skills.
    pub fn with_skills(self, skills: Vec<Skill>) -> (r: Self)
        ensures
            r@ == (ContextBuilderView { skills: skills.deep_view(), ..self@ }),
            r.memory == self.memory,
    {
        let mut r = self;
        r.skills = skills;
        r
    }

    /// The builder with `tool_specs` in place of its tool specs.
    pub fn with_tool_specs(self, tool_specs: Vec<ToolSpec>) -> (r: Self)
        ensures
            r@ == (ContextBuilderView { tool_specs: tool_specs.deep_view(), ..self@ }),
            r.memory == self.memory,
    {
        let mut r = self;
        r.tool_specs = tool_specs;
        r
    }

    /// The system prompt for the time `timestamp`.
    pub fn build_system_prompt_at(&self, inputs: &PromptInputs, timestamp: &str) -> (r: String)
        ensures
            r@ == system_prompt(self@, inputs@, timestamp@),
    {
        let mut parts: Vec<String> = Vec::new();
        assert(parts.deep_view() =~= Seq::<Seq<char>>::empty());
        push_part(&mut parts, load_bootstrap_files(&inputs.bootstrap));
        push_part(&mut parts, get_tool_instructions(&self.tool_specs));
        let ghost before = parts.deep_view();
        let runtime = get_runtime_context(timestamp, self.workspace.as_str());
        parts.push(runtime);
        assert(parts.deep_view() =~= before.push(runtime@));
        push_part(&mut parts, get_skills_context(self.workspace.as_str(), &self.skills));
        push_part(&mut parts, get_memory_context(self.memory.is_some(), &inputs.recalled));
        join_strings(&parts, "\n\n---\n\n")
    }

    /// The system prompt for now: the prompt for some time, which the
    /// clock gives.
    pub fn build_system_prompt(&self, inputs: &PromptInputs) -> (r: String)
        ensures
            exists|timestamp: Seq<char>| r@ == #[trigger] system_prompt(self@, inputs@, timestamp),
    {
        let timestamp = local_time_text("%Y-%m-%d %H:%M (%A)");
        let prompt = self.build_system_prompt_at(inputs, timestamp.as_str());
        assert(prompt@ == system_prompt(self@, inputs@, timestamp@));
        prompt
    }

    /// The messages of a turn with the system prompt `prompt`: the prompt
    /// as a system message, `history` as it is, and `current_message` as a
    /// user message.
    pub fn messages_with_prompt(prompt: &str, history: Vec<ChatMessage>, current_message: &str)
        -> (r: Vec<ChatMessage>)
        ensures
            r.deep_view() == turn_messages(prompt@, history.deep_view(), current_message@),
    {
        let mut messages: Vec<ChatMessage> = Vec::new();
        let system = ChatMessage::system(prompt);
        messages.push(system);
        assert(messages.deep_view() =~= seq![ChatMessageView::system(prompt@)]);
        let ghost hv = history.deep_view();
        let mut history = history;
        let ghost head = messages.deep_view();
        messages.append(&mut history);
        assert(messages.deep_view() =~= head + hv);
        let ghost body = messages.deep_view();
        let user = ChatMessage::user(current_message);
        messages.push(user);
        assert(messages.deep_view() =~= body.push(user@));
        messages
    }

    /// The messages of a turn: the system prompt for now, `history` as it
    /// is, and `current_message` as a user message.
    pub fn build_messages(
        &self,
        history: Vec<ChatMessage>,
        current_message: &str,
        inputs: &PromptInputs,
    ) -> (r: Vec<ChatMessage>)
        ensures
            exists|timestamp: Seq<char>|
                r.deep_view() == turn_messages(
                    #[trigger] system_prompt(self@, inputs@, timestamp),
                    history.deep_view(),
                    current_message@,
                ),
            r.len() == history.len() + 2,
            r.deep_view()[0].is_system(),
            r.deep_view().subrange(1, 1 + history.len() as int) == history.deep_view(),
            r.deep_view().last() == ChatMessageView::user(current_message@),
    {
        let timestamp = local_time_text("%Y-%m-%d %H:%M (%A)");
        let prompt = self.build_system_prompt_at(inputs, timestamp.as_str());
        assert(prompt@ == system_prompt(self@, inputs@, timestamp@));
        proof {
            turn_messages_shape(prompt@, history.deep_view(), current_message@);
        }
        Self::messages_with_prompt(prompt.as_str(), history, current_message)
    }
}

} // verus!
