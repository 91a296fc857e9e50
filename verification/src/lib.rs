//! Orchestration core of a tool-using conversational agent: message assembly,
//! response interpretation, tool dispatch, loop detection and history
//! compaction, with the tool registry and the context builder beside it.

pub mod agent;
pub mod config;
pub mod digest;
pub mod json;
pub mod onboard;
pub mod providers;
pub mod skills;
pub mod text;
pub mod tools;
pub mod traits;

pub use agent::{AgentLoop, ContextBuilder, ToolRegistry};
pub use config::{get_config_path, get_dinoe_dir, StreamConfig};
pub use providers::{provider_kind, ProviderKind};
pub use skills::{load_skill, skills_dir, Skill, SkillRegistry, SkillsCommands};
pub use tools::{
    extract_string_arg, extract_string_arg_opt, extract_usize_arg_opt, FileReadTool,
    FileWriteTool, MemoryReadTool, MemoryWriteTool, ShellTool,
};
pub use traits::{
    ChatMessage, ChatRequest, ChatResponse, MemoryCategory, MemoryEntry, ProviderEvent, Tool,
    ToolCall, ToolResult, ToolSpec,
};
