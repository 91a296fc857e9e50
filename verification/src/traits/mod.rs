//! The data that passes between the agent loop and its collaborators.

pub mod memory;
pub mod provider;
pub mod tool;

pub use memory::{MemoryCategory, MemoryEntry};
pub use provider::{ChatMessage, ChatRequest, ChatResponse, ProviderEvent, ToolCall};
pub use tool::{tool_spec, Tool, ToolResult, ToolSpec};
