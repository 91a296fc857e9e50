//! The agent loop and its two collaborators.

pub mod compaction;
pub mod context;
pub mod fallback;
pub mod loop_;
pub mod registry;
pub mod repeat;
pub mod stream;

pub use context::ContextBuilder;
pub use loop_::AgentLoop;
pub use registry::ToolRegistry;
