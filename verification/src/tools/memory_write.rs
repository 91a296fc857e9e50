//! The tool that writes to the memory store.

use crate::tools::{extract_string_arg, extract_string_arg_opt, string_arg, string_arg_or};
use crate::traits::memory::{MemoryCategory, MemoryCategoryView};
use crate::traits::tool::{Tool, ToolResult, ToolResultView};
use vstd::prelude::*;
use vstd::string::*;

verus! {

/// Writes to the memory store. `M` is whatever the caller uses to reach
/// the store.
pub struct MemoryWriteTool<M> {
    pub memory: M,
}

/// What to write to the memory store.
#[derive(Debug)]
pub struct MemoryWrite {
    pub key: String,
    pub content: String,
    pub category: MemoryCategory,
}

/// A `MemoryWrite` as plain values.
pub struct MemoryWriteView {
    pub key: Seq<char>,
    pub content: Seq<char>,
    pub category: MemoryCategoryView,
}

impl View for MemoryWrite {
    type V = MemoryWriteView;

    open spec fn view(&self) -> MemoryWriteView {
        MemoryWriteView { key: self.key@, content: self.content@, category: self.category@ }
    }
}

/// What to write: the parameters `key` and `content`, under the category
/// that the parameter `category` names, or the core category where there
/// is none. A missing key is complained of before a missing content.
pub open spec fn write_plan(args: Seq<char>) -> Result<MemoryWriteView, Seq<char>> {
    match string_arg(args, "key"@) {
        Ok(key) => match string_arg(args, "content"@) {
            Ok(content) => Ok(
                MemoryWriteView {
                    key,
                    content,
                    category: MemoryCategoryView::from_label(
                        string_arg_or(args, "category"@, "core"@),
                    ),
                },
            ),
            Err(e) => Err(e),
        },
        Err(e) => Err(e),
    }
}

/// The result of a write under `key`.
pub open spec fn store_result(key: Seq<char>, stored: Result<(), Seq<char>>) -> ToolResultView {
    match stored {
        Ok(_) => ToolResultView {
            success: true,
            output: "Stored memory with key: "@ + key,
            error: None,
        },
        Err(e) => ToolResultView {
            success: false,
            output: Seq::empty(),
            error: Some("Failed to store memory: "@ + e),
        },
    }
}

impl<M> MemoryWriteTool<M> {
    /// The tool for the store reached through `memory`.
    pub fn new(memory: M) -> (r: Self)
        ensures
            r.memory == memory,
    {
        MemoryWriteTool { memory }
    }

    /// What to write, or the complaint that the arguments lack the key or
    /// the content.
    pub fn plan(args: &str) -> (r: Result<MemoryWrite, String>)
        ensures
            match r {
                Ok(w) => write_plan(args@) == Ok::<MemoryWriteView, Seq<char>>(w@),
                Err(e) => write_plan(args@) == Err::<MemoryWriteView, Seq<char>>(e@),
            },
    {
        let key = match extract_string_arg(args, "key") {
            Ok(key) => key,
            Err(e) => {
                return Err(e);
            },
        };
        let content = match extract_string_arg(args, "content") {
            Ok(content) => content,
            Err(e) => {
                return Err(e);
            },
        };
        let label = extract_string_arg_opt(args, "category", "core");
        Ok(MemoryWrite { key, content, category: MemoryCategory::from_label(label.as_str()) })
    }

    /// The result of the write under `key`: `stored` is the error in
    /// words where it failed.
    pub fn finish(key: &str, stored: Result<(), String>) -> (r: ToolResult)
        ensures
            r@ == store_result(
                key@,
                match stored {
                    Ok(_) => Ok(()),
                    Err(e) => Err(e@),
                },
            ),
    {
        match stored {
            Ok(_) => {
                let mut output = "Stored memory with key: ".to_owned();
                output.append(key);
                ToolResult::success(output.as_str())
            },
            Err(e) => {
                let mut message = "Failed to store memory: ".to_owned();
                message.append(e.as_str());
                ToolResult::error(message.as_str())
            },
        }
    }
}

impl<M> Tool for MemoryWriteTool<M> {
    fn name(&self) -> (r: String)
        ensures
            r@ == "memory_write"@,
    {
        "memory_write".to_owned()
    }

    fn description(&self) -> (r: String)
        ensures
            r@ == "Store information in memory for future reference. Use this for important facts, user preferences, decisions, or context that should persist."@,
    {
        "Store information in memory for future reference. Use this for important facts, user preferences, decisions, or context that should persist.".to_owned()
    }

    fn parameters_schema(&self) -> (r: String)
        ensures
            r@ == "{\"properties\":{\"category\":{\"description\":\"Category: 'core' for long-term facts, 'daily' for logs (default: 'core')\",\"type\":\"string\"},\"content\":{\"description\":\"The content to store in memory\",\"type\":\"string\"},\"key\":{\"description\":\"A unique key/identifier for this memory\",\"type\":\"string\"}},\"required\":[\"key\",\"content\"],\"type\":\"object\"}"@,
    {
        "{\"properties\":{\"category\":{\"description\":\"Category: 'core' for long-term facts, 'daily' for logs (default: 'core')\",\"type\":\"string\"},\"content\":{\"description\":\"The content to store in memory\",\"type\":\"string\"},\"key\":{\"description\":\"A unique key/identifier for this memory\",\"type\":\"string\"}},\"required\":[\"key\",\"content\"],\"type\":\"object\"}".to_owned()
    }
}

} // verus!
