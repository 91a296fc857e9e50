//! The tool that searches the memory store.

use crate::text::{decimal, decimal_string, join, join_strings};
use crate::tools::{extract_string_arg_opt, extract_usize_arg_opt, string_arg_or, usize_arg_or};
use crate::traits::tool::{Tool, ToolResult, ToolResultView};
use vstd::prelude::*;
use vstd::string::*;

verus! {

/// How many entries are asked for where the arguments name no limit.
pub const DEFAULT_RECALL_LIMIT: usize = 10;

/// Searches the memory store. `M` is whatever the caller uses to reach
/// the store.
pub struct MemoryReadTool<M> {
    pub memory: M,
}

/// What to ask the memory store.
#[derive(Debug)]
pub struct MemoryQuery {
    pub query: String,
    pub limit: usize,
}

/// An entry that the store recalled, as the tool shows it.
#[derive(Debug)]
pub struct RecalledMemory {
    pub content: String,
    /// The relevance score written with two decimals, where the store
    /// gave one.
    pub score: Option<String>,
}

/// A `RecalledMemory` as plain values.
pub struct RecalledMemoryView {
    pub content: Seq<char>,
    pub score: Option<Seq<char>>,
}

impl View for RecalledMemory {
    type V = RecalledMemoryView;

    open spec fn view(&self) -> RecalledMemoryView {
        RecalledMemoryView { content: self.content@, score: self.score.deep_view() }
    }
}

impl DeepView for RecalledMemory {
    type V = RecalledMemoryView;

    open spec fn deep_view(&self) -> RecalledMemoryView {
        self@
    }
}

/// The line that shows one entry.
pub open spec fn recalled_line(entry: RecalledMemoryView) -> Seq<char> {
    "- "@ + entry.content + match entry.score {
        Some(s) => " (score: "@ + s + ")"@,
        None => Seq::empty(),
    }
}

/// The lines that show `entries`, in order.
pub open spec fn recalled_lines(entries: Seq<RecalledMemoryView>) -> Seq<Seq<char>>
    decreases entries.len(),
{
    if entries.len() == 0 {
        Seq::empty()
    } else {
        recalled_lines(entries.drop_last()).push(recalled_line(entries.last()))
    }
}

/// The result that refuses a search without a query.
pub open spec fn query_required() -> ToolResultView {
    ToolResultView {
        success: false,
        output: Seq::empty(),
        error: Some("Query parameter is required"@),
    }
}

/// The result of a search.
pub open spec fn recall_result(recalled: Result<Seq<RecalledMemoryView>, Seq<char>>)
    -> ToolResultView {
    match recalled {
        Ok(entries) => ToolResultView {
            success: true,
            output: if entries.len() == 0 {
                "No memories found matching the query."@
            } else {
                "Found "@ + decimal(entries.len()) + " memories:\n"@ + join(
                    recalled_lines(entries),
                    "\n"@,
                )
            },
            error: None,
        },
        Err(e) => ToolResultView {
            success: false,
            output: Seq::empty(),
            error: Some("Failed to read memory: "@ + e),
        },
    }
}

impl<M> MemoryReadTool<M> {
    /// The tool for the store reached through `memory`.
    pub fn new(memory: M) -> (r: Self)
        ensures
            r.memory == memory,
    {
        MemoryReadTool { memory }
    }

    /// What to ask the store: the parameter `query`, and the parameter
    /// `limit` or 10. Without a query the search is refused.
    pub fn plan(args: &str) -> (r: Result<MemoryQuery, ToolResult>)
        ensures
            match r {
                Ok(q) => q.query@ == string_arg_or(args@, "query"@, ""@) && q.query@.len() > 0
                    && q.limit == usize_arg_or(args@, "limit"@, DEFAULT_RECALL_LIMIT),
                Err(refusal) => string_arg_or(args@, "query"@, ""@).len() == 0 && refusal@
                    == query_required(),
            },
    {
        let query = extract_string_arg_opt(args, "query", "");
        let limit = extract_usize_arg_opt(args, "limit", DEFAULT_RECALL_LIMIT);
        if query.as_str().is_empty() {
            Err(ToolResult::error("Query parameter is required"))
        } else {
            Ok(MemoryQuery { query, limit })
        }
    }

    /// The result of the search: `recalled` is what the store recalled, or
    /// the error in words.
    pub fn finish(recalled: Result<Vec<RecalledMemory>, String>) -> (r: ToolResult)
        ensures
            r@ == recall_result(
                match recalled {
                    Ok(entries) => Ok(entries.deep_view()),
                    Err(e) => Err(e@),
                },
            ),
    {
        match recalled {
            Ok(entries) => {
                if entries.is_empty() {
                    return ToolResult::success("No memories found matching the query.");
                }
                let ghost ev = entries.deep_view();
                let mut shown: Vec<String> = Vec::new();
                let mut i: usize = 0;
                assert(ev.take(0) =~= Seq::<RecalledMemoryView>::empty());
                assert(shown.deep_view() =~= Seq::<Seq<char>>::empty());
                while i < entries.len()
                    invariant
                        i <= entries.len(),
                        ev == entries.deep_view(),
                        shown.deep_view() == recalled_lines(ev.take(i as int)),
                    decreases entries.len() - i,
                {
                    let ghost before = shown.deep_view();
                    proof {
                        let next = ev.take(i + 1);
                        assert(next.drop_last() =~= ev.take(i as int));
                        assert(next.last() == entries[i as int]@);
                    }
                    let mut line = "- ".to_owned();
                    line.append(entries[i].content.as_str());
                    match &entries[i].score {
                        Some(s) => {
                            line.append(" (score: ");
                            line.append(s.as_str());
                            line.append(")");
                            assert(line@ =~= recalled_line(entries[i as int]@));
                        },
                        None => {
                            assert(line@ =~= recalled_line(entries[i as int]@));
                        },
                    }
                    shown.push(line);
                    assert(shown.deep_view() =~= before.push(line@));
                    i += 1;
                }
                assert(ev.take(entries.len() as int) =~= ev);
                let mut output = "Found ".to_owned();
                output.append(decimal_string(entries.len()).as_str());
                output.append(" memories:\n");
                output.append(join_strings(&shown, "\n").as_str());
                ToolResult::success(output.as_str())
            },
            Err(e) => {
                let mut message = "Failed to read memory: ".to_owned();
                message.append(e.as_str());
                ToolResult::error(message.as_str())
            },
        }
    }
}

impl<M> Tool for MemoryReadTool<M> {
    fn name(&self) -> (r: String)
        ensures
            r@ == "memory_read"@,
    {
        "memory_read".to_owned()
    }

    fn description(&self) -> (r: String)
        ensures
            r@ == "Retrieve memories from the memory store using a search query"@,
    {
        "Retrieve memories from the memory store using a search query".to_owned()
    }

    fn parameters_schema(&self) -> (r: String)
        ensures
            r@ == "{\"properties\":{\"limit\":{\"description\":\"Maximum number of results to return (default: 10)\",\"type\":\"integer\"},\"query\":{\"description\":\"Keywords or phrase to search for in memory\",\"type\":\"string\"}},\"required\":[\"query\"],\"type\":\"object\"}"@,
    {
        "{\"properties\":{\"limit\":{\"description\":\"Maximum number of results to return (default: 10)\",\"type\":\"integer\"},\"query\":{\"description\":\"Keywords or phrase to search for in memory\",\"type\":\"string\"}},\"required\":[\"query\"],\"type\":\"object\"}".to_owned()
    }
}

} // verus!
