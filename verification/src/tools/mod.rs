//! The tools that come with the agent, and how they read their arguments.
//!
//! A tool plans what to do from its arguments, the caller does it, and the
//! tool makes a result of what came of it.

pub mod file_read;
pub mod file_write;
pub mod memory_read;
pub mod memory_write;
pub mod shell;

pub use file_read::FileReadTool;
pub use file_write::FileWriteTool;
pub use memory_read::MemoryReadTool;
pub use memory_write::MemoryWriteTool;
pub use shell::ShellTool;

use crate::json::{json_str_member, json_str_member_of, json_u64_member, json_u64_member_of};
use vstd::prelude::*;
use vstd::string::*;

verus! {

/// What a tool reports where it lacks the parameter `key`.
pub open spec fn missing_parameter(key: Seq<char>) -> Seq<char> {
    "Missing '"@ + key + "' parameter"@
}

/// The string that the arguments hold under `key`, or the complaint that
/// it is missing.
pub open spec fn string_arg(args: Seq<char>, key: Seq<char>) -> Result<Seq<char>, Seq<char>> {
    match json_str_member_of(args, key) {
        Some(s) => Ok(s),
        None => Err(missing_parameter(key)),
    }
}

/// The string that the arguments hold under `key`, or `default`.
pub open spec fn string_arg_or(args: Seq<char>, key: Seq<char>, default: Seq<char>) -> Seq<char> {
    match json_str_member_of(args, key) {
        Some(s) => s,
        None => default,
    }
}

/// The number that the arguments hold under `key`, or `default`.
pub open spec fn usize_arg_or(args: Seq<char>, key: Seq<char>, default: usize) -> usize {
    match json_u64_member_of(args, key) {
        Some(n) => n as usize,
        None => default,
    }
}

/// The string under `key` in the arguments `args`, which are JSON text.
pub fn extract_string_arg(args: &str, key: &str) -> (r: Result<String, String>)
    ensures
        match r {
            Ok(s) => string_arg(args@, key@) == Ok::<Seq<char>, Seq<char>>(s@),
            Err(e) => string_arg(args@, key@) == Err::<Seq<char>, Seq<char>>(e@),
        },
{
    match json_str_member(args, key) {
        Some(s) => Ok(s),
        None => {
            let mut message = "Missing '".to_owned();
            message.append(key);
            message.append("' parameter");
            Err(message)
        },
    }
}

/// The string under `key` in the arguments, or `default` where there is
/// none.
pub fn extract_string_arg_opt(args: &str, key: &str, default: &str) -> (r: String)
    ensures
        r@ == string_arg_or(args@, key@, default@),
{
    match json_str_member(args, key) {
        Some(s) => s,
        None => default.to_owned(),
    }
}

/// The number under `key` in the arguments, or `default` where there is
/// none.
pub fn extract_usize_arg_opt(args: &str, key: &str, default: usize) -> (r: usize)
    ensures
        r == usize_arg_or(args@, key@, default),
{
    match json_u64_member(args, key) {
        Some(n) => n as usize,
        None => default,
    }
}

} // verus!
