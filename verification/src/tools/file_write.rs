//! The tool that writes a file of the workspace.

use crate::text::{join_path, path_join};
use crate::tools::{extract_string_arg, string_arg};
use crate::traits::tool::{Tool, ToolResult, ToolResultView};
use vstd::prelude::*;
use vstd::string::*;

verus! {

/// Writes a file of the workspace.
#[derive(Debug)]
pub struct FileWriteTool {
    pub workspace: String,
}

/// The file to write and what to write: the parameter `path`, taken from
/// the workspace, and the parameter `content`. A missing path is
/// complained of before a missing content.
pub open spec fn write_target(workspace: Seq<char>, args: Seq<char>) -> Result<
    (Seq<char>, Seq<char>),
    Seq<char>,
> {
    match string_arg(args, "path"@) {
        Ok(path) => match string_arg(args, "content"@) {
            Ok(content) => Ok((path_join(workspace, path), content)),
            Err(e) => Err(e),
        },
        Err(e) => Err(e),
    }
}

/// The result of a write.
pub open spec fn write_result(written: Result<(), Seq<char>>) -> ToolResultView {
    match written {
        Ok(_) => ToolResultView {
            success: true,
            output: "File written successfully"@,
            error: None,
        },
        Err(e) => ToolResultView {
            success: false,
            output: Seq::empty(),
            error: Some("Failed to write file: "@ + e),
        },
    }
}

impl FileWriteTool {
    /// The tool for the workspace `workspace`.
    pub fn new(workspace: &str) -> (r: Self)
        ensures
            r.workspace@ == workspace@,
    {
        FileWriteTool { workspace: workspace.to_owned() }
    }

    /// The path of the file to write and the text to write, or the
    /// complaint that the arguments lack one of them.
    pub fn plan(&self, args: &str) -> (r: Result<(String, String), String>)
        ensures
            match r {
                Ok(p) => write_target(self.workspace@, args@) == Ok::<
                    (Seq<char>, Seq<char>),
                    Seq<char>,
                >((p.0@, p.1@)),
                Err(e) => write_target(self.workspace@, args@) == Err::<
                    (Seq<char>, Seq<char>),
                    Seq<char>,
                >(e@),
            },
    {
        let path = match extract_string_arg(args, "path") {
            Ok(path) => path,
            Err(e) => {
                return Err(e);
            },
        };
        match extract_string_arg(args, "content") {
            Ok(content) => Ok((join_path(self.workspace.as_str(), path.as_str()), content)),
            Err(e) => Err(e),
        }
    }

    /// The result of the write: `written` is the error in words where it
    /// failed.
    pub fn finish(written: Result<(), String>) -> (r: ToolResult)
        ensures
            r@ == write_result(
                match written {
                    Ok(_) => Ok(()),
                    Err(e) => Err(e@),
                },
            ),
    {
        match written {
            Ok(_) => ToolResult::success("File written successfully"),
            Err(e) => {
                let mut message = "Failed to write file: ".to_owned();
                message.append(e.as_str());
                ToolResult::error(message.as_str())
            },
        }
    }
}

impl Tool for FileWriteTool {
    fn name(&self) -> (r: String)
        ensures
            r@ == "file_write"@,
    {
        "file_write".to_owned()
    }

    fn description(&self) -> (r: String)
        ensures
            r@ == "Write content to a file in the workspace"@,
    {
        "Write content to a file in the workspace".to_owned()
    }

    fn parameters_schema(&self) -> (r: String)
        ensures
            r@ == "{\"properties\":{\"content\":{\"description\":\"Content to write to the file\",\"type\":\"string\"},\"path\":{\"description\":\"Path to the file to write\",\"type\":\"string\"}},\"required\":[\"path\",\"content\"],\"type\":\"object\"}"@,
    {
        "{\"properties\":{\"content\":{\"description\":\"Content to write to the file\",\"type\":\"string\"},\"path\":{\"description\":\"Path to the file to write\",\"type\":\"string\"}},\"required\":[\"path\",\"content\"],\"type\":\"object\"}".to_owned()
    }
}

} // verus!
