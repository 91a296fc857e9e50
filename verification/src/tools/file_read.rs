//! The tool that reads a file of the workspace.

use crate::text::{join_path, path_join};
use crate::tools::{extract_string_arg, string_arg};
use crate::traits::tool::{Tool, ToolResult, ToolResultView};
use vstd::prelude::*;
use vstd::string::*;

verus! {

/// Reads a file of the workspace.
#[derive(Debug)]
pub struct FileReadTool {
    pub workspace: String,
}

/// The file to read: the parameter `path`, taken from the workspace.
pub open spec fn read_target(workspace: Seq<char>, args: Seq<char>) -> Result<Seq<char>, Seq<char>> {
    match string_arg(args, "path"@) {
        Ok(path) => Ok(path_join(workspace, path)),
        Err(e) => Err(e),
    }
}

/// The result of a read: the text of the file, or why it could not be
/// read.
pub open spec fn read_result(read: Result<Seq<char>, Seq<char>>) -> ToolResultView {
    match read {
        Ok(content) => ToolResultView { success: true, output: content, error: None },
        Err(e) => ToolResultView {
            success: false,
            output: Seq::empty(),
            error: Some("Failed to read file: "@ + e),
        },
    }
}

impl FileReadTool {
    /// The tool for the workspace `workspace`.
    pub fn new(workspace: &str) -> (r: Self)
        ensures
            r.workspace@ == workspace@,
    {
        FileReadTool { workspace: workspace.to_owned() }
    }

    /// The path of the file that the arguments ask for, or the complaint
    /// that they name none.
    pub fn plan(&self, args: &str) -> (r: Result<String, String>)
        ensures
            match r {
                Ok(p) => read_target(self.workspace@, args@) == Ok::<Seq<char>, Seq<char>>(p@),
                Err(e) => read_target(self.workspace@, args@) == Err::<Seq<char>, Seq<char>>(e@),
            },
    {
        match extract_string_arg(args, "path") {
            Ok(path) => Ok(join_path(self.workspace.as_str(), path.as_str())),
            Err(e) => Err(e),
        }
    }

    /// The result of the read: `read` is the text of the file, or the
    /// error in words.
    pub fn finish(read: Result<String, String>) -> (r: ToolResult)
        ensures
            r@ == read_result(
                match read {
                    Ok(c) => Ok(c@),
                    Err(e) => Err(e@),
                },
            ),
    {
        match read {
            Ok(content) => ToolResult::success(content.as_str()),
            Err(e) => {
                let mut message = "Failed to read file: ".to_owned();
                message.append(e.as_str());
                ToolResult::error(message.as_str())
            },
        }
    }
}

impl Tool for FileReadTool {
    fn name(&self) -> (r: String)
        ensures
            r@ == "file_read"@,
    {
        "file_read".to_owned()
    }

    fn description(&self) -> (r: String)
        ensures
            r@ == "Read the contents of a file from the workspace"@,
    {
        "Read the contents of a file from the workspace".to_owned()
    }

    fn parameters_schema(&self) -> (r: String)
        ensures
            r@ == "{\"properties\":{\"path\":{\"description\":\"Path to the file to read\",\"type\":\"string\"}},\"required\":[\"path\"],\"type\":\"object\"}"@,
    {
        "{\"properties\":{\"path\":{\"description\":\"Path to the file to read\",\"type\":\"string\"}},\"required\":[\"path\"],\"type\":\"object\"}".to_owned()
    }
}

} // verus!
