//! The tool that runs a shell command in the workspace.

use crate::tools::{extract_string_arg, string_arg};
use crate::traits::tool::{Tool, ToolResult, ToolResultView};
use vstd::prelude::*;
use vstd::string::*;

verus! {

/// Runs a shell command in the workspace.
#[derive(Debug)]
pub struct ShellTool {
    pub workspace: String,
}

/// What a command left behind.
#[derive(Debug)]
pub struct CommandOutput {
    /// Whether the command exited with success.
    pub success: bool,
    /// The exit status in words.
    pub status: String,
    pub stdout: String,
    pub stderr: String,
}

/// A `CommandOutput` as plain values.
pub struct CommandOutputView {
    pub success: bool,
    pub status: Seq<char>,
    pub stdout: Seq<char>,
    pub stderr: Seq<char>,
}

impl View for CommandOutput {
    type V = CommandOutputView;

    open spec fn view(&self) -> CommandOutputView {
        CommandOutputView {
            success: self.success,
            status: self.status@,
            stdout: self.stdout@,
            stderr: self.stderr@,
        }
    }
}

/// The result of a run. A command that succeeded gives what it wrote to
/// its output, or, where that is nothing, what it wrote to its error
/// stream. A command that failed gives its error stream, or, where that
/// is nothing, its exit status. A command that could not be started
/// gives the reason.
pub open spec fn shell_result(ran: Result<CommandOutputView, Seq<char>>) -> ToolResultView {
    match ran {
        Ok(out) => if out.success {
            ToolResultView {
                success: true,
                output: if out.stdout.len() == 0 {
                    out.stderr
                } else {
                    out.stdout
                },
                error: None,
            }
        } else {
            ToolResultView {
                success: false,
                output: Seq::empty(),
                error: Some(
                    if out.stderr.len() == 0 {
                        "Command failed with status: "@ + out.status
                    } else {
                        out.stderr
                    },
                ),
            }
        },
        Err(e) => ToolResultView {
            success: false,
            output: Seq::empty(),
            error: Some("Failed to execute command: "@ + e),
        },
    }
}

impl ShellTool {
    /// The tool for the workspace `workspace`.
    pub fn new(workspace: &str) -> (r: Self)
        ensures
            r.workspace@ == workspace@,
    {
        ShellTool { workspace: workspace.to_owned() }
    }

    /// The command that the arguments ask for, or the complaint that they
    /// name none.
    pub fn plan(&self, args: &str) -> (r: Result<String, String>)
        ensures
            match r {
                Ok(c) => string_arg(args@, "command"@) == Ok::<Seq<char>, Seq<char>>(c@),
                Err(e) => string_arg(args@, "command"@) == Err::<Seq<char>, Seq<char>>(e@),
            },
    {
        extract_string_arg(args, "command")
    }

    /// The result of the run: `ran` is what the command left behind, or
    /// why it could not be started.
    pub fn finish(ran: Result<CommandOutput, String>) -> (r: ToolResult)
        ensures
            r@ == shell_result(
                match ran {
                    Ok(out) => Ok(out@),
                    Err(e) => Err(e@),
                },
            ),
    {
        match ran {
            Ok(out) => {
                if out.success {
                    if out.stdout.as_str().is_empty() {
                        ToolResult::success(out.stderr.as_str())
                    } else {
                        ToolResult::success(out.stdout.as_str())
                    }
                } else {
                    if out.stderr.as_str().is_empty() {
                        let mut message = "Command failed with status: ".to_owned();
                        message.append(out.status.as_str());
                        ToolResult::error(message.as_str())
                    } else {
                        ToolResult::error(out.stderr.as_str())
                    }
                }
            },
            Err(e) => {
                let mut message = "Failed to execute command: ".to_owned();
                message.append(e.as_str());
                ToolResult::error(message.as_str())
            },
        }
    }
}

impl Tool for ShellTool {
    fn name(&self) -> (r: String)
        ensures
            r@ == "shell"@,
    {
        "shell".to_owned()
    }

    fn description(&self) -> (r: String)
        ensures
            r@ == "Execute a shell command in the workspace directory"@,
    {
        "Execute a shell command in the workspace directory".to_owned()
    }

    fn parameters_schema(&self) -> (r: String)
        ensures
            r@ == "{\"properties\":{\"command\":{\"description\":\"Shell command to execute\",\"type\":\"string\"}},\"required\":[\"command\"],\"type\":\"object\"}"@,
    {
        "{\"properties\":{\"command\":{\"description\":\"Shell command to execute\",\"type\":\"string\"}},\"required\":[\"command\"],\"type\":\"object\"}".to_owned()
    }
}

} // verus!
