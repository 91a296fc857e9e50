//! Tools: what one is called, what it takes, and what running it gave.

use crate::json::{json_string, json_string_of};
use vstd::prelude::*;
use vstd::string::*;

verus! {

/// What running a tool gave.
#[derive(Debug)]
pub struct ToolResult {
    pub success: bool,
    pub output: String,
    pub error: Option<String>,
}

/// A `ToolResult` as plain values.
pub struct ToolResultView {
    pub success: bool,
    pub output: Seq<char>,
    pub error: Option<Seq<char>>,
}

impl View for ToolResult {
    type V = ToolResultView;

    open spec fn view(&self) -> ToolResultView {
        ToolResultView {
            success: self.success,
            output: self.output@,
            error: self.error.deep_view(),
        }
    }
}

impl DeepView for ToolResult {
    type V = ToolResultView;

    open spec fn deep_view(&self) -> ToolResultView {
        self@
    }
}

impl Clone for ToolResult {
    fn clone(&self) -> (r: Self)
        ensures
            r == *self,
    {
        ToolResult {
            success: self.success,
            output: self.output.clone(),
            error: match &self.error {
                Some(e) => Some(e.clone()),
                None => None,
            },
        }
    }
}

impl ToolResultView {
    /// The JSON object that stands for a result: `success`, `output` and
    /// `error`, in that order, an absent error written `null`.
    pub open spec fn to_json(self) -> Seq<char> {
        "{\"success\":"@ + (if self.success {
            "true"@
        } else {
            "false"@
        }) + ",\"output\":"@ + json_string_of(self.output) + ",\"error\":"@ + (match self.error {
            Some(e) => json_string_of(e),
            None => "null"@,
        }) + "}"@
    }
}

impl ToolResult {
    /// A result that reports success with `output`.
    pub fn success(output: &str) -> (r: Self)
        ensures
            r@ == (ToolResultView { success: true, output: output@, error: None }),
    {
        ToolResult { success: true, output: output.to_owned(), error: None }
    }

    /// A result that reports failure with the message `error`.
    pub fn error(error: &str) -> (r: Self)
        ensures
            r@ == (ToolResultView {
                success: false,
                output: Seq::<char>::empty(),
                error: Some(error@),
            }),
    {
        ToolResult { success: false, output: String::new(), error: Some(error.to_owned()) }
    }

    /// The result as a JSON object, the form in which a tool message
    /// carries it.
    pub fn to_json(&self) -> (r: String)
        ensures
            r@ == self@.to_json(),
    {
        let mut out = "{\"success\":".to_owned();
        if self.success {
            out.append("true");
        } else {
            out.append("false");
        }
        out.append(",\"output\":");
        let quoted = json_string(self.output.as_str());
        out.append(quoted.as_str());
        out.append(",\"error\":");
        match &self.error {
            Some(e) => {
                let quoted = json_string(e.as_str());
                out.append(quoted.as_str());
            },
            None => {
                out.append("null");
            },
        }
        out.append("}");
        out
    }
}

/// What a tool is called, what it does and what it takes.
#[derive(Debug)]
pub struct ToolSpec {
    pub name: String,
    pub description: String,
    /// The JSON schema of the parameters, as compact JSON text.
    pub parameters_schema: String,
}

/// A `ToolSpec` as plain values.
pub struct ToolSpecView {
    pub name: Seq<char>,
    pub description: Seq<char>,
    pub parameters_schema: Seq<char>,
}

impl View for ToolSpec {
    type V = ToolSpecView;

    open spec fn view(&self) -> ToolSpecView {
        ToolSpecView {
            name: self.name@,
            description: self.description@,
            parameters_schema: self.parameters_schema@,
        }
    }
}

impl DeepView for ToolSpec {
    type V = ToolSpecView;

    open spec fn deep_view(&self) -> ToolSpecView {
        self@
    }
}

impl Clone for ToolSpec {
    fn clone(&self) -> (r: Self)
        ensures
            r == *self,
    {
        ToolSpec {
            name: self.name.clone(),
            description: self.description.clone(),
            parameters_schema: self.parameters_schema.clone(),
        }
    }
}

/// A tool as the registry and the prompt see it: what it is called, what
/// it does and what it takes. Running a tool is left to the caller, who
/// holds whatever it needs to do so.
pub trait Tool {
    /// The name, by which calls find the tool.
    fn name(&self) -> String;

    /// What the tool does, in a sentence.
    fn description(&self) -> String;

    /// The JSON schema of the parameters, as compact JSON text.
    fn parameters_schema(&self) -> String;
}

/// Whether `spec` is what the methods of `tool` may answer: its name, its
/// description and its schema.
pub open spec fn is_spec_of<T: Tool>(tool: &T, spec: ToolSpec) -> bool {
    &&& call_ensures(T::name, (tool,), spec.name)
    &&& call_ensures(T::description, (tool,), spec.description)
    &&& call_ensures(T::parameters_schema, (tool,), spec.parameters_schema)
}

/// Name, description and schema of `tool` together.
pub fn tool_spec<T: Tool>(tool: &T) -> (r: ToolSpec)
    ensures
        is_spec_of(tool, r),
{
    ToolSpec {
        name: tool.name(),
        description: tool.description(),
        parameters_schema: tool.parameters_schema(),
    }
}

} // verus!
