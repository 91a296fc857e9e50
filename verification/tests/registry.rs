use dinoe_core::agent::registry::ToolRegistry;
use dinoe_core::tools::{FileReadTool, ShellTool};
use dinoe_core::traits::{tool_spec, Tool, ToolResult};

/// A tool of the test's own, to show that callers can bring theirs.
enum AnyTool {
    Shell(ShellTool),
    FileRead(FileReadTool),
    Echo(String),
}

impl Tool for AnyTool {
    fn name(&self) -> String {
        match self {
            AnyTool::Shell(t) => t.name(),
            AnyTool::FileRead(t) => t.name(),
            AnyTool::Echo(_) => "echo".to_string(),
        }
    }

    fn description(&self) -> String {
        match self {
            AnyTool::Shell(t) => t.description(),
            AnyTool::FileRead(t) => t.description(),
            AnyTool::Echo(d) => d.clone(),
        }
    }

    fn parameters_schema(&self) -> String {
        match self {
            AnyTool::Shell(t) => t.parameters_schema(),
            AnyTool::FileRead(t) => t.parameters_schema(),
            AnyTool::Echo(_) => "{\"type\":\"object\"}".to_string(),
        }
    }
}

fn run(tool: &AnyTool, args: &str) -> Result<ToolResult, String> {
    match tool {
        AnyTool::Echo(_) => Ok(ToolResult::success(args)),
        AnyTool::Shell(_) => Err("no shell here".to_string()),
        AnyTool::FileRead(_) => Ok(ToolResult::error("Failed to read file: gone")),
    }
}

fn registry() -> ToolRegistry<AnyTool> {
    let mut registry = ToolRegistry::new();
    registry.register(AnyTool::Shell(ShellTool::new("/w")));
    registry.register(AnyTool::FileRead(FileReadTool::new("/w")));
    registry.register(AnyTool::Echo("says it back".to_string()));
    registry
}

#[test]
fn new_registry_is_empty() {
    let registry: ToolRegistry<AnyTool> = ToolRegistry::new();
    assert_eq!(registry.len(), 0);
    assert!(registry.get_specs().is_empty());
    assert!(registry.get("shell").is_none());
}

#[test]
fn registered_tools_are_found_by_name() {
    let registry = registry();
    assert_eq!(registry.len(), 3);
    assert_eq!(registry.get("shell").unwrap().name(), "shell");
    assert_eq!(registry.get("file_read").unwrap().name(), "file_read");
    assert_eq!(registry.get("echo").unwrap().description(), "says it back");
    assert!(registry.get("Shell").is_none());
    assert!(registry.get("").is_none());
}

#[test]
fn specs_come_in_the_order_of_registration() {
    let specs = registry().get_specs();
    assert_eq!(specs.len(), 3);
    assert_eq!(specs[0].name, "shell");
    assert_eq!(specs[0].description, "Execute a shell command in the workspace directory");
    assert_eq!(specs[1].name, "file_read");
    assert_eq!(specs[2].name, "echo");
    assert_eq!(specs[2].parameters_schema, "{\"type\":\"object\"}");
}

#[test]
fn last_registration_for_a_name_wins() {
    let mut registry = registry();
    registry.register(AnyTool::Echo("second".to_string()));
    assert_eq!(registry.len(), 3);
    assert_eq!(registry.get("echo").unwrap().description(), "second");
    let specs = registry.get_specs();
    assert_eq!(specs[2].name, "echo");
    assert_eq!(specs[2].description, "second");
    registry.register(AnyTool::Shell(ShellTool::new("/other")));
    assert_eq!(registry.len(), 3);
    assert_eq!(registry.get_specs()[0].name, "shell");
}

#[test]
fn insert_registers_under_the_given_name() {
    let mut registry = registry();
    registry.insert("alias".to_string(), AnyTool::Echo("aliased".to_string()));
    assert_eq!(registry.len(), 4);
    assert_eq!(registry.get("alias").unwrap().description(), "aliased");
    assert_eq!(registry.get("echo").unwrap().description(), "says it back");
}

#[test]
fn unknown_tool_is_answered_with_a_failure() {
    let result = registry().execute("nope", "{}", run);
    assert!(!result.success);
    assert_eq!(result.output, "");
    assert_eq!(result.error.as_deref(), Some("Tool 'nope' not found"));
    let result = ToolRegistry::<AnyTool>::missing("x y");
    assert!(!result.success);
    assert_eq!(result.error.as_deref(), Some("Tool 'x y' not found"));
}

#[test]
fn resolve_gives_the_tool_or_the_answer() {
    let registry = registry();
    assert_eq!(registry.resolve("echo").ok().unwrap().name(), "echo");
    let answer = registry.resolve("nope").err().unwrap();
    assert!(!answer.success);
    assert_eq!(answer.error.as_deref(), Some("Tool 'nope' not found"));
}

#[test]
fn a_run_that_fails_is_answered_with_its_message() {
    let result = registry().execute("shell", "{}", run);
    assert!(!result.success);
    assert_eq!(result.output, "");
    assert_eq!(result.error.as_deref(), Some("Execution failed: no shell here"));
}

#[test]
fn a_result_stays_as_the_tool_gave_it() {
    let result = registry().execute("echo", "{\"a\":1}", run);
    assert!(result.success);
    assert_eq!(result.output, "{\"a\":1}");
    assert_eq!(result.error, None);
    let result = registry().execute("file_read", "{}", run);
    assert!(!result.success);
    assert_eq!(result.error.as_deref(), Some("Failed to read file: gone"));
}

#[test]
fn settle_keeps_results_and_reports_failures() {
    let kept = ToolRegistry::<AnyTool>::settle(Ok(ToolResult::success("fine")));
    assert!(kept.success);
    assert_eq!(kept.output, "fine");
    let failed = ToolRegistry::<AnyTool>::settle(Err("boom".to_string()));
    assert!(!failed.success);
    assert_eq!(failed.error.as_deref(), Some("Execution failed: boom"));
}

#[test]
fn tool_spec_joins_name_description_and_schema() {
    let spec = tool_spec(&AnyTool::Echo("d".to_string()));
    assert_eq!(spec.name, "echo");
    assert_eq!(spec.description, "d");
    assert_eq!(spec.parameters_schema, "{\"type\":\"object\"}");
}
