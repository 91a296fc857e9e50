use dinoe_core::tools::memory_read::{MemoryQuery, RecalledMemory, DEFAULT_RECALL_LIMIT};
use dinoe_core::tools::shell::CommandOutput;
use dinoe_core::tools::{
    extract_string_arg, extract_string_arg_opt, extract_usize_arg_opt, FileReadTool,
    FileWriteTool, MemoryReadTool, MemoryWriteTool, ShellTool,
};
use dinoe_core::traits::{MemoryCategory, Tool};

fn normalised(json: &str) -> String {
    let value: serde_json::Value = serde_json::from_str(json).unwrap();
    serde_json::to_string(&value).unwrap()
}

#[test]
fn string_argument() {
    assert_eq!(extract_string_arg("{\"path\":\"a.txt\"}", "path"), Ok("a.txt".to_string()));
    assert_eq!(
        extract_string_arg("{\"path\":3}", "path"),
        Err("Missing 'path' parameter".to_string())
    );
    assert_eq!(extract_string_arg("{}", "command"), Err("Missing 'command' parameter".to_string()));
    assert_eq!(extract_string_arg("[\"path\"]", "path"), Err("Missing 'path' parameter".to_string()));
    assert_eq!(extract_string_arg("nonsense", "path"), Err("Missing 'path' parameter".to_string()));
    assert_eq!(extract_string_arg("{\"a\":\"q\\\"uo\\u00e9\"}", "a"), Ok("q\"uoé".to_string()));
}

#[test]
fn optional_arguments() {
    assert_eq!(extract_string_arg_opt("{\"c\":\"daily\"}", "c", "core"), "daily");
    assert_eq!(extract_string_arg_opt("{}", "c", "core"), "core");
    assert_eq!(extract_string_arg_opt("{\"c\":null}", "c", "core"), "core");
    assert_eq!(extract_usize_arg_opt("{\"limit\":3}", "limit", 10), 3);
    assert_eq!(extract_usize_arg_opt("{\"limit\":\"3\"}", "limit", 10), 10);
    assert_eq!(extract_usize_arg_opt("{\"limit\":-3}", "limit", 10), 10);
    assert_eq!(extract_usize_arg_opt("{\"limit\":2.5}", "limit", 10), 10);
    assert_eq!(extract_usize_arg_opt("{}", "limit", 10), 10);
    assert_eq!(extract_usize_arg_opt("{\"limit\":0}", "limit", 10), 0);
}

#[test]
fn names_descriptions_and_schemas() {
    let read = FileReadTool::new("/w");
    assert_eq!(read.name(), "file_read");
    assert_eq!(read.description(), "Read the contents of a file from the workspace");
    assert_eq!(
        read.parameters_schema(),
        normalised(
            "{\"type\":\"object\",\"properties\":{\"path\":{\"type\":\"string\",\"description\":\"Path to the file to read\"}},\"required\":[\"path\"]}"
        )
    );
    let write = FileWriteTool::new("/w");
    assert_eq!(write.name(), "file_write");
    assert_eq!(write.description(), "Write content to a file in the workspace");
    assert_eq!(
        write.parameters_schema(),
        normalised(
            "{\"type\":\"object\",\"properties\":{\"path\":{\"type\":\"string\",\"description\":\"Path to the file to write\"},\"content\":{\"type\":\"string\",\"description\":\"Content to write to the file\"}},\"required\":[\"path\",\"content\"]}"
        )
    );
    let shell = ShellTool::new("/w");
    assert_eq!(shell.name(), "shell");
    assert_eq!(shell.description(), "Execute a shell command in the workspace directory");
    assert_eq!(
        shell.parameters_schema(),
        normalised(
            "{\"type\":\"object\",\"properties\":{\"command\":{\"type\":\"string\",\"description\":\"Shell command to execute\"}},\"required\":[\"command\"]}"
        )
    );
    let recall = MemoryReadTool::new(());
    assert_eq!(recall.name(), "memory_read");
    assert_eq!(recall.description(), "Retrieve memories from the memory store using a search query");
    assert_eq!(
        recall.parameters_schema(),
        normalised(
            "{\"type\":\"object\",\"properties\":{\"query\":{\"type\":\"string\",\"description\":\"Keywords or phrase to search for in memory\"},\"limit\":{\"type\":\"integer\",\"description\":\"Maximum number of results to return (default: 10)\"}},\"required\":[\"query\"]}"
        )
    );
    let store = MemoryWriteTool::new(());
    assert_eq!(store.name(), "memory_write");
    assert_eq!(
        store.description(),
        "Store information in memory for future reference. Use this for important facts, user preferences, decisions, or context that should persist."
    );
    assert_eq!(
        store.parameters_schema(),
        normalised(
            "{\"type\":\"object\",\"properties\":{\"key\":{\"type\":\"string\",\"description\":\"A unique key/identifier for this memory\"},\"content\":{\"type\":\"string\",\"description\":\"The content to store in memory\"},\"category\":{\"type\":\"string\",\"description\":\"Category: 'core' for long-term facts, 'daily' for logs (default: 'core')\"}},\"required\":[\"key\",\"content\"]}"
        )
    );
}

#[test]
fn file_read_plans_and_finishes() {
    let tool = FileReadTool::new("/w");
    assert_eq!(tool.workspace, "/w");
    assert_eq!(tool.plan("{\"path\":\"notes/a.txt\"}"), Ok("/w/notes/a.txt".to_string()));
    assert_eq!(tool.plan("{\"path\":\"/etc/hosts\"}"), Ok("/etc/hosts".to_string()));
    assert_eq!(tool.plan("{}"), Err("Missing 'path' parameter".to_string()));
    let ok = FileReadTool::finish(Ok("text".to_string()));
    assert!(ok.success);
    assert_eq!(ok.output, "text");
    assert_eq!(ok.error, None);
    let failed = FileReadTool::finish(Err("No such file or directory (os error 2)".to_string()));
    assert!(!failed.success);
    assert_eq!(
        failed.error.as_deref(),
        Some("Failed to read file: No such file or directory (os error 2)")
    );
}

#[test]
fn file_write_plans_and_finishes() {
    let tool = FileWriteTool::new("/w");
    assert_eq!(
        tool.plan("{\"path\":\"a.txt\",\"content\":\"hi\"}"),
        Ok(("/w/a.txt".to_string(), "hi".to_string()))
    );
    assert_eq!(tool.plan("{\"content\":\"hi\"}"), Err("Missing 'path' parameter".to_string()));
    assert_eq!(tool.plan("{\"path\":\"a\"}"), Err("Missing 'content' parameter".to_string()));
    assert_eq!(tool.plan("{}"), Err("Missing 'path' parameter".to_string()));
    let ok = FileWriteTool::finish(Ok(()));
    assert!(ok.success);
    assert_eq!(ok.output, "File written successfully");
    let failed = FileWriteTool::finish(Err("denied".to_string()));
    assert_eq!(failed.error.as_deref(), Some("Failed to write file: denied"));
}

fn output(success: bool, stdout: &str, stderr: &str) -> CommandOutput {
    CommandOutput {
        success,
        status: "exit status: 2".to_string(),
        stdout: stdout.to_string(),
        stderr: stderr.to_string(),
    }
}

#[test]
fn shell_plans_and_finishes() {
    let tool = ShellTool::new("/w");
    assert_eq!(tool.plan("{\"command\":\"ls -la\"}"), Ok("ls -la".to_string()));
    assert_eq!(tool.plan("{\"cmd\":\"ls\"}"), Err("Missing 'command' parameter".to_string()));
    let r = ShellTool::finish(Ok(output(true, "out", "err")));
    assert!(r.success);
    assert_eq!(r.output, "out");
    let r = ShellTool::finish(Ok(output(true, "", "err")));
    assert!(r.success);
    assert_eq!(r.output, "err");
    let r = ShellTool::finish(Ok(output(false, "out", "err")));
    assert!(!r.success);
    assert_eq!(r.error.as_deref(), Some("err"));
    assert_eq!(r.output, "");
    let r = ShellTool::finish(Ok(output(false, "out", "")));
    assert_eq!(r.error.as_deref(), Some("Command failed with status: exit status: 2"));
    let r = ShellTool::finish(Err("not found".to_string()));
    assert!(!r.success);
    assert_eq!(r.error.as_deref(), Some("Failed to execute command: not found"));
}

#[test]
fn memory_read_plans_and_finishes() {
    assert_eq!(DEFAULT_RECALL_LIMIT, 10);
    let MemoryQuery { query, limit } =
        MemoryReadTool::<()>::plan("{\"query\":\"rust\",\"limit\":3}").unwrap();
    assert_eq!((query.as_str(), limit), ("rust", 3));
    let q = MemoryReadTool::<()>::plan("{\"query\":\"rust\"}").unwrap();
    assert_eq!(q.limit, 10);
    let refused = MemoryReadTool::<()>::plan("{\"limit\":3}").unwrap_err();
    assert!(!refused.success);
    assert_eq!(refused.error.as_deref(), Some("Query parameter is required"));
    assert!(MemoryReadTool::<()>::plan("{\"query\":\"\"}").is_err());

    let none = MemoryReadTool::<()>::finish(Ok(vec![]));
    assert!(none.success);
    assert_eq!(none.output, "No memories found matching the query.");
    let some = MemoryReadTool::<()>::finish(Ok(vec![
        RecalledMemory { content: "likes rust".to_string(), score: Some("0.93".to_string()) },
        RecalledMemory { content: "has a cat".to_string(), score: None },
    ]));
    assert!(some.success);
    assert_eq!(some.output, "Found 2 memories:\n- likes rust (score: 0.93)\n- has a cat");
    let many: Vec<RecalledMemory> = (0..12)
        .map(|i| RecalledMemory { content: format!("m{}", i), score: None })
        .collect();
    assert!(MemoryReadTool::<()>::finish(Ok(many)).output.starts_with("Found 12 memories:\n- m0\n"));
    let failed = MemoryReadTool::<()>::finish(Err("io".to_string()));
    assert_eq!(failed.error.as_deref(), Some("Failed to read memory: io"));
}

#[test]
fn memory_write_plans_and_finishes() {
    let w = MemoryWriteTool::<()>::plan("{\"key\":\"k\",\"content\":\"c\"}").unwrap();
    assert_eq!((w.key.as_str(), w.content.as_str()), ("k", "c"));
    assert!(matches!(w.category, MemoryCategory::Core));
    let w = MemoryWriteTool::<()>::plan("{\"key\":\"k\",\"content\":\"c\",\"category\":\"daily\"}")
        .unwrap();
    assert!(matches!(w.category, MemoryCategory::Daily));
    let w = MemoryWriteTool::<()>::plan("{\"key\":\"k\",\"content\":\"c\",\"category\":\"work\"}")
        .unwrap();
    assert!(matches!(w.category, MemoryCategory::Custom(ref name) if name == "work"));
    assert_eq!(
        MemoryWriteTool::<()>::plan("{\"content\":\"c\"}").unwrap_err(),
        "Missing 'key' parameter"
    );
    assert_eq!(
        MemoryWriteTool::<()>::plan("{\"key\":\"k\"}").unwrap_err(),
        "Missing 'content' parameter"
    );
    let ok = MemoryWriteTool::<()>::finish("k", Ok(()));
    assert!(ok.success);
    assert_eq!(ok.output, "Stored memory with key: k");
    let failed = MemoryWriteTool::<()>::finish("k", Err("full".to_string()));
    assert_eq!(failed.error.as_deref(), Some("Failed to store memory: full"));
}

#[test]
fn category_labels() {
    assert_eq!(MemoryCategory::Core.label(), "core");
    assert_eq!(MemoryCategory::Daily.label(), "daily");
    assert_eq!(MemoryCategory::Custom("work".to_string()).label(), "work");
    assert!(matches!(MemoryCategory::from_label("core"), MemoryCategory::Core));
    assert!(matches!(MemoryCategory::from_label("Core"), MemoryCategory::Custom(_)));
}
