use tars::models::{ChatCompletion, FunctionToolCall, CustomToolCall, MessageContent, ToolCall};
use tars::tools::fs::FileSystemTool;
use tars::tools::manager::{ToolCallError, ToolDispatch, ToolManager};
use tars::tools::output::{chunk_output, take_next_chunk};
use tars::tools::system::{
    error_object, ExecuteTerminalCommandArgs, SystemFacts, SystemTool, SystemToolError,
    WriteFileContentArgs,
};
use tars::tools::terminal::{ExecuteTerminalCommandsArgs, TerminalFunction, TerminalTool};
use std::path::PathBuf;
use tars::tools::system::{EXECUTE_TERMINAL_COMMAND_PARAMETERS, WRITE_FILE_CONTENT_DESCRIPTION};

fn call(name: &str) -> ToolCall {
    ToolCall::Function { id: "id7".to_string(), function: FunctionToolCall { name: name.to_string(), arguments: "{}".to_string() } }
}

#[test]
fn output_is_cut_into_chunks_that_reassemble() {
    let chunks = chunk_output("abcdefg", 3);
    assert_eq!(Vec::from(chunks.clone()), vec!["abc".to_string(), "def".to_string(), "g".to_string()]);
    assert_eq!(chunks.iter().map(|c| c.as_str()).collect::<String>(), "abcdefg");
    assert!(chunk_output("", 4).is_empty());
    assert_eq!(chunk_output("ééé", 2).len(), 2);
}

#[test]
fn pages_are_answered_in_order() {
    let mut q = chunk_output("hello world", 6);
    assert_eq!(take_next_chunk(&mut q), "{\"more_output_available\":true,\"output\":\"hello \"}");
    assert_eq!(take_next_chunk(&mut q), "world");
    assert_eq!(take_next_chunk(&mut q), "");
}

#[test]
fn system_tool_pages_command_output() {
    let mut t = SystemTool::new(4);
    let first = t.finish_execute(false, Ok(vec!["ab".to_string(), "cdef".to_string()]));
    assert_eq!(first, "{\"more_output_available\":true,\"output\":\"abcd\"}");
    assert_eq!(t.next_output_chunk(), "ef");
    assert_eq!(t.next_output_chunk(), "");
    let silent = t.finish_execute(true, Ok(vec!["xyz".to_string()]));
    assert_eq!(silent, "");
    assert_eq!(t.next_output_chunk(), "xyz");
    let failed = t.finish_execute(false, Err("timeout".to_string()));
    assert_eq!(failed, "{\"error\":\"Command execution failed: timeout\"}");
}

#[test]
fn system_tool_checks_arguments() {
    let ok = SystemTool::plan_execute(Ok(ExecuteTerminalCommandArgs { command: Some("ls".to_string()), commands: None, silent: true })).unwrap();
    assert_eq!(ok, (vec!["ls".to_string()], true));
    let missing = SystemTool::plan_execute(Ok(ExecuteTerminalCommandArgs { command: None, commands: None, silent: false })).unwrap_err();
    assert_eq!(missing, "{\"error\":\"Invalid tool arguments: missing required field `command`\"}");
    let bad = SystemTool::plan_execute(Err("expected value at line 1".to_string())).unwrap_err();
    assert_eq!(bad, "{\"error\":\"Invalid tool arguments: expected value at line 1\"}");
    let w = SystemTool::plan_write(Ok(WriteFileContentArgs { path: String::new(), file_path: "a.txt".to_string(), content: "c".to_string(), append: true })).unwrap();
    assert_eq!((w.path.as_str(), w.content.as_str(), w.append), ("a.txt", "c", true));
    let nopath = SystemTool::plan_write(Ok(WriteFileContentArgs { path: String::new(), file_path: String::new(), content: String::new(), append: false })).unwrap_err();
    assert_eq!(nopath, "{\"error\":\"Invalid tool arguments: missing required field `path`\"}");
    assert_eq!(SystemTool::finish_write(Ok(())), "");
    let e = SystemToolError::FileWriteFailed { path: "/x".to_string(), source: "denied".to_string() };
    assert_eq!(SystemTool::finish_write(Err(e)), "{\"error\":\"Failed to write '/x': denied\"}");
}

#[test]
fn error_objects_escape_their_message() {
    assert_eq!(error_object("say \"hi\"\n"), "{\"error\":\"say \\\"hi\\\"\\n\"}");
}

#[test]
fn system_context_lists_terminal_and_machine() {
    let t = SystemTool::new(10);
    let facts = SystemFacts { host: Some("box".to_string()), os: None, kernel: Some("6.1".to_string()), arch: "x86_64".to_string() };
    let mut w = String::from("# Context\n");
    t.write_context(&mut w, "/home/u", "bash", &facts);
    assert_eq!(w, "# Context\n## Terminal\n- CWD: /home/u\n- Shell: bash\n## System\n- Host: box\n- OS: -\n- Kernel: 6.1\n- Arch: x86_64\n");
}

#[test]
fn manager_routes_calls_to_the_first_declaring_tool() {
    let mut m = ToolManager::new();
    let sys = SystemTool::new(8);
    m.add(sys.name().to_string(), &sys.functions());
    let fs_defs = vec![tars::models::FunctionDefinition::new("write_file_content".to_string())];
    m.add("FileSystem".to_string(), &fs_defs);
    assert!(matches!(m.call(&call("write_file_content")), ToolDispatch::Tool(0)));
    assert!(matches!(m.call(&call("continue_terminal_output")), ToolDispatch::Tool(0)));
    match m.call(&call("nope")) {
        ToolDispatch::Missing(p) => {
            assert!(p.is_tool());
            assert_eq!(p.tool_call_id.as_deref(), Some("id7"));
            match p.content {
                MessageContent::Text(t) => assert_eq!(t, "{\"error\":\"Tool 'nope' does not exist.\"}"),
                other => panic!("unexpected {other:?}"),
            }
        }
        _ => panic!("expected a missing tool"),
    }
    let custom = ToolCall::Custom { id: "c".to_string(), custom: CustomToolCall { name: "x".to_string(), input: String::new() } };
    assert!(matches!(m.call(&custom), ToolDispatch::AskEach));
    assert_eq!(ToolCallError::tool_does_not_exist("t").as_content(), "{\"error\":\"Tool 't' does not exist.\"}");
    let mut ctx = String::new();
    m.write_context(&mut ctx, &vec!["A\n".to_string(), "B\n".to_string()]);
    assert_eq!(ctx, "# Context\nA\nB\n");
}

#[test]
fn declined_calls_go_on_to_the_next_declaring_tool() {
    let mut m = ToolManager::new();
    let sys = SystemTool::new(8);
    m.add(sys.name().to_string(), &sys.functions());
    let fs_defs = vec![tars::models::FunctionDefinition::new("write_file_content".to_string())];
    m.add("FileSystem".to_string(), &fs_defs);
    assert!(matches!(m.call_from(&call("write_file_content"), 0), ToolDispatch::Tool(0)));
    assert!(matches!(m.call_from(&call("write_file_content"), 1), ToolDispatch::Tool(1)));
    assert!(matches!(m.call_from(&call("write_file_content"), 2), ToolDispatch::Missing(_)));
    assert!(matches!(m.call_from(&call("continue_terminal_output"), 1), ToolDispatch::Missing(_)));
}

#[test]
fn terminal_tool_knows_its_advertised_names() {
    assert!(matches!(TerminalTool::function_kind("continue_terminal_output"), Some(TerminalFunction::ContinueOutput)));
    assert!(matches!(TerminalTool::function_kind("execute_terminal_command"), Some(TerminalFunction::ExecuteTerminalCommand)));
    assert!(TerminalTool::function_kind("continue_output").is_none());
}

#[test]
fn written_paths_are_resolved() {
    let home = Some(PathBuf::from("/h"));
    let cwd = Some(PathBuf::from("/w"));
    assert_eq!(SystemTool::resolve_home("~/x/y.txt", home.clone()), Some(PathBuf::from("/h/x/y.txt")));
    assert_eq!(SystemTool::resolve_home("~/x", None), None);
    assert_eq!(SystemTool::resolve_home("a.txt", home.clone()), None);
    assert_eq!(SystemTool::resolve_path("~/x", home.clone(), cwd.clone()), PathBuf::from("/h/x"));
    assert_eq!(SystemTool::resolve_path("a.txt", home.clone(), cwd.clone()), PathBuf::from("/w/a.txt"));
    assert_eq!(SystemTool::resolve_path("/abs/b", home.clone(), cwd.clone()), PathBuf::from("/abs/b"));
    assert_eq!(SystemTool::resolve_path("a.txt", home.clone(), None), PathBuf::from("/h/a.txt"));
    assert_eq!(SystemTool::resolve_path("~/a.txt", None, cwd.clone()), PathBuf::from("/w/~/a.txt"));
    assert_eq!(SystemTool::resolve_path("a.txt", None, None), PathBuf::from("a.txt"));
}

#[test]
fn terminal_tool_answers() {
    let mut t = TerminalTool::new(3);
    assert_eq!(t.name(), "Terminal");
    let plan = TerminalTool::plan_execute(Ok(ExecuteTerminalCommandsArgs { commands: Some(vec!["a".to_string(), "b".to_string()]), command: None, silent: false })).unwrap();
    assert_eq!(plan, (vec!["a".to_string(), "b".to_string()], false));
    let r = t.finish_execute(false, Ok(vec!["12345".to_string()]));
    assert_eq!(r, "{\"more_output_available\":true,\"output\":\"123\"}");
    assert_eq!(t.next_output_chunk(), "45");
    let err = t.finish_execute(false, Err("boom".to_string()));
    assert_eq!(err, "{\"error\":\"CommandExecution: boom\"}");
    let reg = t.register(ChatCompletion::builder()).build();
    assert_eq!(reg.tools.len(), 2);
}

#[test]
fn file_system_tool_answers() {
    assert!(FileSystemTool::answers("write_file_content"));
    assert!(!FileSystemTool::answers("read"));
    assert_eq!(FileSystemTool::answer(Ok(Ok(()))), "");
    assert_eq!(FileSystemTool::answer(Ok(Err("disk full".to_string()))), "{\"error\":\"FileWriteFailed: disk full\"}");
    assert_eq!(FileSystemTool::answer(Err("bad json".to_string())), "{\"error\":\"InvalidArguments: bad json\"}");
    let b = FileSystemTool::new().register(ChatCompletion::builder()).build();
    assert_eq!(b.tools.len(), 1);
}

#[test]
fn system_tool_offers_its_schemas_as_json_objects() {
    let defs = SystemTool::new(1).functions();
    assert_eq!(defs.len(), 3);
    assert_eq!(defs[0].name, "execute_terminal_command");
    let schema = defs[0].parameters.clone().unwrap();
    assert!(schema.is_object());
    assert_eq!(schema["type"], "object");
    assert_eq!(schema["properties"]["command"]["type"], "string");
    assert_eq!(defs[0].parameters, serde_json::from_str::<serde_json::Value>(EXECUTE_TERMINAL_COMMAND_PARAMETERS).ok());
    assert!(defs.iter().all(|d| d.parameters.as_ref().map_or(false, |p| p.is_object())));
    assert_eq!(defs[2].description.as_deref(), Some(WRITE_FILE_CONTENT_DESCRIPTION));
    assert!(defs.iter().all(|d| d.strict == Some(true)));
}

#[test]
fn machine_facts_name_an_architecture() {
    assert!(!SystemFacts::collect().arch.is_empty());
}
