use tars::completion_ex::{completion_ex_from_args, fuzzy_match, join_segments, select_model, ChatCompletionEx, PROMPT_SEPARATOR};
use tars::models::enums::ReasoningEffort;
use tars::models::ToolChoice;

#[test]
fn extended_builder_collects_request_tools_and_context() {
    let ex = ChatCompletionEx::builder()
        .model("qwen".to_string())
        .system("sys".to_string())
        .prompt("hello".to_string())
        .max_tokens(100)
        .temperature(0.7f32.to_bits())
        .reasoning_effort(ReasoningEffort::Medium)
        .stream()
        .with_system_tool(2048)
        .tool_choice(ToolChoice::auto())
        .build(&vec!["## Terminal\n".to_string()]);
    let c = ex.completion();
    assert_eq!(c.model, "qwen");
    assert_eq!(c.messages.len(), 2);
    assert!(c.messages[0].is_system());
    assert!(c.messages[1].is_user());
    assert_eq!(c.max_completion_tokens, Some(100));
    assert_eq!(c.reasoning_effort.as_deref(), Some("medium"));
    assert_eq!(c.stream, Some(true));
    assert!(c.tools.is_empty());
    assert_eq!(ex.system_context(), "# Context\n## Terminal\n");
    let (_, manager, _, tools) = ex.into_parts();
    assert_eq!(tools.len(), 1);
    let tc = tars::models::ToolCall::Function { id: "i".to_string(), function: tars::models::FunctionToolCall { name: "execute_terminal_command".to_string(), arguments: "{}".to_string() } };
    assert!(matches!(manager.call(&tc), tars::tools::manager::ToolDispatch::Tool(0)));
}

fn bare_args() -> tars::cli::Args {
    tars::cli::Args {
        base_url: None,
        api_key: None,
        model: None,
        prompt: vec![],
        temperature: None,
        max_tokens: None,
        reasoning_effort: None,
        system: vec![],
        working_dir: None,
        interactive: false,
    }
}

fn text(m: &tars::models::MessageParam) -> String {
    match &m.content {
        tars::models::MessageContent::Text(t) => t.clone(),
        other => panic!("unexpected {other:?}"),
    }
}

#[test]
fn model_pattern_selects_exact_then_fuzzy() {
    let ids = vec!["gpt-4o-mini".to_string(), "GPT-4o".to_string(), "llama3".to_string()];
    assert_eq!(select_model("GPT-4o", &ids), Some(1));
    assert_eq!(select_model("gpt4o", &ids), Some(0));
    assert_eq!(select_model("LLA", &ids), Some(2));
    assert_eq!(select_model("mistral", &ids), None);
    assert_eq!(select_model("x", &vec![]), None);
    assert!(fuzzy_match("", "anything"));
    assert!(fuzzy_match("q25", "Qwen2.5"));
    assert!(!fuzzy_match("52", "Qwen2.5"));
}

#[test]
fn prompt_segments_are_concatenated() {
    assert_eq!(join_segments(&vec![], " "), "");
    assert_eq!(join_segments(&vec!["a".to_string()], " "), "a");
    assert_eq!(join_segments(&vec!["a".to_string(), "b c".to_string(), "d".to_string()], " "), "a b c d");
    assert_eq!(PROMPT_SEPARATOR, "");
    assert_eq!(join_segments(&vec!["Hello".to_string(), "world".to_string()], PROMPT_SEPARATOR), "Helloworld");
}

#[test]
fn arguments_become_one_request() {
    let mut a = bare_args();
    a.model = Some("mini".to_string());
    a.max_tokens = Some("+012".to_string());
    a.reasoning_effort = Some(ReasoningEffort::High);
    let ids = vec!["gpt-4o".to_string(), "gpt-4o-mini".to_string()];
    let ex = completion_ex_from_args(
        &a,
        &ids,
        Some(0.5f32.to_bits()),
        vec!["s1".to_string(), "s2".to_string()],
        vec!["hello".to_string(), "world".to_string()],
        &vec!["ctx\n".to_string()],
        16,
    );
    let c = ex.completion();
    assert_eq!(c.model, "gpt-4o-mini");
    assert_eq!(c.messages.len(), 3);
    assert!(c.messages[0].is_system());
    assert_eq!(text(&c.messages[0]), "s1");
    assert_eq!(text(&c.messages[1]), "s2");
    assert!(c.messages[2].is_user());
    assert_eq!(text(&c.messages[2]), "helloworld");
    assert_eq!(c.max_completion_tokens, Some(12));
    assert_eq!(c.temperature, Some(0.5f32.to_bits()));
    assert_eq!(c.reasoning_effort.as_deref(), Some("high"));
    assert_eq!(c.stream, Some(true));
    assert_eq!(ex.system_context(), "# Context\nctx\n");
    let (_, _, _, tools) = ex.into_parts();
    assert_eq!(tools.len(), 1);
}

#[test]
fn arguments_without_prompt_or_match() {
    let mut a = bare_args();
    a.model = Some("zzz".to_string());
    a.max_tokens = Some("lots".to_string());
    let ex = completion_ex_from_args(&a, &vec!["gpt".to_string()], None, vec![], vec![], &vec![], 8);
    let c = ex.completion();
    assert_eq!(c.model, "");
    assert!(c.messages.is_empty());
    assert_eq!(c.max_completion_tokens, None);
    assert_eq!(c.temperature, None);
    assert_eq!(c.reasoning_effort, None);
}
