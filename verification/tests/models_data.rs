use tars::models::enums::{AudioFormat, ContentPart as PartKind, FinishReason, ImageDetail, ReasoningEffort, Role, ToolCallType};
use tars::models::{
    ChatCompletion, ChatCompletionMessage, ContentPart, FileData, MessageContent, MessageParam,
    ToolCall, FunctionToolCall, CustomToolCall, ToolChoice, ToolChoiceMode, FunctionDefinition,
};

#[test]
fn enum_names_round_trip() {
    for r in [Role::Developer, Role::System, Role::User, Role::Assistant, Role::Tool, Role::Function] {
        assert_eq!(Role::try_from_str(r.as_str()), Ok(r));
    }
    for e in [ReasoningEffort::NoEffort, ReasoningEffort::Minimal, ReasoningEffort::Low, ReasoningEffort::Medium, ReasoningEffort::High, ReasoningEffort::XHigh] {
        assert_eq!(ReasoningEffort::try_from_str(e.as_str()), Ok(e));
    }
    for f in [FinishReason::Stop, FinishReason::Length, FinishReason::ToolCalls, FinishReason::ContentFilter, FinishReason::FunctionCall] {
        assert_eq!(FinishReason::try_from_str(f.as_str()), Ok(f));
    }
    assert_eq!(ReasoningEffort::NoEffort.as_str(), "none");
    assert_eq!(PartKind::Audio.as_str(), "input_audio");
    assert_eq!(AudioFormat::try_from_str("wav"), Ok(AudioFormat::Wav));
    assert_eq!(ImageDetail::try_from_str("auto"), Ok(ImageDetail::Auto));
    assert_eq!(ToolCallType::try_from_str("custom"), Ok(ToolCallType::Custom));
}

#[test]
fn unknown_enum_names_are_refused_with_the_text_quoted() {
    assert_eq!(Role::try_from_str("robot"), Err("unknown role: \"robot\"".to_string()));
    assert_eq!(ReasoningEffort::try_from_str("Max"), Err("unknown reasoning effort: \"Max\"".to_string()));
    assert!(FinishReason::try_from_str("").is_err());
}

#[test]
fn message_constructors_set_role_and_text() {
    let m = MessageParam::user("hi".to_string());
    assert_eq!(m.role, "user");
    assert!(m.is_user() && !m.is_system());
    assert_eq!(m.content.as_text(), Some("hi"));
    let t = MessageParam::tool("out".to_string(), "call_1".to_string());
    assert!(t.is_tool());
    assert_eq!(t.tool_call_id.as_deref(), Some("call_1"));
    assert!(MessageParam::developer("d".to_string()).is_developer());
    assert!(MessageParam::assistant("a".to_string()).is_assistant());
}

#[test]
fn parts_are_pushed_only_onto_multi_part_messages() {
    let m = MessageParam::new_with_parts("user".to_string())
        .push_part(ContentPart::text("one".to_string()))
        .with_image("http://img".to_string(), Some("low".to_string()))
        .with_file(FileData::from_id("f1".to_string()));
    let parts = m.content.as_parts().expect("parts");
    assert_eq!(parts.len(), 3);
    assert_eq!(parts[0].type_, "text");
    assert_eq!(parts[1].type_, "image_url");
    assert_eq!(parts[1].image_url.as_ref().unwrap().detail.as_deref(), Some("low"));
    assert_eq!(parts[2].file.as_ref().unwrap().file_id.as_deref(), Some("f1"));
    let text = MessageParam::user("plain".to_string()).push_part(ContentPart::text("x".to_string()));
    assert_eq!(text.content.as_text(), Some("plain"));
    assert!(MessageContent::default().is_none());
}

#[test]
fn tool_call_id_and_name() {
    let f = ToolCall::Function { id: "c1".to_string(), function: FunctionToolCall { name: "ls".to_string(), arguments: "{}".to_string() } };
    assert_eq!(f.id(), "c1");
    assert_eq!(f.name(), "ls");
    let c = ToolCall::Custom { id: "c2".to_string(), custom: CustomToolCall { name: "grep".to_string(), input: "x".to_string() } };
    assert_eq!(c.id(), "c2");
    assert_eq!(c.name(), "grep");
}

#[test]
fn response_message_helpers() {
    let mut m = ChatCompletionMessage {
        role: "assistant".to_string(),
        content: None,
        reasoning_content: None,
        refusal: None,
        annotations: None,
        audio: None,
        tool_calls: Some(Vec::new()),
    };
    assert_eq!(m.content_or_default(), "");
    assert!(!m.has_tool_calls());
    m.content = Some("answer".to_string());
    m.tool_calls = Some(vec![ToolCall::Function { id: "i".to_string(), function: FunctionToolCall { name: "n".to_string(), arguments: String::new() } }]);
    assert_eq!(m.content_or_default(), "answer");
    assert!(m.has_tool_calls());
}

#[test]
fn request_builder_sets_fields() {
    let c = ChatCompletion::builder()
        .model("gpt".to_string())
        .message(MessageParam::system("s".to_string()))
        .stream()
        .max_completion_tokens(64)
        .temperature(0.5f32.to_bits())
        .reasoning_effort("low".to_string())
        .tool_choice(ToolChoice::auto())
        .build();
    assert_eq!(c.model, "gpt");
    assert_eq!(c.messages.len(), 1);
    assert_eq!(c.stream, Some(true));
    assert_eq!(c.max_completion_tokens, Some(64));
    assert_eq!(c.temperature.map(f32::from_bits), Some(0.5));
    assert_eq!(c.reasoning_effort.as_deref(), Some("low"));
    assert!(matches!(c.tool_choice, Some(ToolChoice::Mode(ToolChoiceMode::Auto))));
    let d = ChatCompletion::new("m".to_string(), Vec::new());
    assert!(d.stream.is_none() && d.tools.is_empty());
    let f = FunctionDefinition::new("f".to_string()).strict();
    assert_eq!(f.strict, Some(true));
}
