use tars::openai::models::{
    ChatCompletion as PartsCompletion, ChatCompletionContentPart, ChatCompletionMessage as PartsMessage,
    ChatCompletionMessageContent, ChatCompletionMessageParam as PartsParam, ChatCompletionMessageToolCall,
    ChatCompletionToolChoice as PartsChoice, FunctionToolCall, ToolChoiceMode,
};
use tars::openai::{ChatCompletionMessageParam, ChatCompletionMessage, ChatCompletionRequest, OpenaiClient};
use tars::openai::client::OpenaiClient as PartsClient;
use tars::llamacpp_server::LlamaCppClient;
use tars::llama_server::{ClientBuilder as LlamaServerBuilder, LlamaServerClient};

#[test]
fn text_messages_of_the_first_form() {
    let m = ChatCompletionMessageParam::system("be brief".to_string());
    assert_eq!(m.role, "system");
    assert_eq!(m.content, "be brief");
    assert!(m.is_system() && !m.is_user());
    assert!(ChatCompletionMessageParam::tool("t".to_string()).is_tool());
    assert!(ChatCompletionMessageParam::developer("d".to_string()).is_developer());
    assert!(ChatCompletionMessageParam::assistant("a".to_string()).is_assistant());
    assert!(ChatCompletionMessageParam::user("u".to_string()).is_user());
    let msg = ChatCompletionMessage { role: "assistant".to_string(), content: None, refusal: None, annotations: None, tool_calls: Some(vec![]) };
    assert!(!msg.has_tool_calls());
}

#[test]
fn request_builder_keeps_every_setting() {
    let r = ChatCompletionRequest::builder()
        .model("gpt-4o".to_string())
        .message(ChatCompletionMessageParam::user("hi".to_string()))
        .n(2)
        .frequency_penalty(0.25f32.to_bits())
        .stream()
        .build();
    assert_eq!(r.model, "gpt-4o");
    assert_eq!(r.messages.len(), 1);
    assert_eq!(r.n, Some(2));
    assert_eq!(r.frequency_penalty.map(f32::from_bits), Some(0.25));
    assert_eq!(r.stream, Some(true));
    let d = ChatCompletionRequest::new("m".to_string(), Vec::new());
    assert!(d.tools.is_empty() && d.temperature.is_none());
}

#[test]
fn openai_clients_build_their_requests() {
    let c = OpenaiClient::builder().base_url("https://api.example/v1".to_string()).api_key("k".to_string()).build();
    assert_eq!(c.chat_completions_url(), "https://api.example/v1/chat/completions");
    assert_eq!(c.authorization(), Some("Bearer k".to_string()));
    assert_eq!(OpenaiClient::api_error("nope"), "OpenAI API error: nope");
    let p = PartsClient::new("http://h".to_string(), None);
    assert_eq!(p.models_url(), "http://h/models");
    assert_eq!(p.authorization(), None);
    let l = LlamaCppClient::new("http://l".to_string());
    assert_eq!(l.model_load_url(), "http://l/models/load");
    assert_eq!(l.model_unload_url(), "http://l/models/unload");
    assert_eq!(LlamaCppClient::model_body("qwen \"q8\""), "{\"model\":\"qwen \\\"q8\\\"\"}");
    let s = LlamaServerBuilder::new("http://s".to_string()).api_key("z".to_string()).build();
    assert_eq!(s.base_url, "http://s");
    assert_eq!(LlamaServerClient::new("http://t".to_string()).base_url, "http://t");
}

#[test]
fn content_parts_of_the_parts_form() {
    let f = ChatCompletionContentPart::file(Some("ZGF0YQ==".to_string()), None, Some("a.txt".to_string()));
    assert_eq!(f.type_, "file");
    let fd = f.file.as_ref().unwrap();
    assert_eq!(fd.file_data.as_deref(), Some("ZGF0YQ=="));
    assert_eq!(fd.file_id, None);
    assert_eq!(fd.filename.as_deref(), Some("a.txt"));
    let a = ChatCompletionContentPart::input_audio("AAA".to_string(), "wav".to_string());
    assert_eq!(a.type_, "input_audio");
    let m = PartsParam::new_with_parts("user".to_string()).push_part(ChatCompletionContentPart::text("x".to_string())).push_part(a);
    match &m.content {
        ChatCompletionMessageContent::Parts(p) => assert_eq!(p.len(), 2),
        _ => panic!("expected parts"),
    }
    let t = PartsParam::tool("out".to_string(), "call".to_string());
    assert!(t.is_tool());
    assert_eq!(t.tool_call_id.as_deref(), Some("call"));
    assert!(matches!(PartsChoice::none(), PartsChoice::Mode(ToolChoiceMode::NoTools)));
}

#[test]
fn parts_form_requests_and_answers() {
    let c = PartsCompletion::builder().model("m".to_string()).tool_choice(PartsChoice::required()).build();
    assert!(matches!(c.tool_choice, Some(PartsChoice::Mode(ToolChoiceMode::Required))));
    let msg = PartsMessage {
        role: "assistant".to_string(),
        content: Some("hi".to_string()),
        refusal: None,
        annotations: None,
        audio: None,
        tool_calls: Some(vec![ChatCompletionMessageToolCall::Function { id: "1".to_string(), function: FunctionToolCall { name: "f".to_string(), arguments: String::new() } }]),
    };
    assert_eq!(msg.content_or_default(), "hi");
    assert!(msg.has_tool_calls());
    let tc = &msg.tool_calls.as_ref().unwrap()[0];
    assert_eq!((tc.id(), tc.name()), ("1", "f"));
}
