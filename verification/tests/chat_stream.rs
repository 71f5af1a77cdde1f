use tars::chat::{Chat, MessageBuffer};
use tars::models::{
    ChatCompletion, ChatCompletionChunkChoice, ChatCompletionChunkChoiceDelta, ChatCompletionMessage,
    DeltaFunctionToolCall, DeltaToolCall, MessageParam, ToolCall, FunctionToolCall,
};

fn delta(role: Option<&str>, content: Option<&str>) -> ChatCompletionChunkChoiceDelta {
    ChatCompletionChunkChoiceDelta {
        role: role.map(String::from),
        content: content.map(String::from),
        refusal: None,
        reasoning_content: None,
        tool_calls: None,
    }
}

fn choice(d: ChatCompletionChunkChoiceDelta, finish: Option<&str>) -> ChatCompletionChunkChoice {
    ChatCompletionChunkChoice { index: 0, delta: d, finish_reason: finish.map(String::from) }
}

fn tool_delta(id: Option<&str>, name: Option<&str>, args: Option<&str>) -> ChatCompletionChunkChoiceDelta {
    let mut d = delta(None, None);
    d.tool_calls = Some(vec![DeltaToolCall {
        index: 0,
        id: id.map(String::from),
        type_: None,
        function: Some(DeltaFunctionToolCall { name: name.map(String::from), arguments: args.map(String::from) }),
    }]);
    d
}

#[test]
fn streamed_content_is_reassembled_into_one_message() {
    let mut chat = Chat::new(ChatCompletion::new("m".to_string(), vec![MessageParam::user("q".to_string())]));
    assert!(chat.on_chunk_choice(choice(delta(Some("assistant"), Some("Hel")), None)).is_none());
    assert!(chat.on_chunk_choice(choice(delta(Some(""), Some("lo")), None)).is_none());
    assert!(chat.on_chunk_choice(choice(delta(None, Some(", world")), None)).is_none());
    assert!(chat.on_chunk_choice(choice(delta(None, None), Some("stop"))).is_none());
    let msgs = &chat.completion().messages;
    assert_eq!(msgs.len(), 2);
    assert_eq!(msgs[1].role, "assistant");
    assert_eq!(msgs[1].content.as_text(), Some("Hello, world"));
}

#[test]
fn streamed_tool_call_is_returned_and_recorded() {
    let mut chat = Chat::new(ChatCompletion::new("m".to_string(), Vec::new()));
    chat.on_chunk_choice(choice(delta(Some("assistant"), None), None));
    chat.on_chunk_choice(choice(tool_delta(Some("call_1"), Some("execute_terminal_command"), Some("{\"comm")), None));
    chat.on_chunk_choice(choice(tool_delta(None, None, Some("and\":\"ls\"}")), None));
    let tc = chat.on_chunk_choice(choice(delta(None, None), Some("tool_calls"))).expect("a tool call");
    match &tc {
        ToolCall::Function { id, function } => {
            assert_eq!(id, "call_1");
            assert_eq!(function.name, "execute_terminal_command");
            assert_eq!(function.arguments, "{\"command\":\"ls\"}");
        }
        other => panic!("unexpected {other:?}"),
    }
    let msgs = &chat.completion().messages;
    assert_eq!(msgs.len(), 1);
    assert_eq!(msgs[0].content.as_text(), Some(""));
    assert_eq!(msgs[0].tool_calls.as_ref().map(|v| v.len()), Some(1));
}

#[test]
fn accepting_messages_appends_the_batch() {
    let mut chat = Chat::new(ChatCompletion::new("m".to_string(), Vec::new()));
    assert!(!chat.accept_messages(Vec::new()));
    assert!(chat.completion().messages.is_empty());
    assert!(chat.accept_messages(vec![MessageParam::user("a".to_string()), MessageParam::tool("b".to_string(), "c".to_string())]));
    assert_eq!(chat.completion().messages.len(), 2);
    assert!(chat.completion().messages[1].is_tool());
}

#[test]
fn complete_responses_are_recorded_with_their_tool_calls() {
    let mut chat = Chat::new(ChatCompletion::new("m".to_string(), Vec::new()));
    let m = ChatCompletionMessage {
        role: "assistant".to_string(),
        content: None,
        reasoning_content: None,
        refusal: None,
        annotations: None,
        audio: None,
        tool_calls: Some(vec![ToolCall::Function { id: "x".to_string(), function: FunctionToolCall { name: "f".to_string(), arguments: "{}".to_string() } }]),
    };
    let calls = chat.on_response_message(m).expect("calls");
    assert_eq!(calls.len(), 1);
    let plain = ChatCompletionMessage {
        role: "assistant".to_string(),
        content: Some("done".to_string()),
        reasoning_content: None,
        refusal: None,
        annotations: None,
        audio: None,
        tool_calls: None,
    };
    assert!(chat.on_response_message(plain).is_none());
    let msgs = &chat.completion().messages;
    assert_eq!(msgs.len(), 2);
    assert!(msgs[0].tool_calls.is_some());
    assert_eq!(msgs[1].content.as_text(), Some("done"));
}

#[test]
fn message_buffer_needs_a_role() {
    let mut b = MessageBuffer::new();
    b.push_content("x".to_string());
    assert!(b.take_message_param().is_none());
    assert_eq!(b.content.as_deref(), Some("x"));
    b.role = Some("assistant".to_string());
    b.push_content("y".to_string());
    let p = b.take_message_param().expect("message");
    assert_eq!(p.content.as_text(), Some("xy"));
    assert!(b.role.is_none() && b.content.is_none());
}
