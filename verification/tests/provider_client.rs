use tars::models::ChatCompletion;
use tars::provider::{EventLines, ProviderClient};

#[test]
fn provider_client_builds_urls_and_header() {
    let c = ProviderClient::builder()
        .base_url("http://localhost:8080/v1".to_string())
        .api_key("sk-test".to_string())
        .build();
    assert_eq!(c.base_url, "http://localhost:8080/v1");
    assert_eq!(c.models_url(), "http://localhost:8080/v1/models");
    assert_eq!(c.chat_completions_url(), "http://localhost:8080/v1/chat/completions");
    assert_eq!(c.authorization(), Some("Bearer sk-test".to_string()));
    let anon = ProviderClient::builder().base_url("http://h".to_string()).build();
    assert_eq!(anon.authorization(), None);
    assert_eq!(ProviderClient::api_error("bad key"), "provider API error: bad key");
}

#[test]
fn streaming_follows_the_request() {
    let mut c = ChatCompletion::new("m".to_string(), Vec::new());
    assert!(!ProviderClient::streams(&c));
    c.stream = Some(false);
    assert!(!ProviderClient::streams(&c));
    c.stream = Some(true);
    assert!(ProviderClient::streams(&c));
}

#[test]
fn event_lines_give_trimmed_data_payloads() {
    let mut ev = EventLines::new();
    let got = ev.push_bytes(b"data: {\"a\":1}\n\n: keep-alive\ndata:x \nevent: y\ndata: [DONE]\n");
    assert_eq!(got, vec!["{\"a\":1}".to_string(), "x".to_string(), "[DONE]".to_string()]);
}

#[test]
fn event_lines_join_payloads_split_across_chunks() {
    let mut ev = EventLines::new();
    assert!(ev.push_bytes(b"da").is_empty());
    assert!(ev.push_bytes(b"ta:  {\"b\"").is_empty());
    assert_eq!(ev.push_bytes(b":2}\r\nda"), vec!["{\"b\":2}".to_string()]);
    assert_eq!(ev.push_bytes(b"ta: z\n"), vec!["z".to_string()]);
}
