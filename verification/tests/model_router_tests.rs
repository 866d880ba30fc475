use code_mars::model_router::{LLMProvider, LiteLLMRouter, ModelStream};

#[test]
fn test_model_stream_creation() {
    let stream = ModelStream::new("Hello, world!".to_string());
    assert_eq!(stream.content, "Hello, world!");
    assert_eq!(stream.position, 0);
}

#[test]
fn test_litellm_router_creation() {
    let router = LiteLLMRouter::new(
        "openai".to_string(),
        "gpt-4o".to_string(),
        "test-key".to_string(),
    );

    assert_eq!(router.provider_name(), "openai");
    assert_eq!(router.model_name(), "gpt-4o");
}

#[test]
fn test_model_stream_yields_whole_content_once() {
    let mut stream = ModelStream::new("chunk".to_string());
    assert_eq!(stream.next_chunk(), Some("chunk".to_string()));
    assert_eq!(stream.next_chunk(), None);
}

#[test]
fn test_model_stream_empty_is_exhausted() {
    let mut stream = ModelStream::new(String::new());
    assert_eq!(stream.next_chunk(), None);
}

#[test]
fn test_litellm_router_complete_format() {
    let router = LiteLLMRouter::new(
        "openai".to_string(),
        "gpt-4o".to_string(),
        "test-key".to_string(),
    );
    let with_system = router.complete("What is 2+2?", Some("be brief")).unwrap();
    assert_eq!(
        with_system,
        "[SYSTEM: be brief] [Response from openai/gpt-4o] What is 2+2?"
    );
    let without_system = router.complete("hi", None).unwrap();
    assert_eq!(without_system, "[Response from openai/gpt-4o] hi");
}

#[test]
fn test_litellm_router_stream_carries_completion() {
    let router = LiteLLMRouter::new(
        "p".to_string(),
        "m".to_string(),
        "k".to_string(),
    );
    let mut stream = router.stream("q", None).unwrap();
    assert_eq!(stream.next_chunk(), Some("[Response from p/m] q".to_string()));
}
