//! Tests of the five endpoint operations: the request each one builds.

use ollama_client::HttpMethod;
use ollama_client::body::ChatRequest;
use ollama_client::body::EmbRequest;
use ollama_client::body::Message;
use ollama_client::body::PullRequest;
use ollama_client::body::PushRequest;
use ollama_client::client::chat_completion;
use ollama_client::client::gen_embeddings;
use ollama_client::client::list_models;
use ollama_client::client::pull_model;
use ollama_client::client::push_models;

#[test]
fn chat_test() {
    let _ = chat_completion("model_name", "Hello!", "user");
}

#[test]
fn pull_test() {
    // Example: Model Pull
    let _ = pull_model("model_name", false);
}

#[test]
fn gen_embed_test() {
    // Example: Generate Embeddings
    let _ = gen_embeddings("model_name", "Generate embeddings from this prompt");
}

#[test]
fn listing() {
    // Example: List Models
    let _ = list_models();
}

#[test]
fn pushing() {
    // Example: Push Models
    let _ = push_models("model_name", true);
}

#[test]
fn chat_request_matches_example() {
    let r = chat_completion("model_name", "Hello!", "user");
    assert_eq!(r.method, HttpMethod::Post);
    assert_eq!(r.url, "http://localhost:11434/api/chat");
    assert_eq!(
        r.body.unwrap(),
        "{\"model\":\"model_name\",\"messages\":[{\"role\":\"user\",\"content\":\"Hello!\"}],\"stream\":false}"
    );
}

#[test]
fn pull_request_matches_example() {
    let r = pull_model("model_name", false);
    assert_eq!(r.method, HttpMethod::Post);
    assert_eq!(r.url, "http://localhost:11434/api/pull");
    assert_eq!(r.body.unwrap(), "{\"name\":\"model_name\",\"stream\":false}");
}

#[test]
fn push_request_forwards_stream_flag() {
    let r = push_models("model_name", true);
    assert_eq!(r.method, HttpMethod::Post);
    assert_eq!(r.url, "http://localhost:11434/api/push");
    assert_eq!(r.body.unwrap(), "{\"name\":\"model_name\",\"stream\":true}");
}

#[test]
fn embeddings_request_has_exactly_two_fields() {
    let r = gen_embeddings("model_name", "a prompt");
    assert_eq!(r.method, HttpMethod::Post);
    assert_eq!(r.url, "http://localhost:11434/api/embeddings");
    assert_eq!(r.body.unwrap(), "{\"model\":\"model_name\",\"prompt\":\"a prompt\"}");
}

#[test]
fn listing_request_has_no_body() {
    let r = list_models();
    assert_eq!(r.method, HttpMethod::Get);
    assert_eq!(r.url, "http://localhost:11434/api/tags");
    assert!(r.body.is_none());
}

#[test]
fn empty_strings_are_encoded() {
    let r = pull_model("", false);
    assert_eq!(r.body.unwrap(), "{\"name\":\"\",\"stream\":false}");
    let r = gen_embeddings("", "");
    assert_eq!(r.body.unwrap(), "{\"model\":\"\",\"prompt\":\"\"}");
}

#[test]
fn special_characters_are_escaped() {
    let r = gen_embeddings("m", "a\"b\\c\nd\re\tf");
    assert_eq!(
        r.body.unwrap(),
        "{\"model\":\"m\",\"prompt\":\"a\\\"b\\\\c\\nd\\re\\tf\"}"
    );
    let r = gen_embeddings("m", "\u{8}\u{c}\u{1}\u{1f}");
    assert_eq!(
        r.body.unwrap(),
        "{\"model\":\"m\",\"prompt\":\"\\b\\f\\u0001\\u001f\"}"
    );
}

#[test]
fn multi_message_chat_body_keeps_order() {
    let req = ChatRequest {
        model: String::from("m"),
        messages: vec![
            Message { role: String::from("system"), content: String::from("be terse") },
            Message { role: String::from("user"), content: String::from("hi") },
        ],
        stream: true,
    };
    assert_eq!(
        req.to_json(),
        "{\"model\":\"m\",\"messages\":[{\"role\":\"system\",\"content\":\"be terse\"},{\"role\":\"user\",\"content\":\"hi\"}],\"stream\":true}"
    );
}

#[test]
fn builders_carry_fields_exactly() {
    let c = ChatRequest::single_message("m", "hello", "user");
    assert_eq!(c.model, "m");
    assert_eq!(c.messages.len(), 1);
    assert_eq!(c.messages[0].role, "user");
    assert_eq!(c.messages[0].content, "hello");
    assert!(!c.stream);
    let p = PullRequest::new("n", true);
    assert_eq!(p.name, "n");
    assert!(p.stream);
    let e = EmbRequest::new("m", "p");
    assert_eq!(e.model, "m");
    assert_eq!(e.prompt, "p");
    let q = PushRequest::new("n", false);
    assert_eq!(q.name, "n");
    assert!(!q.stream);
}
