//! Round-trip and response-handling tests: every body the library builds
//! is valid JSON that parses back to the fields it was built from, and the
//! outcome of the one HTTP call maps to the right result.

use ollama_client::body::ChatRequest;
use ollama_client::body::EmbRequest;
use ollama_client::body::Message;
use ollama_client::body::PullRequest;
use ollama_client::response::ClientError;
use ollama_client::response::finish_operation;

#[test]
fn chat_body_round_trips_through_json() {
    let req = ChatRequest::single_message("model_name", "Hello!", "user");
    let body = req.to_json();
    let v: serde_json::Value = serde_json::from_str(&body).unwrap();
    let obj = v.as_object().unwrap();
    assert_eq!(obj.len(), 3);
    assert_eq!(v["model"].as_str().unwrap(), "model_name");
    let msgs = v["messages"].as_array().unwrap();
    assert_eq!(msgs.len(), 1);
    let m = msgs[0].as_object().unwrap();
    assert_eq!(m.len(), 2);
    assert_eq!(msgs[0]["role"].as_str().unwrap(), "user");
    assert_eq!(msgs[0]["content"].as_str().unwrap(), "Hello!");
    assert!(!v["stream"].as_bool().unwrap());
}

#[test]
fn escaped_body_round_trips_through_json() {
    let req = ChatRequest {
        model: String::from("m\"x\\y"),
        messages: vec![
            Message { role: String::from("user"), content: String::from("line\nbreak\tand \u{1} bell") },
        ],
        stream: true,
    };
    let body = req.to_json();
    let v: serde_json::Value = serde_json::from_str(&body).unwrap();
    assert_eq!(v["model"].as_str().unwrap(), "m\"x\\y");
    assert_eq!(v["messages"][0]["content"].as_str().unwrap(), "line\nbreak\tand \u{1} bell");
    assert!(v["stream"].as_bool().unwrap());
}

#[test]
fn pull_body_round_trips_through_json() {
    let body = PullRequest::new("some/model:tag", true).to_json();
    let v: serde_json::Value = serde_json::from_str(&body).unwrap();
    let obj = v.as_object().unwrap();
    assert_eq!(obj.len(), 2);
    assert_eq!(v["name"].as_str().unwrap(), "some/model:tag");
    assert!(v["stream"].as_bool().unwrap());
}

#[test]
fn emb_body_round_trips_through_json() {
    let body = EmbRequest::new("model_name", "Generate embeddings from this prompt").to_json();
    let v: serde_json::Value = serde_json::from_str(&body).unwrap();
    let obj = v.as_object().unwrap();
    assert_eq!(obj.len(), 2);
    assert_eq!(v["model"].as_str().unwrap(), "model_name");
    assert_eq!(v["prompt"].as_str().unwrap(), "Generate embeddings from this prompt");
}

#[test]
fn missing_response_is_a_transport_error() {
    let r = finish_operation(None);
    assert_eq!(r.unwrap_err(), ClientError::Transport);
}

#[test]
fn unparsable_response_is_a_decode_error() {
    let r = finish_operation(Some(String::from("not json at all {")));
    assert_eq!(r.unwrap_err(), ClientError::Decode);
}

#[test]
fn json_response_is_returned_parsed() {
    let r = finish_operation(Some(String::from("{\"status\":\"success\"}")));
    let v = r.unwrap();
    assert_eq!(v["status"].as_str().unwrap(), "success");
}
