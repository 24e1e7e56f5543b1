//! The five operations of the client.
//!
//! Each operation maps its inputs to the complete description of the one
//! HTTP request it performs: the method, the full URL of the endpoint on
//! the local server, and the exact JSON body (none for the listing). A
//! caller performs the request and hands what came back to
//! [`crate::response::finish_operation`].
//!
//! The listing endpoint differs between near-duplicate revisions of this
//! client (`/api/ps` against `/api/tags`); this library settles on
//! `/api/tags`, the path the library revision uses.

use vstd::prelude::*;
use vstd::string::StringExecFns;
use crate::HttpMethod;
use crate::body::ChatRequest;
use crate::body::ChatRequestView;
use crate::body::EmbRequest;
use crate::body::EmbRequestView;
use crate::body::MessageView;
use crate::body::PullRequest;
use crate::body::PullRequestView;
use crate::body::PushRequest;
use crate::body::PushRequestView;
use crate::body::spec_chat_body;
use crate::body::spec_emb_body;
use crate::body::spec_pull_body;
use crate::body::spec_push_body;

verus! {

/// URL of the chat completion endpoint.
pub open spec fn spec_chat_url() -> Seq<char> {
    "http://localhost:11434/api/chat"@
}

/// URL of the model pull endpoint.
pub open spec fn spec_pull_url() -> Seq<char> {
    "http://localhost:11434/api/pull"@
}

/// URL of the embeddings endpoint.
pub open spec fn spec_emb_url() -> Seq<char> {
    "http://localhost:11434/api/embeddings"@
}

/// URL of the model listing endpoint.
pub open spec fn spec_tags_url() -> Seq<char> {
    "http://localhost:11434/api/tags"@
}

/// URL of the model push endpoint.
pub open spec fn spec_push_url() -> Seq<char> {
    "http://localhost:11434/api/push"@
}

/// Everything one operation sends: method, URL, and body (if any).
#[derive(Debug, Clone)]
pub struct HttpRequest {
    pub method: HttpMethod,
    pub url: String,
    pub body: Option<String>,
}

/// The view a chat operation's request has: the given model, exactly one
/// message with the given role and content, and streaming off.
pub open spec fn spec_chat_single_view(
    model: Seq<char>,
    content: Seq<char>,
    role: Seq<char>,
) -> ChatRequestView {
    ChatRequestView {
        model: model,
        messages: seq![MessageView { role: role, content: content }],
        stream: false,
    }
}

/// The chat completion operation: a POST of a conversation of exactly one
/// message with the given role and content, streaming off.
pub fn chat_completion(model: &str, content: &str, role: &str) -> (r: HttpRequest)
    ensures
        r.method == HttpMethod::Post,
        r.url@ == spec_chat_url(),
        r.body matches Some(b) && b@ == spec_chat_body(
            spec_chat_single_view(model@, content@, role@),
        ),
{
    let req = ChatRequest::single_message(model, content, role);
    proof {
        assert(req@ =~~= spec_chat_single_view(model@, content@, role@));
    }
    let body = req.to_json();
    HttpRequest {
        method: HttpMethod::Post,
        url: String::from_str("http://localhost:11434/api/chat"),
        body: Some(body),
    }
}

/// The model pull operation: a POST of exactly the given name and stream
/// flag.
pub fn pull_model(name: &str, stream_mode: bool) -> (r: HttpRequest)
    ensures
        r.method == HttpMethod::Post,
        r.url@ == spec_pull_url(),
        r.body matches Some(b) && b@ == spec_pull_body(
            PullRequestView { name: name@, stream: stream_mode },
        ),
{
    let req = PullRequest::new(name, stream_mode);
    proof {
        assert(req@ =~= PullRequestView { name: name@, stream: stream_mode });
    }
    let body = req.to_json();
    HttpRequest {
        method: HttpMethod::Post,
        url: String::from_str("http://localhost:11434/api/pull"),
        body: Some(body),
    }
}

/// The embeddings operation: a POST of exactly the given model and prompt.
pub fn gen_embeddings(model: &str, prompt: &str) -> (r: HttpRequest)
    ensures
        r.method == HttpMethod::Post,
        r.url@ == spec_emb_url(),
        r.body matches Some(b) && b@ == spec_emb_body(
            EmbRequestView { model: model@, prompt: prompt@ },
        ),
{
    let req = EmbRequest::new(model, prompt);
    proof {
        assert(req@ =~= EmbRequestView { model: model@, prompt: prompt@ });
    }
    let body = req.to_json();
    HttpRequest {
        method: HttpMethod::Post,
        url: String::from_str("http://localhost:11434/api/embeddings"),
        body: Some(body),
    }
}

/// The model listing operation: a GET with no body.
pub fn list_models() -> (r: HttpRequest)
    ensures
        r.method == HttpMethod::Get,
        r.url@ == spec_tags_url(),
        r.body is None,
{
    HttpRequest {
        method: HttpMethod::Get,
        url: String::from_str("http://localhost:11434/api/tags"),
        body: None,
    }
}

/// The model push operation: a POST of exactly the given name and stream
/// flag.
pub fn push_models(name: &str, stream_mode: bool) -> (r: HttpRequest)
    ensures
        r.method == HttpMethod::Post,
        r.url@ == spec_push_url(),
        r.body matches Some(b) && b@ == spec_push_body(
            PushRequestView { name: name@, stream: stream_mode },
        ),
{
    let req = PushRequest::new(name, stream_mode);
    proof {
        assert(req@ =~= PushRequestView { name: name@, stream: stream_mode });
    }
    let body = req.to_json();
    HttpRequest {
        method: HttpMethod::Post,
        url: String::from_str("http://localhost:11434/api/push"),
        body: Some(body),
    }
}

} // verus!
