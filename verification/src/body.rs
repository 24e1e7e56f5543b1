//! Request types and their JSON bodies.
//!
//! One struct per endpoint payload, a view for each, and a spec function
//! giving the exact character sequence of the JSON body. Field names appear
//! in the body exactly as declared, in declaration order, with nothing
//! added. The executable `to_json` methods are proved to produce exactly
//! the specified sequences.

use vstd::prelude::*;
use vstd::string::StringExecFns;
use crate::escape::append_quoted;
use crate::escape::json_quoted;

verus! {

/// One message of a chat conversation.
#[derive(Debug)]
pub struct Message {
    /// Who speaks: for example "user", "system" or "assistant".
    /// Any string is accepted.
    pub role: String,
    /// The text of the message.
    pub content: String,
}

/// Mathematical view of a [`Message`].
#[verifier::ext_equal]
pub struct MessageView {
    pub role: Seq<char>,
    pub content: Seq<char>,
}

impl View for Message {
    type V = MessageView;

    open spec fn view(&self) -> MessageView {
        MessageView { role: self.role@, content: self.content@ }
    }
}

/// A chat completion request: a model, an ordered conversation, and the
/// stream flag.
#[derive(Debug)]
pub struct ChatRequest {
    /// Name of the model that answers the conversation.
    pub model: String,
    /// The conversation, in order; the order is preserved in the body.
    pub messages: Vec<Message>,
    /// Whether the reply should be streamed.
    pub stream: bool,
}

/// Mathematical view of a [`ChatRequest`].
#[verifier::ext_equal]
pub struct ChatRequestView {
    pub model: Seq<char>,
    pub messages: Seq<MessageView>,
    pub stream: bool,
}

impl View for ChatRequest {
    type V = ChatRequestView;

    open spec fn view(&self) -> ChatRequestView {
        ChatRequestView {
            model: self.model@,
            messages: self.messages@.map_values(|m: Message| m@),
            stream: self.stream,
        }
    }
}

/// A request to pull a model onto the server.
#[derive(Debug)]
pub struct PullRequest {
    /// Identifier of the model to pull.
    pub name: String,
    /// Whether progress should be streamed.
    pub stream: bool,
}

/// Mathematical view of a [`PullRequest`].
#[verifier::ext_equal]
pub struct PullRequestView {
    pub name: Seq<char>,
    pub stream: bool,
}

impl View for PullRequest {
    type V = PullRequestView;

    open spec fn view(&self) -> PullRequestView {
        PullRequestView { name: self.name@, stream: self.stream }
    }
}

/// A request to compute embeddings for a prompt.
#[derive(Debug)]
pub struct EmbRequest {
    /// Name of the embedding model.
    pub model: String,
    /// The text to embed.
    pub prompt: String,
}

/// Mathematical view of an [`EmbRequest`].
#[verifier::ext_equal]
pub struct EmbRequestView {
    pub model: Seq<char>,
    pub prompt: Seq<char>,
}

impl View for EmbRequest {
    type V = EmbRequestView;

    open spec fn view(&self) -> EmbRequestView {
        EmbRequestView { model: self.model@, prompt: self.prompt@ }
    }
}

/// A request to push a model from the server to a registry.
#[derive(Debug)]
pub struct PushRequest {
    /// Identifier of the model to push.
    pub name: String,
    /// Whether progress should be streamed.
    pub stream: bool,
}

/// Mathematical view of a [`PushRequest`].
#[verifier::ext_equal]
pub struct PushRequestView {
    pub name: Seq<char>,
    pub stream: bool,
}

impl View for PushRequest {
    type V = PushRequestView;

    open spec fn view(&self) -> PushRequestView {
        PushRequestView { name: self.name@, stream: self.stream }
    }
}

/// The JSON text of a boolean.
pub open spec fn spec_bool_json(b: bool) -> Seq<char> {
    if b {
        "true"@
    } else {
        "false"@
    }
}

/// The JSON object for one message: `{"role":R,"content":C}`.
pub open spec fn spec_message_json(m: MessageView) -> Seq<char> {
    "{\"role\":"@ + json_quoted(m.role) + ",\"content\":"@ + json_quoted(m.content) + "}"@
}

/// The members of the JSON array of messages, joined by commas.
pub open spec fn spec_messages_json(ms: Seq<MessageView>) -> Seq<char>
    decreases ms.len(),
{
    if ms.len() == 0 {
        Seq::<char>::empty()
    } else if ms.len() == 1 {
        spec_message_json(ms[0])
    } else {
        spec_message_json(ms[0]) + ","@ + spec_messages_json(ms.skip(1))
    }
}

/// The body of a chat request:
/// `{"model":M,"messages":[...],"stream":B}`.
pub open spec fn spec_chat_body(v: ChatRequestView) -> Seq<char> {
    "{\"model\":"@ + json_quoted(v.model) + ",\"messages\":["@ + spec_messages_json(v.messages)
        + "],\"stream\":"@ + spec_bool_json(v.stream) + "}"@
}

/// The body of a pull request: `{"name":N,"stream":B}`.
pub open spec fn spec_pull_body(v: PullRequestView) -> Seq<char> {
    "{\"name\":"@ + json_quoted(v.name) + ",\"stream\":"@ + spec_bool_json(v.stream) + "}"@
}

/// The body of an embeddings request: `{"model":M,"prompt":P}`.
pub open spec fn spec_emb_body(v: EmbRequestView) -> Seq<char> {
    "{\"model\":"@ + json_quoted(v.model) + ",\"prompt\":"@ + json_quoted(v.prompt) + "}"@
}

/// The body of a push request: `{"name":N,"stream":B}`.
pub open spec fn spec_push_body(v: PushRequestView) -> Seq<char> {
    "{\"name\":"@ + json_quoted(v.name) + ",\"stream\":"@ + spec_bool_json(v.stream) + "}"@
}

/// Joining one more message appends a comma (except before the first
/// message) and that message's object.
pub proof fn lemma_messages_json_snoc(ms: Seq<MessageView>)
    requires
        ms.len() >= 1,
    ensures
        spec_messages_json(ms) == if ms.len() == 1 {
            spec_message_json(ms[0])
        } else {
            spec_messages_json(ms.take(ms.len() - 1)) + ","@ + spec_message_json(ms.last())
        },
    decreases ms.len(),
{
    if ms.len() == 1 {
    } else if ms.len() == 2 {
        assert(ms.skip(1) =~= seq![ms[1]]);
        assert(ms.take(1) =~= seq![ms[0]]);
        assert(spec_messages_json(seq![ms[1]]) == spec_message_json(ms[1]));
        assert(spec_messages_json(seq![ms[0]]) == spec_message_json(ms[0]));
    } else {
        let tail = ms.skip(1);
        lemma_messages_json_snoc(tail);
        let front = ms.take(ms.len() - 1);
        assert(front.len() >= 2);
        assert(front.skip(1) =~= tail.take(tail.len() - 1));
        assert(tail.last() == ms.last());
        assert(front[0] == ms[0]);
        assert(spec_messages_json(ms) =~= spec_messages_json(front) + ","@ + spec_message_json(
            ms.last(),
        ));
    }
}

fn append_bool(out: &mut String, b: bool)
    ensures
        final(out)@ == old(out)@ + spec_bool_json(b),
{
    if b {
        out.append("true");
    } else {
        out.append("false");
    }
}

/// Appends one message's JSON object.
fn append_message(out: &mut String, m: &Message)
    ensures
        final(out)@ == old(out)@ + spec_message_json(m@),
{
    out.append("{\"role\":");
    append_quoted(out, m.role.as_str());
    out.append(",\"content\":");
    append_quoted(out, m.content.as_str());
    out.append("}");
    proof {
        assert(out@ =~= old(out)@ + spec_message_json(m@));
    }
}

impl ChatRequest {
    /// Builds the request the chat operation sends: the given model, a
    /// conversation of exactly one message with the given content and role,
    /// and streaming off.
    pub fn single_message(model: &str, content: &str, role: &str) -> (r: ChatRequest)
        ensures
            r@.model == model@,
            r@.stream == false,
            r@.messages.len() == 1,
            r@.messages[0].role == role@,
            r@.messages[0].content == content@,
    {
        let mut messages: Vec<Message> = Vec::new();
        messages.push(
            Message { role: String::from_str(role), content: String::from_str(content) },
        );
        ChatRequest { model: String::from_str(model), messages, stream: false }
    }

    /// The JSON body of this request, exactly as specified.
    pub fn to_json(&self) -> (r: String)
        ensures
            r@ == spec_chat_body(self@),
    {
        let ghost msgs = self@.messages;
        let mut out = String::new();
        out.append("{\"model\":");
        append_quoted(&mut out, self.model.as_str());
        out.append(",\"messages\":[");
        let ghost prefix = out@;
        proof {
            assert(msgs.take(0) =~= Seq::<MessageView>::empty());
            assert(prefix + spec_messages_json(msgs.take(0)) =~= prefix);
        }
        let n = self.messages.len();
        let mut i: usize = 0;
        while i < n
            invariant
                n == self.messages@.len(),
                msgs == self@.messages,
                msgs.len() == n,
                i <= n,
                out@ == prefix + spec_messages_json(msgs.take(i as int)),
            decreases n - i,
        {
            if i > 0 {
                out.append(",");
            }
            append_message(&mut out, &self.messages[i]);
            proof {
                assert(msgs[i as int] == self.messages@[i as int]@);
                lemma_messages_json_snoc(msgs.take(i as int + 1));
                assert(msgs.take(i as int + 1).take(i as int) =~= msgs.take(i as int));
                assert(out@ =~= prefix + spec_messages_json(msgs.take(i as int + 1)));
            }
            i = i + 1;
        }
        proof {
            assert(msgs.take(n as int) =~= msgs);
        }
        out.append("],\"stream\":");
        append_bool(&mut out, self.stream);
        out.append("}");
        proof {
            assert(out@ =~= spec_chat_body(self@));
        }
        out
    }
}

impl PullRequest {
    /// Builds a pull request carrying exactly the given name and stream flag.
    pub fn new(name: &str, stream: bool) -> (r: PullRequest)
        ensures
            r@.name == name@,
            r@.stream == stream,
    {
        PullRequest { name: String::from_str(name), stream }
    }

    /// The JSON body of this request, exactly as specified.
    pub fn to_json(&self) -> (r: String)
        ensures
            r@ == spec_pull_body(self@),
    {
        let mut out = String::new();
        out.append("{\"name\":");
        append_quoted(&mut out, self.name.as_str());
        out.append(",\"stream\":");
        append_bool(&mut out, self.stream);
        out.append("}");
        proof {
            assert(out@ =~= spec_pull_body(self@));
        }
        out
    }
}

impl EmbRequest {
    /// Builds an embeddings request carrying exactly the given model and
    /// prompt.
    pub fn new(model: &str, prompt: &str) -> (r: EmbRequest)
        ensures
            r@.model == model@,
            r@.prompt == prompt@,
    {
        EmbRequest { model: String::from_str(model), prompt: String::from_str(prompt) }
    }

    /// The JSON body of this request, exactly as specified.
    pub fn to_json(&self) -> (r: String)
        ensures
            r@ == spec_emb_body(self@),
    {
        let mut out = String::new();
        out.append("{\"model\":");
        append_quoted(&mut out, self.model.as_str());
        out.append(",\"prompt\":");
        append_quoted(&mut out, self.prompt.as_str());
        out.append("}");
        proof {
            assert(out@ =~= spec_emb_body(self@));
        }
        out
    }
}

impl PushRequest {
    /// Builds a push request carrying exactly the given name and stream flag.
    pub fn new(name: &str, stream: bool) -> (r: PushRequest)
        ensures
            r@.name == name@,
            r@.stream == stream,
    {
        PushRequest { name: String::from_str(name), stream }
    }

    /// The JSON body of this request, exactly as specified.
    pub fn to_json(&self) -> (r: String)
        ensures
            r@ == spec_push_body(self@),
    {
        let mut out = String::new();
        out.append("{\"name\":");
        append_quoted(&mut out, self.name.as_str());
        out.append(",\"stream\":");
        append_bool(&mut out, self.stream);
        out.append("}");
        proof {
            assert(out@ =~= spec_push_body(self@));
        }
        out
    }
}

} // verus!
