//! Reading request bodies back.
//!
//! The encoding of the request bodies is lossless: this module gives a
//! parser for each body, written as spec functions, and proves that parsing
//! a built body yields exactly the fields it was built from. The parsers
//! accept precisely the texts the builders produce (for string escapes,
//! the forms the escaper emits, with lower-case hexadecimal digits).

use vstd::prelude::*;
use vstd::utf8::char_u32_cast;
use crate::body::ChatRequestView;
use crate::body::EmbRequestView;
use crate::body::MessageView;
use crate::body::PullRequestView;
use crate::body::PushRequestView;
use crate::body::spec_bool_json;
use crate::body::spec_chat_body;
use crate::body::spec_emb_body;
use crate::body::spec_message_json;
use crate::body::spec_messages_json;
use crate::body::spec_pull_body;
use crate::body::spec_push_body;
use crate::escape::esc_char;
use crate::escape::hex_digit;
use crate::escape::json_escaped;
use crate::escape::json_quoted;

verus! {

/// The value of a hexadecimal digit character (lower case), if it is one.
pub open spec fn hex_val(c: char) -> Option<int> {
    if c == '0' {
        Some(0int)
    } else if c == '1' {
        Some(1int)
    } else if c == '2' {
        Some(2int)
    } else if c == '3' {
        Some(3int)
    } else if c == '4' {
        Some(4int)
    } else if c == '5' {
        Some(5int)
    } else if c == '6' {
        Some(6int)
    } else if c == '7' {
        Some(7int)
    } else if c == '8' {
        Some(8int)
    } else if c == '9' {
        Some(9int)
    } else if c == 'a' {
        Some(10int)
    } else if c == 'b' {
        Some(11int)
    } else if c == 'c' {
        Some(12int)
    } else if c == 'd' {
        Some(13int)
    } else if c == 'e' {
        Some(14int)
    } else if c == 'f' {
        Some(15int)
    } else {
        None
    }
}

/// The character a short escape letter stands for, if it is one.
pub open spec fn simple_unesc(e: char) -> Option<char> {
    if e == '"' {
        Some('"')
    } else if e == '\\' {
        Some('\\')
    } else if e == 'b' {
        Some('\u{8}')
    } else if e == 'f' {
        Some('\u{c}')
    } else if e == 'n' {
        Some('\n')
    } else if e == 'r' {
        Some('\r')
    } else if e == 't' {
        Some('\t')
    } else {
        None
    }
}

/// Scans the body of a JSON string up to its closing quote: yields the
/// decoded content and what follows the quote.
pub open spec fn scan_string(s: Seq<char>) -> Option<(Seq<char>, Seq<char>)>
    decreases s.len(),
{
    if s.len() == 0 {
        None
    } else if s[0] == '"' {
        Some((Seq::<char>::empty(), s.skip(1)))
    } else if s[0] == '\\' {
        if s.len() < 2 {
            None
        } else if s[1] == 'u' {
            if s.len() < 6 {
                None
            } else if hex_val(s[2]) is Some && hex_val(s[3]) is Some && hex_val(s[4]) is Some
                && hex_val(s[5]) is Some {
                let code = hex_val(s[2])->0 * 4096 + hex_val(s[3])->0 * 256 + hex_val(s[4])->0 * 16
                    + hex_val(s[5])->0;
                if code < 0xD800 {
                    match scan_string(s.skip(6)) {
                        Some((c, r)) => Some((seq![(code as u32) as char] + c, r)),
                        None => None,
                    }
                } else {
                    None
                }
            } else {
                None
            }
        } else {
            match simple_unesc(s[1]) {
                Some(c) => match scan_string(s.skip(2)) {
                    Some((cc, r)) => Some((seq![c] + cc, r)),
                    None => None,
                },
                None => None,
            }
        }
    } else {
        match scan_string(s.skip(1)) {
            Some((c, r)) => Some((seq![s[0]] + c, r)),
            None => None,
        }
    }
}

/// Consumes an expected literal prefix.
pub open spec fn take_lit(s: Seq<char>, lit: Seq<char>) -> Option<Seq<char>> {
    if lit.is_prefix_of(s) {
        Some(s.skip(lit.len() as int))
    } else {
        None
    }
}

/// Consumes a JSON string literal: an opening quote, the content, the
/// closing quote.
pub open spec fn take_quoted(s: Seq<char>) -> Option<(Seq<char>, Seq<char>)> {
    if s.len() >= 1 && s[0] == '"' {
        scan_string(s.skip(1))
    } else {
        None
    }
}

/// Consumes a JSON boolean.
pub open spec fn take_bool(s: Seq<char>) -> Option<(bool, Seq<char>)> {
    if ("true"@).is_prefix_of(s) {
        Some((true, s.skip(("true"@).len() as int)))
    } else if ("false"@).is_prefix_of(s) {
        Some((false, s.skip(("false"@).len() as int)))
    } else {
        None
    }
}

/// Consuming a literal undoes prepending it.
pub proof fn lemma_take_lit(lit: Seq<char>, rest: Seq<char>)
    ensures
        take_lit(lit + rest, lit) == Some(rest),
{
    let s = lit + rest;
    assert(lit =~= s.subrange(0, lit.len() as int));
    assert(s.skip(lit.len() as int) =~= rest);
}

/// Scanning undoes escaping: the escaped text, a closing quote, and
/// whatever follows scan back to the unescaped text and that remainder.
pub proof fn lemma_scan_escaped(x: Seq<char>, rest: Seq<char>)
    ensures
        scan_string(json_escaped(x) + seq!['"'] + rest) == Some((x, rest)),
    decreases x.len(),
{
    let s = json_escaped(x) + seq!['"'] + rest;
    if x.len() == 0 {
        assert(s =~= seq!['"'] + rest);
        assert(s[0] == '"');
        assert(s.skip(1) =~= rest);
    } else {
        let c = x[0];
        let e = esc_char(c);
        let tail = json_escaped(x.skip(1)) + seq!['"'] + rest;
        assert(json_escaped(x) == e + json_escaped(x.skip(1)));
        assert(s =~= e + tail);
        lemma_scan_escaped(x.skip(1), rest);
        if c == '"' || c == '\\' || c == '\u{8}' || c == '\u{c}' || c == '\n' || c == '\r' || c
            == '\t' {
            assert(e.len() == 2 && e[0] == '\\');
            assert(s.skip(2) =~= tail);
            assert(simple_unesc(e[1]) == Some(c));
            assert(seq![c] + x.skip(1) =~= x);
        } else if (c as u32) < 0x20 {
            let v = (c as u32) as int;
            assert(e == seq!['\\', 'u', '0', '0', hex_digit(v / 16), hex_digit(v % 16)]);
            assert(s.len() >= 7);
            assert(s[0] == '\\' && s[1] == 'u' && s[2] == '0' && s[3] == '0');
            assert(hex_val(s[2]) == Some(0int) && hex_val(s[3]) == Some(0int));
            assert(0 <= v / 16 < 16);
            assert(0 <= v % 16 < 16);
            assert(hex_val(hex_digit(v / 16)) == Some(v / 16));
            assert(hex_val(hex_digit(v % 16)) == Some(v % 16));
            let code = (v / 16) * 16 + (v % 16);
            assert(code == v);
            assert(code < 0xD800);
            assert((code as u32) == c as u32);
            char_u32_cast(c, c as u32);
            assert((code as u32) as char == c);
            assert(s.skip(6) =~= tail);
            assert(seq![c] + x.skip(1) =~= x);
        } else {
            assert(e == seq![c]);
            assert(s[0] == c);
            assert(c != '"' && c != '\\');
            assert(s.skip(1) =~= tail);
            assert(seq![c] + x.skip(1) =~= x);
        }
    }
}

/// Consuming a quoted string undoes quoting.
pub proof fn lemma_take_quoted(x: Seq<char>, rest: Seq<char>)
    ensures
        take_quoted(json_quoted(x) + rest) == Some((x, rest)),
{
    let s = json_quoted(x) + rest;
    assert(s[0] == '"');
    assert(s.skip(1) =~= json_escaped(x) + seq!['"'] + rest);
    lemma_scan_escaped(x, rest);
}

/// Consuming a boolean undoes writing it.
pub proof fn lemma_take_bool(b: bool, rest: Seq<char>)
    ensures
        take_bool(crate::body::spec_bool_json(b) + rest) == Some((b, rest)),
{
    reveal_strlit("true");
    reveal_strlit("false");
    if b {
        let s = "true"@ + rest;
        assert(("true"@).is_prefix_of(s)) by {
            assert("true"@ =~= s.subrange(0, 4));
        }
        assert(s.skip(4) =~= rest);
    } else {
        let s = "false"@ + rest;
        assert(s[0] == 'f');
        assert(!("true"@).is_prefix_of(s)) by {
            assert(("true"@)[0] == 't');
        }
        assert(("false"@).is_prefix_of(s)) by {
            assert("false"@ =~= s.subrange(0, 5));
        }
        assert(s.skip(5) =~= rest);
    }
}

/// Consumes one message object.
pub open spec fn take_message(s: Seq<char>) -> Option<(MessageView, Seq<char>)> {
    match take_lit(s, "{\"role\":"@) {
        Some(s1) => match take_quoted(s1) {
            Some((role, s2)) => match take_lit(s2, ",\"content\":"@) {
                Some(s3) => match take_quoted(s3) {
                    Some((content, s4)) => match take_lit(s4, "}"@) {
                        Some(s5) => Some((MessageView { role, content }, s5)),
                        None => None,
                    },
                    None => None,
                },
                None => None,
            },
            None => None,
        },
        None => None,
    }
}

/// Consumes one or more comma-separated message objects.
pub open spec fn take_messages(s: Seq<char>) -> Option<(Seq<MessageView>, Seq<char>)>
    decreases s.len(),
{
    match take_message(s) {
        Some((m, r)) => if r.len() >= 1 && r[0] == ',' && r.len() < s.len() {
            match take_messages(r.skip(1)) {
                Some((ms, rr)) => Some((seq![m] + ms, rr)),
                None => None,
            }
        } else {
            Some((seq![m], r))
        },
        None => None,
    }
}

/// Parses a whole chat body back into its view.
pub open spec fn parse_chat_body(s: Seq<char>) -> Option<ChatRequestView> {
    match take_lit(s, "{\"model\":"@) {
        Some(s1) => match take_quoted(s1) {
            Some((model, s2)) => match take_lit(s2, ",\"messages\":["@) {
                Some(s3) => {
                    let msgs_parsed = if s3.len() >= 1 && s3[0] == ']' {
                        Some((Seq::<MessageView>::empty(), s3))
                    } else {
                        take_messages(s3)
                    };
                    match msgs_parsed {
                        Some((messages, s4)) => match take_lit(s4, "],\"stream\":"@) {
                            Some(s5) => match take_bool(s5) {
                                Some((stream, s6)) => match take_lit(s6, "}"@) {
                                    Some(s7) => if s7.len() == 0 {
                                        Some(ChatRequestView { model, messages, stream })
                                    } else {
                                        None
                                    },
                                    None => None,
                                },
                                None => None,
                            },
                            None => None,
                        },
                        None => None,
                    }
                },
                None => None,
            },
            None => None,
        },
        None => None,
    }
}

/// Parses a whole pull body back into its view.
pub open spec fn parse_pull_body(s: Seq<char>) -> Option<PullRequestView> {
    match take_lit(s, "{\"name\":"@) {
        Some(s1) => match take_quoted(s1) {
            Some((name, s2)) => match take_lit(s2, ",\"stream\":"@) {
                Some(s3) => match take_bool(s3) {
                    Some((stream, s4)) => match take_lit(s4, "}"@) {
                        Some(s5) => if s5.len() == 0 {
                            Some(PullRequestView { name, stream })
                        } else {
                            None
                        },
                        None => None,
                    },
                    None => None,
                },
                None => None,
            },
            None => None,
        },
        None => None,
    }
}

/// Parses a whole embeddings body back into its view.
pub open spec fn parse_emb_body(s: Seq<char>) -> Option<EmbRequestView> {
    match take_lit(s, "{\"model\":"@) {
        Some(s1) => match take_quoted(s1) {
            Some((model, s2)) => match take_lit(s2, ",\"prompt\":"@) {
                Some(s3) => match take_quoted(s3) {
                    Some((prompt, s4)) => match take_lit(s4, "}"@) {
                        Some(s5) => if s5.len() == 0 {
                            Some(EmbRequestView { model, prompt })
                        } else {
                            None
                        },
                        None => None,
                    },
                    None => None,
                },
                None => None,
            },
            None => None,
        },
        None => None,
    }
}

/// Parses a whole push body back into its view.
pub open spec fn parse_push_body(s: Seq<char>) -> Option<PushRequestView> {
    match take_lit(s, "{\"name\":"@) {
        Some(s1) => match take_quoted(s1) {
            Some((name, s2)) => match take_lit(s2, ",\"stream\":"@) {
                Some(s3) => match take_bool(s3) {
                    Some((stream, s4)) => match take_lit(s4, "}"@) {
                        Some(s5) => if s5.len() == 0 {
                            Some(PushRequestView { name, stream })
                        } else {
                            None
                        },
                        None => None,
                    },
                    None => None,
                },
                None => None,
            },
            None => None,
        },
        None => None,
    }
}

/// Consuming a message object undoes building it.
pub proof fn lemma_take_message(m: MessageView, rest: Seq<char>)
    ensures
        take_message(spec_message_json(m) + rest) == Some((m, rest)),
{
    let s = spec_message_json(m) + rest;
    let r1 = json_quoted(m.role) + (",\"content\":"@ + (json_quoted(m.content) + ("}"@ + rest)));
    assert(s =~= "{\"role\":"@ + r1);
    lemma_take_lit("{\"role\":"@, r1);
    let r2 = ",\"content\":"@ + (json_quoted(m.content) + ("}"@ + rest));
    lemma_take_quoted(m.role, r2);
    let r3 = json_quoted(m.content) + ("}"@ + rest);
    lemma_take_lit(",\"content\":"@, r3);
    let r4 = "}"@ + rest;
    lemma_take_quoted(m.content, r4);
    lemma_take_lit("}"@, rest);
    assert(MessageView { role: m.role, content: m.content } =~= m);
}

/// A message object is never empty.
proof fn lemma_message_json_len(m: MessageView)
    ensures
        spec_message_json(m).len() >= 1,
        spec_message_json(m)[0] == '{',
{
    reveal_strlit("{\"role\":");
}

/// Consuming joined message objects undoes joining them, as long as what
/// follows does not begin with the separator.
pub proof fn lemma_take_messages(ms: Seq<MessageView>, rest: Seq<char>)
    requires
        ms.len() >= 1,
        rest.len() >= 1,
        rest[0] != ',',
    ensures
        take_messages(spec_messages_json(ms) + rest) == Some((ms, rest)),
    decreases ms.len(),
{
    let s = spec_messages_json(ms) + rest;
    if ms.len() == 1 {
        assert(s =~= spec_message_json(ms[0]) + rest);
        lemma_take_message(ms[0], rest);
        assert(seq![ms[0]] =~= ms);
    } else {
        let tail = ms.skip(1);
        reveal_strlit(",");
        let r1 = ","@ + (spec_messages_json(tail) + rest);
        assert(s =~= spec_message_json(ms[0]) + r1);
        lemma_take_message(ms[0], r1);
        assert(r1[0] == ',');
        lemma_message_json_len(ms[0]);
        assert(r1.len() < s.len());
        assert(r1.skip(1) =~= spec_messages_json(tail) + rest);
        lemma_take_messages(tail, rest);
        assert(seq![ms[0]] + tail =~= ms);
    }
}

/// LAW (lossless encoding, chat): a chat body parsed back yields exactly
/// the model, messages and stream flag it was built from.
#[verifier::rlimit(100)]
pub proof fn lemma_chat_body_lossless(v: ChatRequestView)
    ensures
        parse_chat_body(spec_chat_body(v)) == Some(v),
{
    let s = spec_chat_body(v);
    let r1 = json_quoted(v.model) + (",\"messages\":["@ + (spec_messages_json(v.messages) + (
    "],\"stream\":"@ + (spec_bool_json(v.stream) + "}"@))));
    assert(s =~= "{\"model\":"@ + r1);
    lemma_take_lit("{\"model\":"@, r1);
    let r2 = ",\"messages\":["@ + (spec_messages_json(v.messages) + ("],\"stream\":"@ + (
    spec_bool_json(v.stream) + "}"@)));
    lemma_take_quoted(v.model, r2);
    let r3 = spec_messages_json(v.messages) + ("],\"stream\":"@ + (spec_bool_json(v.stream)
        + "}"@));
    lemma_take_lit(",\"messages\":["@, r3);
    let r4 = "],\"stream\":"@ + (spec_bool_json(v.stream) + "}"@);
    reveal_strlit("],\"stream\":");
    if v.messages.len() == 0 {
        assert(spec_messages_json(v.messages) =~= Seq::<char>::empty());
        assert(r3 =~= r4);
        assert(r3.len() >= 1 && r3[0] == ']');
    } else {
        lemma_message_json_len(v.messages[0]);
        assert(r3[0] == '{');
        assert(r4[0] == ']');
        lemma_take_messages(v.messages, r4);
    }
    let r5 = spec_bool_json(v.stream) + "}"@;
    lemma_take_lit("],\"stream\":"@, r5);
    reveal_strlit("}");
    lemma_take_bool(v.stream, "}"@);
    lemma_take_lit("}"@, Seq::<char>::empty());
    assert(spec_bool_json(v.stream) + "}"@ =~= spec_bool_json(v.stream) + ("}"@
        + Seq::<char>::empty()));
    assert(ChatRequestView { model: v.model, messages: v.messages, stream: v.stream } =~= v);
}

/// LAW (lossless encoding, pull): a pull body parsed back yields exactly
/// the name and stream flag it was built from.
pub proof fn lemma_pull_body_lossless(v: PullRequestView)
    ensures
        parse_pull_body(spec_pull_body(v)) == Some(v),
{
    let s = spec_pull_body(v);
    let r1 = json_quoted(v.name) + (",\"stream\":"@ + (spec_bool_json(v.stream) + "}"@));
    assert(s =~= "{\"name\":"@ + r1);
    lemma_take_lit("{\"name\":"@, r1);
    let r2 = ",\"stream\":"@ + (spec_bool_json(v.stream) + "}"@);
    lemma_take_quoted(v.name, r2);
    let r3 = spec_bool_json(v.stream) + "}"@;
    lemma_take_lit(",\"stream\":"@, r3);
    lemma_take_bool(v.stream, "}"@);
    lemma_take_lit("}"@, Seq::<char>::empty());
    assert(spec_bool_json(v.stream) + "}"@ =~= spec_bool_json(v.stream) + ("}"@
        + Seq::<char>::empty()));
    assert(PullRequestView { name: v.name, stream: v.stream } =~= v);
}

/// LAW (lossless encoding, embeddings): an embeddings body parsed back
/// yields exactly the model and prompt it was built from.
pub proof fn lemma_emb_body_lossless(v: EmbRequestView)
    ensures
        parse_emb_body(spec_emb_body(v)) == Some(v),
{
    let s = spec_emb_body(v);
    let r1 = json_quoted(v.model) + (",\"prompt\":"@ + (json_quoted(v.prompt) + "}"@));
    assert(s =~= "{\"model\":"@ + r1);
    lemma_take_lit("{\"model\":"@, r1);
    let r2 = ",\"prompt\":"@ + (json_quoted(v.prompt) + "}"@);
    lemma_take_quoted(v.model, r2);
    let r3 = json_quoted(v.prompt) + "}"@;
    lemma_take_lit(",\"prompt\":"@, r3);
    assert(json_quoted(v.prompt) + "}"@ =~= json_quoted(v.prompt) + ("}"@
        + Seq::<char>::empty()));
    lemma_take_quoted(v.prompt, "}"@ + Seq::<char>::empty());
    lemma_take_lit("}"@, Seq::<char>::empty());
    assert(EmbRequestView { model: v.model, prompt: v.prompt } =~= v);
}

/// LAW (lossless encoding, push): a push body parsed back yields exactly
/// the name and stream flag it was built from.
pub proof fn lemma_push_body_lossless(v: PushRequestView)
    ensures
        parse_push_body(spec_push_body(v)) == Some(v),
{
    let s = spec_push_body(v);
    let r1 = json_quoted(v.name) + (",\"stream\":"@ + (spec_bool_json(v.stream) + "}"@));
    assert(s =~= "{\"name\":"@ + r1);
    lemma_take_lit("{\"name\":"@, r1);
    let r2 = ",\"stream\":"@ + (spec_bool_json(v.stream) + "}"@);
    lemma_take_quoted(v.name, r2);
    let r3 = spec_bool_json(v.stream) + "}"@;
    lemma_take_lit(",\"stream\":"@, r3);
    lemma_take_bool(v.stream, "}"@);
    lemma_take_lit("}"@, Seq::<char>::empty());
    assert(spec_bool_json(v.stream) + "}"@ =~= spec_bool_json(v.stream) + ("}"@
        + Seq::<char>::empty()));
    assert(PushRequestView { name: v.name, stream: v.stream } =~= v);
}

} // verus!
