//! What the guest components answer: an echo actor, a probe actor and a probe
//! task. Each is handed plain values by its host and hands plain values back.

use crate::text::{same_text, truth, truth_text};
use vstd::prelude::*;
use vstd::utf8::{encode_utf8, valid_utf8};

verus! {

/// What a guest is told about the call it runs in.
#[derive(Debug)]
pub struct Context {
    pub execution_id: String,
    pub node_id: String,
    pub task_id: String,
}

/// What a guest receives and sends; JSON is text here.
#[derive(Debug, PartialEq, Eq)]
pub enum PayloadValue {
    Json(String),
    Binary(Vec<u8>),
    Empty,
}

/// A message at the guest boundary.
#[derive(Debug, PartialEq, Eq)]
pub struct Payload {
    pub type_: String,
    pub value: PayloadValue,
}

/// Bytes as text, by `String::from_utf8_lossy`.
pub uninterp spec fn lossy_text(bytes: Seq<u8>) -> Seq<char>;

/// Reads bytes as text by `String::from_utf8_lossy`. Bytes that are valid UTF-8
/// stand for the text they encode; what replaces the others is named, not
/// spelled out.
#[verifier::external_body]
fn text_of(bytes: &Vec<u8>) -> (s: String)
    ensures
        s@ == lossy_text(bytes@),
        valid_utf8(bytes@) ==> encode_utf8(s@) == bytes@,
{
    String::from_utf8_lossy(bytes).into_owned()
}

/// The JSON body of an echo.
pub open spec fn echo(inner: Seq<char>, node: Seq<char>) -> Seq<char> {
    "{\"echoed\": "@ + inner + ", \"node\": \""@ + node + "\"}"@
}

fn echo_text(inner: &str, node: &str) -> (s: String)
    ensures
        s@ == echo(inner@, node@),
{
    let mut s = "{\"echoed\": ".to_owned();
    s.append(inner);
    s.append(", \"node\": \"");
    s.append(node);
    s.append("\"}");
    s
}

/// The inbound value as a fragment of the echo actor's answer.
pub open spec fn echo_fragment(value: PayloadValue) -> Seq<char> {
    match value {
        PayloadValue::Json(s) => s@,
        PayloadValue::Binary(bytes) => lossy_text(bytes@),
        PayloadValue::Empty => "null"@,
    }
}

/// An echo holds the inbound fragment and the node's id as they are, each in its
/// place.
pub proof fn an_echo_holds_what_came_in(inner: Seq<char>, node: Seq<char>)
    ensures
        ({
            let head = "{\"echoed\": "@.len() as int;
            let middle = ", \"node\": \""@.len() as int;
            let at = head + inner.len() + middle;
            &&& echo(inner, node).len() == at + node.len() + "\"}"@.len()
            &&& echo(inner, node).subrange(head, head + inner.len()) == inner
            &&& echo(inner, node).subrange(at, at + node.len()) == node
        }),
{
    let head = "{\"echoed\": "@.len() as int;
    let middle = ", \"node\": \""@.len() as int;
    let at = head + inner.len() + middle;
    assert(echo(inner, node).subrange(head, head + inner.len()) =~= inner);
    assert(echo(inner, node).subrange(at, at + node.len()) =~= node);
}

/// JSON is echoed as it stands, and nothing as `null`; the echo actor reads bytes as
/// text, and the probe actor only says that there were some.
pub proof fn a_fragment_stands_for_what_came_in(value: PayloadValue)
    ensures
        value matches PayloadValue::Json(s) ==> echo_fragment(value) == s@ && probe_fragment(value)
            == s@,
        value is Empty ==> echo_fragment(value) == "null"@ && probe_fragment(value) == "null"@,
        value matches PayloadValue::Binary(bytes) ==> echo_fragment(value) == lossy_text(bytes@)
            && probe_fragment(value) == "\"binary\""@,
{
}

/// The echo actor: the inbound value comes back as the bytes of a JSON object
/// that also names the node.
pub fn echo_handle(ctx: &Context, msg: Payload) -> (out: Payload)
    ensures
        out.type_@ == "echo"@,
        out.value matches PayloadValue::Binary(body) && body@ == encode_utf8(
            echo(echo_fragment(msg.value), ctx.node_id@),
        ),
        out.value matches PayloadValue::Binary(body) && body@ == encode_utf8(
            "{\"echoed\": "@ + (match msg.value {
                PayloadValue::Json(s) => s@,
                PayloadValue::Binary(bytes) => lossy_text(bytes@),
                PayloadValue::Empty => "null"@,
            }) + ", \"node\": \""@ + ctx.node_id@ + "\"}"@,
        ),
{
    let inner = match msg.value {
        PayloadValue::Json(s) => s,
        PayloadValue::Binary(bytes) => text_of(&bytes),
        PayloadValue::Empty => "null".to_owned(),
    };
    let body = echo_text(inner.as_str(), ctx.node_id.as_str());
    Payload { type_: "echo".to_owned(), value: PayloadValue::Binary(body.as_str().as_bytes_vec()) }
}

/// The inbound value as a fragment of the probe actor's answer: bytes are only
/// marked as such.
pub open spec fn probe_fragment(value: PayloadValue) -> Seq<char> {
    match value {
        PayloadValue::Json(s) => s@,
        PayloadValue::Binary(_) => "\"binary\""@,
        PayloadValue::Empty => "null"@,
    }
}

/// What the probe actor logs when it is set up.
pub fn probe_setup_log(ctx: &Context) -> (line: String)
    ensures
        line@ == "test-actor-component: setup node "@ + ctx.node_id@,
{
    let mut line = "test-actor-component: setup node ".to_owned();
    line.append(ctx.node_id.as_str());
    line
}

/// What the probe actor logs when it is torn down.
pub fn probe_teardown_log(ctx: &Context) -> (line: String)
    ensures
        line@ == "test-actor-component: teardown node "@ + ctx.node_id@,
{
    let mut line = "test-actor-component: teardown node ".to_owned();
    line.append(ctx.node_id.as_str());
    line
}

/// What the probe actor logs for a message.
pub fn probe_handle_log(ctx: &Context, msg: &Payload) -> (line: String)
    ensures
        line@ == "test-actor-component: handle node "@ + ctx.node_id@ + " type "@ + msg.type_@,
{
    let mut line = "test-actor-component: handle node ".to_owned();
    line.append(ctx.node_id.as_str());
    line.append(" type ");
    line.append(msg.type_.as_str());
    line
}

/// The probe actor: the inbound value comes back inside a JSON object that also
/// names the node.
pub fn probe_handle(ctx: &Context, msg: &Payload) -> (out: Payload)
    ensures
        out.type_@ == "echo"@,
        out.value matches PayloadValue::Json(body) && body@ == echo(
            probe_fragment(msg.value),
            ctx.node_id@,
        ),
        out.value matches PayloadValue::Json(body) && body@ == "{\"echoed\": "@ + (
        match msg.value {
            PayloadValue::Json(s) => s@,
            PayloadValue::Binary(_) => "\"binary\""@,
            PayloadValue::Empty => "null"@,
        }) + ", \"node\": \""@ + ctx.node_id@ + "\"}"@,
{
    let echoed = match &msg.value {
        PayloadValue::Json(s) => s.clone(),
        PayloadValue::Binary(_) => "\"binary\"".to_owned(),
        PayloadValue::Empty => "null".to_owned(),
    };
    let body = echo_text(echoed.as_str(), ctx.node_id.as_str());
    Payload { type_: "echo".to_owned(), value: PayloadValue::Json(body) }
}

/// What the probe task logs when it runs.
pub fn task_log(ctx: &Context) -> (line: String)
    ensures
        line@ == "Executing task "@ + ctx.task_id@ + " in node "@ + ctx.node_id@ + " (execution: "@
            + ctx.execution_id@ + ")"@,
{
    let mut line = "Executing task ".to_owned();
    line.append(ctx.task_id.as_str());
    line.append(" in node ");
    line.append(ctx.node_id.as_str());
    line.append(" (execution: ");
    line.append(ctx.execution_id.as_str());
    line.append(")");
    line
}

/// A configuration value as a JSON fragment.
pub open spec fn quoted_or_null(value: Option<String>) -> Seq<char> {
    match value {
        Some(v) => "\""@ + v@ + "\""@,
        None => "null"@,
    }
}

/// A configuration value is quoted as it stands, and a missing one is `null`; truth is
/// written out.
pub proof fn a_task_fragment_tells_its_value(value: Option<String>)
    ensures
        value is None ==> quoted_or_null(value) == "null"@,
        value matches Some(v) ==> quoted_or_null(value) == "\""@ + v@ + "\""@,
        truth(true) == "true"@,
        truth(false) == "false"@,
{
}

/// The probe task: its input, whether the host's store gave the input back, and
/// the host's configuration value, in one JSON object.
pub fn task_output(data: &str, stored: Option<String>, config: Option<String>) -> (out: String)
    ensures
        out@ == "{\"input\": "@ + data@ + ", \"stored_matches\": "@ + truth(
            stored matches Some(s) && s@ == data@,
        ) + ", \"config_value\": "@ + quoted_or_null(config) + "}"@,
{
    let matches = match stored {
        Some(s) => same_text(s.as_str(), data),
        None => false,
    };
    let config_json = match config {
        Some(v) => {
            let mut s = "\"".to_owned();
            s.append(v.as_str());
            s.append("\"");
            s
        },
        None => "null".to_owned(),
    };
    let mut out = "{\"input\": ".to_owned();
    out.append(data);
    out.append(", \"stored_matches\": ");
    out.append(truth_text(matches));
    out.append(", \"config_value\": ");
    out.append(config_json.as_str());
    out.append("}");
    out
}

} // verus!
