//! The recognizer's wire protocol: control frames are JSON objects tagged
//! by a `type` field, audio travels as separate binary frames. This module
//! pins down the exact text of every outbound control frame and the meaning
//! of every inbound one.

use vstd::prelude::*;

use crate::json::{
    dec_digits, parse_document, find_member, quoted, push_decimal, push_quoted, spec_find,
    spec_parse_document, JsonValue, SpecJson,
};
use crate::text::{chars_of, push_str_chars, string_of};

verus! {

/// What the client was doing when the session started, sent best-effort to
/// the service.
pub struct ClientContext {
    pub app_name: String,
    pub window_title: String,
}

impl Default for ClientContext {
    fn default() -> (r: ClientContext)
        ensures
            r.app_name@ == Seq::<char>::empty(),
            r.window_title@ == Seq::<char>::empty(),
    {
        ClientContext { app_name: String::new(), window_title: String::new() }
    }
}

/// A control frame the client sends.
#[allow(inconsistent_fields)]
pub enum ClientControl {
    Start { trace_id: String, sample_rate: u32, context: ClientContext, use_cloud_api: bool },
    Stop { trace_id: Option<String> },
}

/// One unit of outbound traffic: a control frame, or one encoded audio
/// packet sent as a binary frame.
pub enum NetworkCommand {
    SendControl(ClientControl),
    SendAudio { trace_id: String, seq: u64, bytes: Vec<u8> },
}

/// An inbound control frame, as specifications see it.
pub enum SpecServerEvent {
    Pong,
    FastText { trace_id: Option<Seq<char>>, content: Seq<char>, is_final: Option<bool> },
    Correction { trace_id: Option<Seq<char>>, replaced_text: Seq<char>, delete_count: u64 },
    Error { trace_id: Option<Seq<char>>, message: Seq<char> },
}

/// An inbound control frame: a heartbeat, a recognized transcript, a
/// server-driven correction, or a service error.
#[derive(Debug)]
pub enum ServerEvent {
    Pong,
    FastText { trace_id: Option<String>, content: String, is_final: Option<bool> },
    Correction { trace_id: Option<String>, replaced_text: String, delete_count: u64 },
    Error { trace_id: Option<String>, message: String },
}

pub open spec fn opt_string_view(o: &Option<String>) -> Option<Seq<char>> {
    match o {
        Some(s) => Some(s@),
        None => None,
    }
}

impl View for ServerEvent {
    type V = SpecServerEvent;

    open spec fn view(&self) -> SpecServerEvent {
        match self {
            ServerEvent::Pong => SpecServerEvent::Pong,
            ServerEvent::FastText { trace_id, content, is_final } => SpecServerEvent::FastText {
                trace_id: opt_string_view(trace_id),
                content: content@,
                is_final: *is_final,
            },
            ServerEvent::Correction {
                trace_id,
                replaced_text,
                delete_count,
            } => SpecServerEvent::Correction {
                trace_id: opt_string_view(trace_id),
                replaced_text: replaced_text@,
                delete_count: *delete_count,
            },
            ServerEvent::Error { trace_id, message } => SpecServerEvent::Error {
                trace_id: opt_string_view(trace_id),
                message: message@,
            },
        }
    }
}

// ---------------------------------------------------------------------------
// Outbound frames
// ---------------------------------------------------------------------------
/// The exact text of the session-start control frame.
pub open spec fn spec_start_frame(
    trace_id: Seq<char>,
    sample_rate: u32,
    app_name: Seq<char>,
    window_title: Seq<char>,
    use_cloud_api: bool,
) -> Seq<char> {
    "{\"type\":\"start\",\"trace_id\":"@ + quoted(trace_id) + ",\"sample_rate\":"@ + dec_digits(
        sample_rate as nat,
    ) + ",\"context\":{\"app_name\":"@ + quoted(app_name) + ",\"window_title\":"@ + quoted(
        window_title,
    ) + "},\"use_cloud_api\":"@ + (if use_cloud_api {
        "true"@
    } else {
        "false"@
    }) + "}"@
}

/// The exact text of the session-stop control frame; the trace id is left
/// out when none is known.
pub open spec fn spec_stop_frame(trace_id: Option<Seq<char>>) -> Seq<char> {
    match trace_id {
        Some(t) => "{\"type\":\"stop\",\"trace_id\":"@ + quoted(t) + "}"@,
        None => "{\"type\":\"stop\"}"@,
    }
}

/// Build the session-start control frame.
pub fn start_frame(
    trace_id: &String,
    sample_rate: u32,
    context: &ClientContext,
    use_cloud_api: bool,
) -> (r: String)
    ensures
        r@ == spec_start_frame(
            trace_id@,
            sample_rate,
            context.app_name@,
            context.window_title@,
            use_cloud_api,
        ),
{
    let mut out: Vec<char> = Vec::new();
    push_str_chars(&mut out, "{\"type\":\"start\",\"trace_id\":");
    let tid = chars_of(trace_id.as_str());
    push_quoted(&mut out, &tid);
    push_str_chars(&mut out, ",\"sample_rate\":");
    push_decimal(&mut out, sample_rate);
    push_str_chars(&mut out, ",\"context\":{\"app_name\":");
    let app = chars_of(context.app_name.as_str());
    push_quoted(&mut out, &app);
    push_str_chars(&mut out, ",\"window_title\":");
    let title = chars_of(context.window_title.as_str());
    push_quoted(&mut out, &title);
    push_str_chars(&mut out, "},\"use_cloud_api\":");
    if use_cloud_api {
        push_str_chars(&mut out, "true");
    } else {
        push_str_chars(&mut out, "false");
    }
    push_str_chars(&mut out, "}");
    proof {
        assert(out@ =~= spec_start_frame(
            trace_id@,
            sample_rate,
            context.app_name@,
            context.window_title@,
            use_cloud_api,
        ));
    }
    string_of(&out)
}

/// Build the session-stop control frame.
pub fn stop_frame(trace_id: &Option<String>) -> (r: String)
    ensures
        r@ == spec_stop_frame(opt_string_view(trace_id)),
{
    let mut out: Vec<char> = Vec::new();
    match trace_id {
        Some(t) => {
            push_str_chars(&mut out, "{\"type\":\"stop\",\"trace_id\":");
            let tid = chars_of(t.as_str());
            push_quoted(&mut out, &tid);
            push_str_chars(&mut out, "}");
        },
        None => {
            push_str_chars(&mut out, "{\"type\":\"stop\"}");
        },
    }
    proof {
        assert(out@ =~= spec_stop_frame(opt_string_view(trace_id)));
    }
    string_of(&out)
}

// ---------------------------------------------------------------------------
// Inbound frames
// ---------------------------------------------------------------------------
/// An optional string field: absent or null means none; any non-string,
/// non-null value is a type error.
pub open spec fn spec_opt_str_field(ms: Seq<(Seq<char>, SpecJson)>, key: Seq<char>) -> Option<
    Option<Seq<char>>,
> {
    match spec_find(ms, key) {
        None => Some(None),
        Some(SpecJson::Null) => Some(None),
        Some(SpecJson::Str(s)) => Some(Some(s)),
        Some(_) => None,
    }
}

/// An optional boolean field, by the same rule.
pub open spec fn spec_opt_bool_field(ms: Seq<(Seq<char>, SpecJson)>, key: Seq<char>) -> Option<
    Option<bool>,
> {
    match spec_find(ms, key) {
        None => Some(None),
        Some(SpecJson::Null) => Some(None),
        Some(SpecJson::Bool(b)) => Some(Some(b)),
        Some(_) => None,
    }
}

/// What an inbound text frame means. A frame that is not a single JSON
/// object, lacks a known `type` tag, or types a field wrongly means
/// nothing, and the session-stop wait skips it.
pub open spec fn spec_parse_event(s: Seq<char>) -> Option<SpecServerEvent> {
    match spec_parse_document(s) {
        None => None,
        Some(ms) => match spec_find(ms, "type"@) {
            Some(SpecJson::Str(tag)) => if tag == "pong"@ {
                Some(SpecServerEvent::Pong)
            } else if tag == "fast_text"@ {
                match (spec_find(ms, "content"@), spec_opt_str_field(ms, "trace_id"@),
                spec_opt_bool_field(ms, "is_final"@)) {
                    (Some(SpecJson::Str(content)), Some(trace_id), Some(is_final)) => Some(
                        SpecServerEvent::FastText { trace_id, content, is_final },
                    ),
                    _ => None,
                }
            } else if tag == "correction"@ {
                match (spec_find(ms, "replaced_text"@), spec_find(ms, "delete_count"@),
                spec_opt_str_field(ms, "trace_id"@)) {
                    (Some(SpecJson::Str(replaced_text)), Some(SpecJson::Int(delete_count)), Some(
                        trace_id,
                    )) => Some(
                        SpecServerEvent::Correction { trace_id, replaced_text, delete_count },
                    ),
                    _ => None,
                }
            } else if tag == "error"@ {
                match (spec_find(ms, "message"@), spec_opt_str_field(ms, "trace_id"@)) {
                    (Some(SpecJson::Str(message)), Some(trace_id)) => Some(
                        SpecServerEvent::Error { trace_id, message },
                    ),
                    _ => None,
                }
            } else {
                None
            },
            _ => None,
        },
    }
}

/// Fetch an optional string field from parsed members.
fn opt_str_field(ms: &Vec<(Vec<char>, JsonValue)>, key: &str) -> (r: Option<Option<String>>)
    ensures
        match spec_opt_str_field(crate::json::members_view(ms@), key@) {
            Some(v) => r matches Some(o) && opt_string_view(&o) == v,
            None => r is None,
        },
{
    let k = chars_of(key);
    match find_member(ms, &k) {
        None => Some(None),
        Some(ix) => match &ms[ix].1 {
            JsonValue::Null => Some(None),
            JsonValue::Str(v) => Some(Some(string_of(v))),
            _ => None,
        },
    }
}

/// Fetch an optional boolean field from parsed members.
fn opt_bool_field(ms: &Vec<(Vec<char>, JsonValue)>, key: &str) -> (r: Option<Option<bool>>)
    ensures
        match spec_opt_bool_field(crate::json::members_view(ms@), key@) {
            Some(v) => r == Some(v),
            None => r is None,
        },
{
    let k = chars_of(key);
    match find_member(ms, &k) {
        None => Some(None),
        Some(ix) => match &ms[ix].1 {
            JsonValue::Null => Some(None),
            JsonValue::Bool(b) => Some(Some(*b)),
            _ => None,
        },
    }
}

/// Fetch a required string field from parsed members.
fn req_str_field(ms: &Vec<(Vec<char>, JsonValue)>, key: &str) -> (r: Option<String>)
    ensures
        match spec_find(crate::json::members_view(ms@), key@) {
            Some(SpecJson::Str(v)) => r matches Some(s) && s@ == v,
            _ => r is None,
        },
{
    let k = chars_of(key);
    match find_member(ms, &k) {
        None => None,
        Some(ix) => match &ms[ix].1 {
            JsonValue::Str(v) => Some(string_of(v)),
            _ => None,
        },
    }
}

/// Read one inbound text frame.
pub fn parse_server_event(text: &str) -> (r: Option<ServerEvent>)
    ensures
        match spec_parse_event(text@) {
            Some(se) => r matches Some(e) && e@ == se,
            None => r is None,
        },
{
    let chars = chars_of(text);
    let Some(ms) = parse_document(&chars) else { return None };
    let Some(tag) = req_str_field(&ms, "type") else { return None };
    let pong: String = "pong".to_owned();
    if tag == pong {
        return Some(ServerEvent::Pong);
    }
    let fast_text: String = "fast_text".to_owned();
    if tag == fast_text {
        let Some(content) = req_str_field(&ms, "content") else { return None };
        let Some(trace_id) = opt_str_field(&ms, "trace_id") else { return None };
        let Some(is_final) = opt_bool_field(&ms, "is_final") else { return None };
        return Some(ServerEvent::FastText { trace_id, content, is_final });
    }
    let correction: String = "correction".to_owned();
    if tag == correction {
        let Some(replaced_text) = req_str_field(&ms, "replaced_text") else { return None };
        let count_key = chars_of("delete_count");
        let delete_count: u64 = match find_member(&ms, &count_key) {
            Some(ix) => match &ms[ix].1 {
                JsonValue::Int(n) => *n,
                _ => { return None },
            },
            None => { return None },
        };
        let Some(trace_id) = opt_str_field(&ms, "trace_id") else { return None };
        return Some(ServerEvent::Correction { trace_id, replaced_text, delete_count });
    }
    let error_tag: String = "error".to_owned();
    if tag == error_tag {
        let Some(message) = req_str_field(&ms, "message") else { return None };
        let Some(trace_id) = opt_str_field(&ms, "trace_id") else { return None };
        return Some(ServerEvent::Error { trace_id, message });
    }
    None
}

/// The connectivity probe frame.
pub fn ping_frame() -> (r: String)
    ensures
        r@ == "{\"type\":\"ping\"}"@,
{
    let mut out: Vec<char> = Vec::new();
    push_str_chars(&mut out, "{\"type\":\"ping\"}");
    string_of(&out)
}

/// Whether an inbound text frame answers the connectivity probe.
pub fn is_pong(text: &str) -> (r: bool)
    ensures
        r == (spec_parse_event(text@) == Some(SpecServerEvent::Pong)),
{
    match parse_server_event(text) {
        Some(ServerEvent::Pong) => true,
        _ => false,
    }
}

/// Whether a version reply from the local correction service names a
/// version: a JSON object whose `version` field is a non-blank string.
pub fn version_reply_healthy(body: &str) -> (r: bool)
    ensures
        r == match spec_parse_document(body@) {
            Some(ms) => spec_find(ms, "version"@) matches Some(SpecJson::Str(v))
                && crate::text::trim_of(v).len() > 0,
            None => false,
        },
{
    let chars = chars_of(body);
    let Some(ms) = parse_document(&chars) else { return false };
    let key = chars_of("version");
    let Some(ix) = find_member(&ms, &key) else { return false };
    match &ms[ix].1 {
        JsonValue::Str(v) => {
            let s = string_of(v);
            let trimmed = crate::text::trim_str(s.as_str());
            !trimmed.as_str().is_empty()
        },
        _ => false,
    }
}

} // verus!
