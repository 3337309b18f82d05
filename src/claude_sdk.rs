use vstd::prelude::*;

use crate::codex::{push_text, texts};
use crate::events::{delta_of, push_delta, views, EventView, OrchestratorEvent};
use crate::ids::{random_uuid, uuid_text, uuid_to_string};
use crate::json::{json_parse, opt_view, parse_json, push_member, text_or, view_members, view_or_empty, JsonValue, JsonView};
use crate::session::SessionId;
use crate::text::{join2, str_eq, trim, trimmed};

verus! {

/// Launch arguments used when the configuration gives none.
pub open spec fn default_claude_args() -> Seq<Seq<char>> {
    seq![
        "-p"@,
        "--verbose"@,
        "--output-format=stream-json"@,
        "--input-format=stream-json"@,
        "--include-partial-messages"@,
        "--replay-user-messages"@,
        "--permission-prompt-tool=stdio"@,
        "--permission-mode=bypassPermissions"@,
    ]
}

/// Launch arguments of the agent process: the configured ones, or the
/// streaming defaults when there are none.
pub fn effective_args(config_args: &Vec<String>) -> (r: Vec<String>)
    ensures
        config_args@.len() == 0 ==> texts(r@) == default_claude_args(),
        config_args@.len() > 0 ==> texts(r@) == texts(config_args@),
{
    let mut out: Vec<String> = Vec::new();
    if config_args.len() == 0 {
        out.push(String::from_str("-p"));
        out.push(String::from_str("--verbose"));
        out.push(String::from_str("--output-format=stream-json"));
        out.push(String::from_str("--input-format=stream-json"));
        out.push(String::from_str("--include-partial-messages"));
        out.push(String::from_str("--replay-user-messages"));
        out.push(String::from_str("--permission-prompt-tool=stdio"));
        out.push(String::from_str("--permission-mode=bypassPermissions"));
        assert(texts(out@) =~= default_claude_args());
        return out;
    }
    let mut i: usize = 0;
    while i < config_args.len()
        invariant
            i <= config_args@.len(),
            texts(out@) == texts(config_args@).subrange(0, i as int),
        decreases config_args@.len() - i,
    {
        push_text(&mut out, config_args[i].clone());
        i = i + 1;
        assert(texts(out@) =~= texts(config_args@).subrange(0, i as int));
    }
    assert(texts(config_args@).subrange(0, i as int) =~= texts(config_args@));
    out
}

/// A fresh identity for a control request.
pub fn new_request_id() -> (r: String)
    ensures
        exists|v: u128| r@ == uuid_text(v),
{
    let v = random_uuid();
    uuid_to_string(v)
}

fn object1(k: &str, v: JsonValue) -> (r: JsonValue)
    ensures
        r@ == JsonView::Object(seq![(k@, v@)]),
{
    let mut m: Vec<(String, JsonValue)> = Vec::new();
    assert(view_members(m@) =~= Seq::<(Seq<char>, JsonView)>::empty());
    push_member(&mut m, k, v);
    assert(view_members(m@) =~= seq![(k@, v@)]);
    JsonValue::Object(m)
}

fn object2(k1: &str, v1: JsonValue, k2: &str, v2: JsonValue) -> (r: JsonValue)
    ensures
        r@ == JsonView::Object(seq![(k1@, v1@), (k2@, v2@)]),
{
    let mut m: Vec<(String, JsonValue)> = Vec::new();
    assert(view_members(m@) =~= Seq::<(Seq<char>, JsonView)>::empty());
    push_member(&mut m, k1, v1);
    push_member(&mut m, k2, v2);
    assert(view_members(m@) =~= seq![(k1@, v1@), (k2@, v2@)]);
    JsonValue::Object(m)
}

fn object3(k1: &str, v1: JsonValue, k2: &str, v2: JsonValue, k3: &str, v3: JsonValue) -> (r: JsonValue)
    ensures
        r@ == JsonView::Object(seq![(k1@, v1@), (k2@, v2@), (k3@, v3@)]),
{
    let mut m: Vec<(String, JsonValue)> = Vec::new();
    assert(view_members(m@) =~= Seq::<(Seq<char>, JsonView)>::empty());
    push_member(&mut m, k1, v1);
    push_member(&mut m, k2, v2);
    push_member(&mut m, k3, v3);
    assert(view_members(m@) =~= seq![(k1@, v1@), (k2@, v2@), (k3@, v3@)]);
    JsonValue::Object(m)
}

/// A control request to the agent, carrying `request`.
pub open spec fn control_request(request_id: Seq<char>, request: JsonView) -> JsonView {
    JsonView::Object(seq![
        ("type"@, JsonView::Str("control_request"@)),
        ("request_id"@, JsonView::Str(request_id)),
        ("request"@, request),
    ])
}

/// The handshake sent after launch, without waiting for a reply.
pub fn initialize_message(request_id: &str) -> (r: JsonValue)
    ensures
        r@ == control_request(request_id@, JsonView::Object(seq![("subtype"@, JsonView::Str("initialize"@))])),
{
    let req = object1("subtype", JsonValue::string("initialize"));
    object3(
        "type",
        JsonValue::string("control_request"),
        "request_id",
        JsonValue::string(request_id),
        "request",
        req,
    )
}

/// The directive that sets the permission mode, sent after the handshake.
pub fn permission_mode_message(request_id: &str) -> (r: JsonValue)
    ensures
        r@ == control_request(request_id@, JsonView::Object(seq![
            ("subtype"@, JsonView::Str("set_permission_mode"@)),
            ("mode"@, JsonView::Str("bypassPermissions"@)),
        ])),
{
    let req = object2(
        "subtype",
        JsonValue::string("set_permission_mode"),
        "mode",
        JsonValue::string("bypassPermissions"),
    );
    object3(
        "type",
        JsonValue::string("control_request"),
        "request_id",
        JsonValue::string(request_id),
        "request",
        req,
    )
}

/// A prompt, as a structured user message.
pub fn user_message(prompt: &str) -> (r: JsonValue)
    ensures
        r@ == JsonView::Object(seq![
            ("type"@, JsonView::Str("user"@)),
            ("message"@, JsonView::Object(seq![("role"@, JsonView::Str("user"@)), ("content"@, JsonView::Str(prompt@))])),
        ]),
{
    let msg = object2("role", JsonValue::string("user"), "content", JsonValue::string(prompt));
    object2("type", JsonValue::string("user"), "message", msg)
}

/// A successful answer to control request `request_id`.
pub open spec fn control_success(request_id: Seq<char>, response: JsonView) -> JsonView {
    JsonView::Object(seq![
        ("type"@, JsonView::Str("control_response"@)),
        ("response"@, JsonView::Object(seq![
            ("subtype"@, JsonView::Str("success"@)),
            ("request_id"@, JsonView::Str(request_id)),
            ("response"@, response),
        ])),
    ])
}

/// A refusal of control request `request_id`.
pub open spec fn control_error(request_id: Seq<char>, error: Seq<char>) -> JsonView {
    JsonView::Object(seq![
        ("type"@, JsonView::Str("control_response"@)),
        ("response"@, JsonView::Object(seq![
            ("subtype"@, JsonView::Str("error"@)),
            ("request_id"@, JsonView::Str(request_id)),
            ("error"@, JsonView::Str(error)),
        ])),
    ])
}

fn success_reply(request_id: &str, response: JsonValue) -> (r: JsonValue)
    ensures
        r@ == control_success(request_id@, response@),
{
    let inner = object3(
        "subtype",
        JsonValue::string("success"),
        "request_id",
        JsonValue::string(request_id),
        "response",
        response,
    );
    object2("type", JsonValue::string("control_response"), "response", inner)
}

fn error_reply(request_id: &str, error: &str) -> (r: JsonValue)
    ensures
        r@ == control_error(request_id@, error@),
{
    let inner = object3(
        "subtype",
        JsonValue::string("error"),
        "request_id",
        JsonValue::string(request_id),
        "error",
        JsonValue::string(error),
    );
    object2("type", JsonValue::string("control_response"), "response", inner)
}

/// The approval of a hook callback.
pub open spec fn hook_approval() -> JsonView {
    JsonView::Object(seq![(
        "hookSpecificOutput"@,
        JsonView::Object(seq![
            ("hookEventName"@, JsonView::Str("PreToolUse"@)),
            ("permissionDecision"@, JsonView::Str("allow"@)),
            ("permissionDecisionReason"@, JsonView::Str("Approved by orchestrator"@)),
        ]),
    )])
}

/// The answer to a control request that the agent sent: tool use and hook
/// callbacks are approved; any other subtype is refused, by name.
pub open spec fn control_reply(payload: JsonValue) -> JsonView {
    let request_id = text_or(payload.str_field("request_id"@), Seq::empty());
    let subtype = match payload.field("request"@) {
        Some(req) => text_or(req.str_field("subtype"@), Seq::empty()),
        None => Seq::empty(),
    };
    if subtype == "can_use_tool"@ {
        let input = match payload.field("request"@) {
            Some(req) => view_or_empty(req.field("input"@)),
            None => JsonView::Object(Seq::empty()),
        };
        control_success(request_id, JsonView::Object(seq![
            ("behavior"@, JsonView::Str("allow"@)),
            ("updatedInput"@, input),
        ]))
    } else if subtype == "hook_callback"@ {
        control_success(request_id, hook_approval())
    } else {
        control_error(request_id, "unsupported control request subtype: "@ + subtype)
    }
}

pub fn handle_control_request(payload: &JsonValue) -> (r: JsonValue)
    ensures
        r@ == control_reply(*payload),
{
    proof {
        reveal_strlit("");
        assert(""@ =~= Seq::<char>::empty());
    }
    let request_id = payload.str_field_or("request_id", "");
    let subtype = match payload.get("request") {
        Some(req) => req.str_field_or("subtype", ""),
        None => String::new(),
    };
    if str_eq(subtype.as_str(), "can_use_tool") {
        let input = match payload.get("request") {
            Some(req) => req.field_or_empty("input"),
            None => JsonValue::empty_object(),
        };
        let response = object2("behavior", JsonValue::string("allow"), "updatedInput", input);
        return success_reply(request_id.as_str(), response);
    }
    if str_eq(subtype.as_str(), "hook_callback") {
        let out = object3(
            "hookEventName",
            JsonValue::string("PreToolUse"),
            "permissionDecision",
            JsonValue::string("allow"),
            "permissionDecisionReason",
            JsonValue::string("Approved by orchestrator"),
        );
        let response = object1("hookSpecificOutput", out);
        return success_reply(request_id.as_str(), response);
    }
    let error = join2("unsupported control request subtype: ", subtype.as_str());
    error_reply(request_id.as_str(), error.as_str())
}

/// The events of a streaming event message: a text delta becomes a content
/// delta (nothing when empty), the start of a tool-use block a tool call.
pub open spec fn stream_events(sid: SessionId, payload: JsonValue) -> Seq<EventView> {
    match payload.field("event"@) {
        Some(ev) => if ev is Object {
            let kind = text_or(ev.str_field("type"@), Seq::empty());
            if kind == "content_block_delta"@ {
                let text = match ev.field("delta"@) {
                    Some(d) => if d.str_field("type"@) == Some("text_delta"@) {
                        text_or(d.str_field("text"@), Seq::empty())
                    } else {
                        Seq::empty()
                    },
                    None => Seq::empty(),
                };
                delta_of(sid, text)
            } else if kind == "content_block_start"@ {
                match ev.field("content_block"@) {
                    Some(b) => if b.str_field("type"@) == Some("tool_use"@) {
                        seq![EventView::ToolCall {
                            session_id: sid,
                            tool_name: text_or(b.str_field("name"@), "unknown"@),
                            args: view_or_empty(b.field("input"@)),
                        }]
                    } else {
                        Seq::empty()
                    },
                    None => Seq::empty(),
                }
            } else {
                Seq::empty()
            }
        } else {
            Seq::empty()
        },
        None => Seq::empty(),
    }
}

pub fn handle_stream_event(sid: SessionId, payload: &JsonValue) -> (r: Vec<OrchestratorEvent>)
    ensures
        views(r@) == stream_events(sid, *payload),
{
    let mut out: Vec<OrchestratorEvent> = Vec::new();
    assert(views(out@) =~= Seq::<EventView>::empty());
    proof {
        reveal_strlit("");
        assert(""@ =~= Seq::<char>::empty());
        reveal_strlit("text_delta");
        reveal_strlit("tool_use");
    }
    let ev = match payload.get("event") {
        Some(ev) => ev,
        None => return out,
    };
    let is_object = match ev {
        JsonValue::Object(_) => true,
        _ => false,
    };
    if !is_object {
        return out;
    }
    let kind = ev.str_field_or("type", "");
    if str_eq(kind.as_str(), "content_block_delta") {
        let text = match ev.get("delta") {
            Some(d) => {
                let is_text = match d.get_str("type") {
                    Some(t) => str_eq(t.as_str(), "text_delta"),
                    None => false,
                };
                if is_text {
                    d.str_field_or("text", "")
                } else {
                    String::new()
                }
            },
            None => String::new(),
        };
        push_delta(&mut out, sid, text);
    } else if str_eq(kind.as_str(), "content_block_start") {
        if let Some(b) = ev.get("content_block") {
            let is_tool = match b.get_str("type") {
                Some(t) => str_eq(t.as_str(), "tool_use"),
                None => false,
            };
            if is_tool {
                let tool_name = b.str_field_or("name", "unknown");
                let args = b.field_or_empty("input");
                let ghost before = out@;
                out.push(OrchestratorEvent::ToolCall { session_id: sid, tool_name, args });
                assert(views(out@) =~= views(before).push(out@.last()@));
            }
        }
    }
    out
}

/// What one output line asks of the adapter: events to send, and an answer
/// to write back to the agent.
#[derive(Debug)]
pub struct LineOutcome {
    pub events: Vec<OrchestratorEvent>,
    pub reply: Option<JsonValue>,
}

/// Text of a result message flagged as an error.
pub open spec fn result_error_text(payload: JsonValue) -> Seq<char> {
    text_or(payload.str_field("error"@), "agent result reported error"@)
}

/// `events` and `reply` are what output line `line`, read as `parsed`,
/// asks for.
pub open spec fn line_outcome(
    sid: SessionId,
    line: Seq<char>,
    parsed: Option<JsonValue>,
    outcome_events: Seq<OrchestratorEvent>,
    reply: Option<JsonValue>,
) -> bool {
    &&& (trimmed(line).len() == 0 || parsed is None) ==> outcome_events.len() == 0 && reply is None
    &&& trimmed(line).len() > 0 && parsed is Some ==> {
        let p = parsed->0;
        let kind = text_or(p.str_field("type"@), Seq::empty());
        &&& kind == "control_request"@ ==> outcome_events.len() == 0 && reply is Some && reply->0@ == control_reply(p)
        &&& kind == "stream_event"@ ==> views(outcome_events) == stream_events(sid, p) && reply is None
        &&& kind == "result"@ ==> reply is None && (if p.field("is_error"@) == Some(JsonValue::Bool(true)) {
            views(outcome_events) == seq![EventView::SessionError { session_id: sid, error: result_error_text(p) }]
        } else {
            outcome_events.len() == 0
        })
        &&& kind != "control_request"@ && kind != "stream_event"@ && kind != "result"@ ==> outcome_events.len() == 0
            && reply is None
    }
}

/// The outcome of one line of output. `parsed` is what a JSON reader made of
/// the line's trimmed text. Blank and non-JSON lines are skipped; a control
/// request is answered; a streaming event gives its events; a result flagged
/// as an error gives a session error.
pub fn decode_line(sid: SessionId, line: &str, parsed: Option<JsonValue>) -> (r: LineOutcome)
    ensures
        line_outcome(sid, line@, parsed, r.events@, r.reply),
{
    let none = LineOutcome { events: Vec::new(), reply: None };
    let text = trim(line);
    if text.as_str().unicode_len() == 0 {
        return none;
    }
    let p = match &parsed {
        Some(p) => p,
        None => return none,
    };
    proof {
        reveal_strlit("");
        assert(""@ =~= Seq::<char>::empty());
        reveal_strlit("control_request");
        reveal_strlit("stream_event");
        reveal_strlit("result");
        assert("control_request"@ != "stream_event"@ && "control_request"@ != "result"@ && "stream_event"@ != "result"@) by {
            assert("control_request"@.len() != "stream_event"@.len());
            assert("control_request"@.len() != "result"@.len());
            assert("stream_event"@.len() != "result"@.len());
        }
    }
    let kind = p.str_field_or("type", "");
    if str_eq(kind.as_str(), "control_request") {
        return LineOutcome { events: Vec::new(), reply: Some(handle_control_request(p)) };
    }
    if str_eq(kind.as_str(), "stream_event") {
        return LineOutcome { events: handle_stream_event(sid, p), reply: None };
    }
    if str_eq(kind.as_str(), "result") {
        let is_error = match p.get("is_error") {
            Some(JsonValue::Bool(b)) => *b,
            _ => false,
        };
        if is_error {
            let error = p.str_field_or("error", "agent result reported error");
            let mut events: Vec<OrchestratorEvent> = Vec::new();
            events.push(OrchestratorEvent::SessionError { session_id: sid, error });
            assert(views(events@) =~= seq![EventView::SessionError { session_id: sid, error: result_error_text(*p) }]);
            return LineOutcome { events, reply: None };
        }
    }
    none
}

/// The outcome of one line of output, read as JSON by serde_json.
pub fn read_output_line(sid: SessionId, line: &str) -> (r: LineOutcome)
    ensures
        exists|p: Option<JsonValue>| opt_view(p) == json_parse(trimmed(line@))
            && line_outcome(sid, line@, p, r.events@, r.reply),
{
    let t = trim(line);
    let parsed = parse_json(t.as_str());
    decode_line(sid, line, parsed)
}

/// The session error raised when an answer to a control request could not
/// be written.
pub fn reply_failed(sid: SessionId, error: &str) -> (r: OrchestratorEvent)
    ensures
        r@ == (EventView::SessionError { session_id: sid, error: "failed to respond to control request: "@ + error@ }),
{
    OrchestratorEvent::SessionError {
        session_id: sid,
        error: join2("failed to respond to control request: ", error),
    }
}

/// Why the agent's output ended.
pub open spec fn end_text(read_error: Option<&str>) -> Seq<char> {
    match read_error {
        Some(e) => "failed to read agent output: "@ + e@,
        None => "agent process terminated"@,
    }
}

/// The event for the end of the agent's output: none when the shutdown was
/// intended, otherwise a session error.
pub fn on_output_end(sid: SessionId, intentional: bool, read_error: Option<&str>) -> (r: Option<OrchestratorEvent>)
    ensures
        intentional ==> r is None,
        !intentional ==> r is Some && r->0@ == (EventView::SessionError { session_id: sid, error: end_text(read_error) }),
{
    if intentional {
        return None;
    }
    let error = match read_error {
        Some(e) => join2("failed to read agent output: ", e),
        None => String::from_str("agent process terminated"),
    };
    Some(OrchestratorEvent::SessionError { session_id: sid, error })
}

} // verus!
