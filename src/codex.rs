use vstd::prelude::*;

use crate::events::{delta_of, push_delta, push_event, views, EventView, OrchestratorEvent};
use crate::json::{json_parse, opt_view, parse_json, present, text_or, text_slot, view_of, view_or_empty, JsonValue};
use crate::session::{copy_opt_string, SessionId};
use crate::text::{decimal_text, int_text, join2, join3, str_eq, trim, trimmed};

verus! {

/// Reasoning effort passed to the JSON-lines notification agent.
#[derive(Debug, Clone, Copy, PartialEq, Eq, Structural)]
pub enum ReasoningEffort {
    Low,
    Medium,
    High,
}

/// The name the agent's command line uses for an effort.
pub open spec fn effort_text(e: ReasoningEffort) -> Seq<char> {
    match e {
        ReasoningEffort::Low => "low"@,
        ReasoningEffort::Medium => "medium"@,
        ReasoningEffort::High => "high"@,
    }
}

impl ReasoningEffort {
    pub fn as_str(&self) -> (r: &'static str)
        ensures
            r@ == effort_text(*self),
    {
        match self {
            ReasoningEffort::Low => "low",
            ReasoningEffort::Medium => "medium",
            ReasoningEffort::High => "high",
        }
    }

    pub fn to_string(&self) -> (r: String)
        ensures
            r@ == effort_text(*self),
    {
        String::from_str(self.as_str())
    }
}

impl Default for ReasoningEffort {
    fn default() -> (r: Self)
        ensures
            r == ReasoningEffort::Medium,
    {
        ReasoningEffort::Medium
    }
}

/// Model settings of the JSON-lines notification agent.
#[derive(Debug, Clone, PartialEq, Eq)]
pub struct CodexModelOptions {
    pub model: Option<String>,
    pub reasoning_effort: Option<ReasoningEffort>,
}

impl Default for CodexModelOptions {
    fn default() -> (r: Self)
        ensures
            r.model is None,
            r.reasoning_effort is None,
    {
        CodexModelOptions { model: None, reasoning_effort: None }
    }
}

/// The texts of a list of strings.
pub open spec fn texts(v: Seq<String>) -> Seq<Seq<char>> {
    v.map_values(|s: String| s@)
}

/// The launch arguments: the configured ones (or `exec --json` when there are
/// none), then `-c model=<m>` and `-c reasoning.effort=<e>` for the settings
/// that are given.
pub open spec fn codex_args(args: Seq<Seq<char>>, model: Option<Seq<char>>, effort: Option<ReasoningEffort>) -> Seq<Seq<char>> {
    let base = if args.len() == 0 { seq!["exec"@, "--json"@] } else { args };
    let with_model = match model {
        Some(m) => base + seq!["-c"@, "model="@ + m],
        None => base,
    };
    match effort {
        Some(e) => with_model + seq!["-c"@, "reasoning.effort="@ + effort_text(e)],
        None => with_model,
    }
}

pub(crate) fn push_text(v: &mut Vec<String>, s: String)
    ensures
        texts(final(v)@) == texts(old(v)@).push(s@),
{
    let ghost before = v@;
    v.push(s);
    assert(texts(v@) =~= texts(before).push(s@));
}

/// Launch arguments of the agent process.
pub fn effective_args(config_args: &Vec<String>, options: &CodexModelOptions) -> (r: Vec<String>)
    ensures
        texts(r@) == codex_args(
            texts(config_args@),
            crate::events::opt_text(options.model),
            options.reasoning_effort,
        ),
{
    let mut args: Vec<String> = Vec::new();
    if config_args.len() == 0 {
        push_text(&mut args, String::from_str("exec"));
        push_text(&mut args, String::from_str("--json"));
        assert(texts(args@) =~= seq!["exec"@, "--json"@]);
    } else {
        let mut i: usize = 0;
        while i < config_args.len()
            invariant
                i <= config_args@.len(),
                texts(args@) == texts(config_args@).subrange(0, i as int),
            decreases config_args@.len() - i,
        {
            push_text(&mut args, config_args[i].clone());
            i = i + 1;
            assert(texts(args@) =~= texts(config_args@).subrange(0, i as int));
        }
        assert(texts(config_args@).subrange(0, i as int) =~= texts(config_args@));
    }
    let ghost base = texts(args@);
    if let Some(m) = &options.model {
        push_text(&mut args, String::from_str("-c"));
        push_text(&mut args, join2("model=", m.as_str()));
        assert(texts(args@) =~= base + seq!["-c"@, "model="@ + m@]);
    }
    let ghost with_model = texts(args@);
    if let Some(e) = &options.reasoning_effort {
        push_text(&mut args, String::from_str("-c"));
        push_text(&mut args, join2("reasoning.effort=", e.as_str()));
        assert(texts(args@) =~= with_model + seq!["-c"@, "reasoning.effort="@ + effort_text(*e)]);
    }
    args
}

/// The line that carries a prompt to the agent: the prompt's text as it is,
/// then a newline. No envelope is added.
pub fn prompt_line(prompt: &str) -> (r: String)
    ensures
        r@ == prompt@ + "\n"@,
{
    join2(prompt, "\n")
}

/// The error object of a message.
#[derive(Debug, Clone, PartialEq, Eq)]
pub struct CodexError {
    pub code: i32,
    pub message: String,
}

/// A message on the agent's output: a notification, a response, or both.
#[derive(Debug)]
pub struct CodexMessage {
    pub jsonrpc: Option<String>,
    pub id: Option<String>,
    pub method: Option<String>,
    pub params: Option<JsonValue>,
    pub result: Option<JsonValue>,
    pub error: Option<CodexError>,
}

/// The `code` member of an error object: 0 when absent, an `i32`, or no fit.
pub open spec fn code_slot(f: Option<JsonValue>) -> Option<i32> {
    match f {
        None => Some(0i32),
        Some(JsonValue::Integer(n)) => if i32::MIN <= n <= i32::MAX { Some(n as i32) } else { None },
        _ => None,
    }
}

/// The error object as a message reader takes it: absent or `null` is
/// nothing; an object needs a fitting `code` and `message`.
pub open spec fn error_slot(f: Option<JsonValue>) -> Option<Option<(i32, Seq<char>)>> {
    match f {
        None => Some(None),
        Some(JsonValue::Null) => Some(None),
        Some(e) => if e is Object && code_slot(e.field("code"@)) is Some && text_slot(e.field("message"@)) is Some {
            Some(Some((code_slot(e.field("code"@))->0, text_or(text_slot(e.field("message"@))->0, Seq::empty()))))
        } else {
            None
        },
    }
}

/// Whether `v` reads as a message: an object whose known members have
/// fitting types.
pub open spec fn is_message(v: JsonValue) -> bool {
    &&& v is Object
    &&& text_slot(v.field("jsonrpc"@)) is Some
    &&& text_slot(v.field("id"@)) is Some
    &&& text_slot(v.field("method"@)) is Some
    &&& error_slot(v.field("error"@)) is Some
}

impl CodexMessage {
    /// The message that `v` holds.
    pub open spec fn read_from(self, v: JsonValue) -> bool {
        &&& Some(crate::events::opt_text(self.jsonrpc)) == text_slot(v.field("jsonrpc"@))
        &&& Some(crate::events::opt_text(self.id)) == text_slot(v.field("id"@))
        &&& Some(crate::events::opt_text(self.method)) == text_slot(v.field("method"@))
        &&& crate::json::opt_view(self.params) == crate::json::opt_view(present(v.field("params"@)))
        &&& crate::json::opt_view(self.result) == crate::json::opt_view(present(v.field("result"@)))
        &&& error_slot(v.field("error"@)) == Some(match self.error {
            Some(e) => Some((e.code, e.message@)),
            None => None,
        })
    }

    fn read_error(v: &JsonValue) -> (r: Result<Option<CodexError>, ()>)
        ensures
            match r {
                Ok(e) => error_slot(v.field("error"@)) == Some(match e {
                    Some(x) => Some((x.code, x.message@)),
                    None => None,
                }),
                Err(_) => error_slot(v.field("error"@)) is None,
            },
    {
        proof {
            reveal_strlit("error");
        }
        match v.get("error") {
            None => Ok(None),
            Some(JsonValue::Null) => Ok(None),
            Some(e) => {
                let is_object = match e {
                    JsonValue::Object(_) => true,
                    _ => false,
                };
                if !is_object {
                    return Err(());
                }
                let code: i32 = match e.get("code") {
                    None => 0,
                    Some(JsonValue::Integer(n)) => {
                        if *n < -2147483648 || *n > 2147483647 {
                            return Err(());
                        }
                        *n as i32
                    },
                    Some(_) => return Err(()),
                };
                let message = match e.read_text("message") {
                    Ok(Some(t)) => t,
                    Ok(None) => String::new(),
                    Err(_) => return Err(()),
                };
                Ok(Some(CodexError { code, message }))
            },
        }
    }

    /// Reads a message from a JSON value; `None` when the value is not one.
    pub fn from_json(v: &JsonValue) -> (r: Option<CodexMessage>)
        ensures
            r is Some <==> is_message(*v),
            r is Some ==> r->0.read_from(*v),
    {
        let is_object = match v {
            JsonValue::Object(_) => true,
            _ => false,
        };
        if !is_object {
            return None;
        }
        let jsonrpc = match v.read_text("jsonrpc") {
            Ok(t) => t,
            Err(_) => return None,
        };
        let id = match v.read_text("id") {
            Ok(t) => t,
            Err(_) => return None,
        };
        let method = match v.read_text("method") {
            Ok(t) => t,
            Err(_) => return None,
        };
        let error = match CodexMessage::read_error(v) {
            Ok(e) => e,
            Err(_) => return None,
        };
        let params = v.read_present("params");
        let result = v.read_present("result");
        Some(CodexMessage { jsonrpc, id, method, params, result, error })
    }
}

/// The events of an item lifecycle notification's item.
pub open spec fn item_events(sid: SessionId, item: JsonValue) -> Seq<EventView> {
    match item.str_field("type"@) {
        Some(t) => if t == "tool_call"@ {
            seq![EventView::ToolCall {
                session_id: sid,
                tool_name: text_or(item.str_field("tool_name"@), "unknown"@),
                args: view_or_empty(item.field("arguments"@)),
            }]
        } else if t == "file_change"@ {
            seq![EventView::FileChange {
                session_id: sid,
                path: text_or(item.str_field("path"@), "unknown"@),
                action: text_or(item.str_field("action"@), "unknown"@),
                content: item.str_field("content"@),
                diff: item.str_field("diff"@),
            }]
        } else if t == "message"@ {
            match item.str_field("content"@) {
                Some(c) => delta_of(sid, c),
                None => Seq::empty(),
            }
        } else {
            Seq::empty()
        },
        None => Seq::empty(),
    }
}

/// The events of a notification with method `method` and parameters `params`.
pub open spec fn notification_events(sid: SessionId, method: Seq<char>, params: Option<JsonValue>) -> Seq<EventView> {
    match params {
        None => Seq::empty(),
        Some(p) => if method == "turn/plan/updated"@ {
            match p.str_field("explanation"@) {
                Some(x) => delta_of(sid, "[Plan] "@ + x + "\n"@),
                None => Seq::empty(),
            }
        } else if method == "turn/diff/updated"@ {
            match p.str_field("diff"@) {
                Some(d) => seq![EventView::FileChange {
                    session_id: sid,
                    path: "multiple"@,
                    action: "edit"@,
                    content: None,
                    diff: Some(d),
                }],
                None => Seq::empty(),
            }
        } else if method == "item/started"@ || method == "item/completed"@ {
            match p.field("item"@) {
                Some(item) => item_events(sid, item),
                None => Seq::empty(),
            }
        } else if method == "thread/tokenUsage/updated"@ {
            seq![EventView::TokenUsage { session_id: sid, usage: view_of(p) }]
        } else {
            Seq::empty()
        },
    }
}

/// The text of a reported error.
pub open spec fn error_text(code: i32, message: Seq<char>) -> Seq<char> {
    "Codex error ("@ + decimal_text(code as int) + "): "@ + message
}

/// The events of a message: those of its notification, then a content delta
/// for a result's `content`, then a session error for its error object.
pub open spec fn message_events(sid: SessionId, m: CodexMessage) -> Seq<EventView> {
    let from_method = match m.method {
        Some(method) => notification_events(sid, method@, m.params),
        None => Seq::empty(),
    };
    let from_result = match m.result {
        Some(res) => match res.str_field("content"@) {
            Some(c) => delta_of(sid, c),
            None => Seq::empty(),
        },
        None => Seq::empty(),
    };
    let from_error = match m.error {
        Some(e) => seq![EventView::SessionError { session_id: sid, error: error_text(e.code, e.message@) }],
        None => Seq::empty(),
    };
    from_method + from_result + from_error
}

fn item_to_events(sid: SessionId, item: &JsonValue, out: &mut Vec<OrchestratorEvent>)
    ensures
        views(final(out)@) == views(old(out)@) + item_events(sid, *item),
{
    let ghost before = views(out@);
    proof {
        reveal_strlit("tool_call");
        reveal_strlit("file_change");
        reveal_strlit("message");
    }
    match item.get_str("type") {
        Some(t) => {
            if str_eq(t.as_str(), "tool_call") {
                let tool_name = item.str_field_or("tool_name", "unknown");
                let args = item.field_or_empty("arguments");
                push_event(out, OrchestratorEvent::ToolCall { session_id: sid, tool_name, args });
            } else if str_eq(t.as_str(), "file_change") {
                let path = item.str_field_or("path", "unknown");
                let action = item.str_field_or("action", "unknown");
                let content = copy_opt_string(&match item.get_str("content") {
                    Some(c) => Some(c.clone()),
                    None => None,
                });
                let diff = match item.get_str("diff") {
                    Some(d) => Some(d.clone()),
                    None => None,
                };
                push_event(out, OrchestratorEvent::FileChange { session_id: sid, path, action, content, diff });
            } else if str_eq(t.as_str(), "message") {
                if let Some(c) = item.get_str("content") {
                    push_delta(out, sid, c.clone());
                }
            }
        },
        None => {},
    }
    assert(views(out@) =~= before + item_events(sid, *item));
}

fn notification_to_events(sid: SessionId, method: &str, params: &Option<JsonValue>, out: &mut Vec<OrchestratorEvent>)
    ensures
        views(final(out)@) == views(old(out)@) + notification_events(sid, method@, *params),
{
    let ghost before = views(out@);
    let p = match params {
        Some(p) => p,
        None => {
            assert(views(out@) =~= before + notification_events(sid, method@, *params));
            return;
        },
    };
    if str_eq(method, "turn/plan/updated") {
        if let Some(x) = p.get_str("explanation") {
            push_delta(out, sid, join3("[Plan] ", x.as_str(), "\n"));
        }
    } else if str_eq(method, "turn/diff/updated") {
        if let Some(d) = p.get_str("diff") {
            push_event(out, OrchestratorEvent::FileChange {
                session_id: sid,
                path: String::from_str("multiple"),
                action: String::from_str("edit"),
                content: None,
                diff: Some(d.clone()),
            });
        }
    } else if str_eq(method, "item/started") || str_eq(method, "item/completed") {
        if let Some(item) = p.get("item") {
            item_to_events(sid, item, out);
        }
    } else if str_eq(method, "thread/tokenUsage/updated") {
        push_event(out, OrchestratorEvent::TokenUsage { session_id: sid, usage: p.copy() });
    }
    assert(views(out@) =~= before + notification_events(sid, method@, *params));
}

/// The events that one message of the agent produces.
pub fn handle_jsonrpc_message(sid: SessionId, message: &CodexMessage) -> (r: Vec<OrchestratorEvent>)
    ensures
        views(r@) == message_events(sid, *message),
{
    let mut out: Vec<OrchestratorEvent> = Vec::new();
    assert(views(out@) =~= Seq::<EventView>::empty());
    if let Some(method) = &message.method {
        notification_to_events(sid, method.as_str(), &message.params, &mut out);
    }
    let ghost after_method = views(out@);
    if let Some(res) = &message.result {
        if let Some(c) = res.get_str("content") {
            push_delta(&mut out, sid, c.clone());
        }
    }
    let ghost after_result = views(out@);
    if let Some(e) = &message.error {
        let code = int_text(e.code as i128);
        let head = join3("Codex error (", code.as_str(), "): ");
        let text = join2(head.as_str(), e.message.as_str());
        push_event(&mut out, OrchestratorEvent::SessionError { session_id: sid, error: text });
    }
    assert(views(out@) =~= message_events(sid, *message));
    out
}

/// `events` are those of output line `line`, read as `parsed`: nothing for a
/// blank line, a message's events, or else the line itself, with its
/// newline, as a content delta.
pub open spec fn line_decodes(sid: SessionId, line: Seq<char>, parsed: Option<JsonValue>, events: Seq<OrchestratorEvent>) -> bool {
    &&& trimmed(line).len() == 0 ==> events.len() == 0
    &&& trimmed(line).len() > 0 && parsed is Some && is_message(parsed->0) ==> (exists|m: CodexMessage|
        m.read_from(parsed->0) && views(events) == message_events(sid, m))
    &&& trimmed(line).len() > 0 && !(parsed is Some && is_message(parsed->0)) ==> views(events) == delta_of(
        sid,
        trimmed(line) + "\n"@,
    )
}

/// The events of one line of the agent's output. `parsed` is what a JSON
/// reader made of the line's trimmed text, if it was JSON. A blank line gives
/// nothing; a message gives its events; any other line is plain output and is
/// passed on whole, with its newline, as a content delta.
pub fn decode_line(sid: SessionId, line: &str, parsed: Option<JsonValue>) -> (r: Vec<OrchestratorEvent>)
    ensures
        line_decodes(sid, line@, parsed, r@),
{
    let text = trim(line);
    if text.as_str().unicode_len() == 0 {
        return Vec::new();
    }
    if let Some(v) = &parsed {
        if let Some(m) = CodexMessage::from_json(v) {
            return handle_jsonrpc_message(sid, &m);
        }
    }
    let mut out: Vec<OrchestratorEvent> = Vec::new();
    assert(views(out@) =~= Seq::<EventView>::empty());
    push_delta(&mut out, sid, join2(text.as_str(), "\n"));
    assert(views(out@) =~= delta_of(sid, trimmed(line@) + "\n"@));
    out
}

/// The events of one line of the agent's output, read as JSON by serde_json.
pub fn read_output_line(sid: SessionId, line: &str) -> (r: Vec<OrchestratorEvent>)
    ensures
        exists|p: Option<JsonValue>| opt_view(p) == json_parse(trimmed(line@)) && line_decodes(sid, line@, p, r@),
{
    let t = trim(line);
    let parsed = parse_json(t.as_str());
    decode_line(sid, line, parsed)
}

/// Why the agent's output ended.
pub open spec fn end_text(read_error: Option<&str>) -> Seq<char> {
    match read_error {
        Some(e) => "failed to read Codex output: "@ + e@,
        None => "Codex process terminated"@,
    }
}

/// The event for the end of the agent's output: none when the shutdown was
/// intended, otherwise a session error that says why the stream ended.
pub fn on_output_end(sid: SessionId, intentional: bool, read_error: Option<&str>) -> (r: Option<OrchestratorEvent>)
    ensures
        intentional ==> r is None,
        !intentional ==> r is Some && r->0@ == (EventView::SessionError { session_id: sid, error: end_text(read_error) }),
{
    if intentional {
        return None;
    }
    let error = match read_error {
        Some(e) => join2("failed to read Codex output: ", e),
        None => String::from_str("Codex process terminated"),
    };
    Some(OrchestratorEvent::SessionError { session_id: sid, error })
}

/// A tool-call item notification without result or error produces exactly
/// one event: a tool call with the item's tool name and arguments.
pub proof fn lemma_tool_call_item_is_one_event(sid: SessionId, m: CodexMessage, item: JsonValue, name: Seq<char>)
    requires
        m.method is Some,
        m.method->0@ == "item/started"@ || m.method->0@ == "item/completed"@,
        m.params is Some,
        m.params->0.field("item"@) == Some(item),
        item.str_field("type"@) == Some("tool_call"@),
        item.str_field("tool_name"@) == Some(name),
        m.result is None,
        m.error is None,
    ensures
        message_events(sid, m) == seq![EventView::ToolCall {
            session_id: sid,
            tool_name: name,
            args: view_or_empty(item.field("arguments"@)),
        }],
{
    reveal_strlit("item/started");
    reveal_strlit("item/completed");
    reveal_strlit("turn/plan/updated");
    reveal_strlit("turn/diff/updated");
    reveal_strlit("tool_call");
    let method = m.method->0@;
    assert(method != "turn/plan/updated"@) by {
        if method == "item/started"@ {
            assert(method[0] != "turn/plan/updated"@[0]);
        } else {
            assert(method[0] != "turn/plan/updated"@[0]);
        }
    }
    assert(method != "turn/diff/updated"@) by {
        assert(method[0] != "turn/diff/updated"@[0]);
    }
    let evs = seq![EventView::ToolCall {
        session_id: sid,
        tool_name: name,
        args: view_or_empty(item.field("arguments"@)),
    }];
    assert(item_events(sid, item) == evs);
    assert(message_events(sid, m) =~= evs);
}

} // verus!
