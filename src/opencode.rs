use vstd::prelude::*;

use crate::events::{delta_of, push_delta, push_event, views, EventView, OrchestratorEvent};
use crate::json::{json_parse, opt_view, parse_json, push_item, push_member, text_or, text_slot, view_members, view_of, view_or_empty, JsonValue, JsonView};
use crate::session::SessionId;
use crate::text::{is_white_space, join2, join3, starts_with, str_eq, trim, trim_end, trim_start, trimmed};

verus! {

/// Model settings of the HTTP agent.
#[derive(Debug, Clone, PartialEq, Eq)]
pub struct OpenCodeModelOptions {
    pub model: Option<String>,
    pub provider: Option<String>,
}

impl Default for OpenCodeModelOptions {
    fn default() -> (r: Self)
        ensures
            r.model is None,
            r.provider is None,
    {
        OpenCodeModelOptions { model: None, provider: None }
    }
}

/// Where the agent's HTTP server listens.
pub fn default_base_url() -> (r: String)
    ensures
        r@ == "http://127.0.0.1:4096"@,
{
    String::from_str("http://127.0.0.1:4096")
}

/// Endpoint that creates a remote session.
pub fn session_url(base: &str) -> (r: String)
    ensures
        r@ == base@ + "/session"@,
{
    join2(base, "/session")
}

/// Endpoint of one remote session (deleted at shutdown).
pub fn remote_session_url(base: &str, remote_id: &str) -> (r: String)
    ensures
        r@ == base@ + "/session/"@ + remote_id@,
{
    join3(base, "/session/", remote_id)
}

/// Endpoint that takes a prompt for a remote session.
pub fn prompt_url(base: &str, remote_id: &str) -> (r: String)
    ensures
        r@ == base@ + "/session/"@ + remote_id@ + "/prompt"@,
{
    let head = join3(base, "/session/", remote_id);
    join2(head.as_str(), "/prompt")
}

/// Endpoint of the event stream.
pub fn event_url(base: &str) -> (r: String)
    ensures
        r@ == base@ + "/event"@,
{
    join2(base, "/event")
}

/// The members of the session-creation body: the hints that are given.
pub open spec fn create_members(model: Option<Seq<char>>, provider: Option<Seq<char>>) -> Seq<(Seq<char>, JsonView)> {
    let m = match model {
        Some(x) => seq![("model"@, JsonView::Str(x))],
        None => Seq::empty(),
    };
    match provider {
        Some(p) => m.push(("provider"@, JsonView::Str(p))),
        None => m,
    }
}

/// Body of the session-creation request.
pub fn create_session_body(options: &OpenCodeModelOptions) -> (r: JsonValue)
    ensures
        r@ == JsonView::Object(create_members(
            crate::events::opt_text(options.model),
            crate::events::opt_text(options.provider),
        )),
{
    let mut members: Vec<(String, JsonValue)> = Vec::new();
    assert(view_members(members@) =~= Seq::<(Seq<char>, JsonView)>::empty());
    if let Some(m) = &options.model {
        push_member(&mut members, "model", JsonValue::string(m.as_str()));
        assert(view_members(members@) =~= seq![("model"@, JsonView::Str(m@))]);
    }
    if let Some(p) = &options.provider {
        push_member(&mut members, "provider", JsonValue::string(p.as_str()));
    }
    JsonValue::Object(members)
}

/// Body of a prompt: one text part.
pub fn prompt_body(prompt: &str) -> (r: JsonValue)
    ensures
        r@ == JsonView::Object(seq![(
            "parts"@,
            JsonView::Array(seq![JsonView::Object(seq![("type"@, JsonView::Str("text"@)), ("text"@, JsonView::Str(prompt@))])]),
        )]),
{
    let mut part: Vec<(String, JsonValue)> = Vec::new();
    assert(view_members(part@) =~= Seq::<(Seq<char>, JsonView)>::empty());
    push_member(&mut part, "type", JsonValue::string("text"));
    push_member(&mut part, "text", JsonValue::string(prompt));
    assert(view_members(part@) =~= seq![("type"@, JsonView::Str("text"@)), ("text"@, JsonView::Str(prompt@))]);
    let mut parts: Vec<JsonValue> = Vec::new();
    assert(crate::json::view_items(parts@) =~= Seq::<JsonView>::empty());
    push_item(&mut parts, JsonValue::Object(part));
    assert(crate::json::view_items(parts@) =~= seq![JsonView::Object(seq![("type"@, JsonView::Str("text"@)), ("text"@, JsonView::Str(prompt@))])]);
    let mut body: Vec<(String, JsonValue)> = Vec::new();
    assert(view_members(body@) =~= Seq::<(Seq<char>, JsonView)>::empty());
    push_member(&mut body, "parts", JsonValue::Array(parts));
    let r = JsonValue::Object(body);
    r
}

/// The remote session's identity in the server's reply, when the reply is a
/// session: an object with a string `id` and, if present, string `model` and
/// `provider`.
pub fn remote_session_id(reply: &JsonValue) -> (r: Option<String>)
    ensures
        match r {
            Some(id) => reply is Object && reply.str_field("id"@) == Some(id@)
                && text_slot(reply.field("model"@)) is Some && text_slot(reply.field("provider"@)) is Some,
            None => !(reply is Object && reply.str_field("id"@) is Some
                && text_slot(reply.field("model"@)) is Some && text_slot(reply.field("provider"@)) is Some),
        },
{
    let is_object = match reply {
        JsonValue::Object(_) => true,
        _ => false,
    };
    if !is_object {
        return None;
    }
    if reply.read_text("model").is_err() || reply.read_text("provider").is_err() {
        return None;
    }
    match reply.get_str("id") {
        Some(id) => Some(id.clone()),
        None => None,
    }
}

/// One reassembled Server-Sent-Events record.
#[derive(Debug, Clone, PartialEq, Eq)]
pub struct SseRecord {
    pub event_type: String,
    pub data: String,
}

/// The contents of a list of records: (event name, data).
pub open spec fn records_view(v: Seq<SseRecord>) -> Seq<(Seq<char>, Seq<char>)> {
    v.map_values(|r: SseRecord| (r.event_type@, r.data@))
}

/// Whether `s` begins with `p`.
pub open spec fn has_prefix(s: Seq<char>, p: Seq<char>) -> bool {
    p.len() <= s.len() && s.subrange(0, p.len() as int) == p
}

/// One complete line applied to the pending record (event name, data): a
/// blank line ends the record, handing it out when it has data; `event:` and
/// `data:` lines set the name and the data; other lines change nothing.
pub open spec fn line_step(event: Seq<char>, data: Seq<char>, line: Seq<char>) -> (Seq<char>, Seq<char>, Option<(Seq<char>, Seq<char>)>) {
    let t = trimmed(line);
    if t.len() == 0 {
        (Seq::empty(), Seq::empty(), if data.len() > 0 { Some((event, data)) } else { None })
    } else if has_prefix(t, "event:"@) {
        (trimmed(t.subrange("event:"@.len() as int, t.len() as int)), data, None)
    } else if has_prefix(t, "data:"@) {
        (event, trimmed(t.subrange("data:"@.len() as int, t.len() as int)), None)
    } else {
        (event, data, None)
    }
}

/// The decoder state (partial line, event name, data) after reading `s`,
/// with the records completed on the way.
pub open spec fn feed(st: (Seq<char>, Seq<char>, Seq<char>), s: Seq<char>) -> ((Seq<char>, Seq<char>, Seq<char>), Seq<(Seq<char>, Seq<char>)>)
    decreases s.len(),
{
    if s.len() == 0 {
        (st, Seq::empty())
    } else {
        let (st1, recs) = feed(st, s.drop_last());
        let c = s.last();
        if c == '\n' {
            let (e2, d2, rec) = line_step(st1.1, st1.2, st1.0);
            ((Seq::empty(), e2, d2), match rec {
                Some(x) => recs.push(x),
                None => recs,
            })
        } else {
            ((st1.0.push(c), st1.1, st1.2), recs)
        }
    }
}

proof fn lemma_feed_concat(st: (Seq<char>, Seq<char>, Seq<char>), a: Seq<char>, b: Seq<char>)
    ensures
        feed(st, a + b) == ({
            let (st1, r1) = feed(st, a);
            let (st2, r2) = feed(st1, b);
            (st2, r1 + r2)
        }),
    decreases b.len(),
{
    if b.len() == 0 {
        assert(a + b =~= a);
        let (st1, r1) = feed(st, a);
        assert(r1 + Seq::<(Seq<char>, Seq<char>)>::empty() =~= r1);
    } else {
        lemma_feed_concat(st, a, b.drop_last());
        assert((a + b).drop_last() =~= a + b.drop_last());
        assert((a + b).last() == b.last());
        let (st1, r1) = feed(st, a);
        let (sa, ra) = feed(st1, b.drop_last());
        let c = b.last();
        if c == '\n' {
            let (e2, d2, rec) = line_step(sa.1, sa.2, sa.0);
            match rec {
                Some(x) => {
                    assert((r1 + ra).push(x) =~= r1 + ra.push(x));
                },
                None => {},
            }
        }
    }
}

proof fn lemma_feed_without_newline(st: (Seq<char>, Seq<char>, Seq<char>), a: Seq<char>)
    requires
        !a.contains('\n'),
    ensures
        feed(st, a) == ((st.0 + a, st.1, st.2), Seq::<(Seq<char>, Seq<char>)>::empty()),
    decreases a.len(),
{
    if a.len() == 0 {
        assert(st.0 + a =~= st.0);
    } else {
        assert(!a.drop_last().contains('\n')) by {
            if a.drop_last().contains('\n') {
                let k = choose|k: int| 0 <= k < a.drop_last().len() && a.drop_last()[k] == '\n';
                assert(a[k] == '\n');
            }
        }
        lemma_feed_without_newline(st, a.drop_last());
        assert(a[a.len() - 1] != '\n');
        assert((st.0 + a.drop_last()).push(a.last()) =~= st.0 + a);
    }
}

proof fn lemma_trimmed_keeps(s: Seq<char>)
    requires
        s.len() > 0,
        !is_white_space(s[0]),
        !is_white_space(s.last()),
    ensures
        trimmed(s) == s,
{
    assert(trim_start(s) == s);
    assert(trim_end(s) == s);
}

/// A `data:` line followed by the blank line that ends its record, cut
/// into two reads at any point, yields exactly one record, with that data.
pub proof fn lemma_data_line_split_in_two(c1: Seq<char>, c2: Seq<char>, d: Seq<char>)
    requires
        c1 + c2 == "data:"@ + d + "\n\n"@,
        d.len() > 0,
        !d.contains('\n'),
        !is_white_space(d[0]),
        !is_white_space(d.last()),
    ensures
        ({
            let (st1, r1) = feed((Seq::empty(), Seq::empty(), Seq::empty()), c1);
            let (st2, r2) = feed(st1, c2);
            r1 + r2 == seq![(Seq::<char>::empty(), d)]
        }),
{
    reveal_strlit("data:");
    reveal_strlit("event:");
    reveal_strlit("\n\n");
    let init = (Seq::<char>::empty(), Seq::<char>::empty(), Seq::<char>::empty());
    let line = "data:"@ + d;
    let nl = seq!['\n'];
    lemma_feed_concat(init, c1, c2);
    assert("data:"@ + d + "\n\n"@ =~= line + nl + nl);
    lemma_feed_concat(init, line + nl, nl);
    lemma_feed_concat(init, line, nl);
    assert(!line.contains('\n')) by {
        if line.contains('\n') {
            let k = choose|k: int| 0 <= k < line.len() && line[k] == '\n';
            if k >= 5 {
                assert(d[k - 5] == '\n');
            }
        }
    }
    lemma_feed_without_newline(init, line);
    assert(Seq::<char>::empty() + line =~= line);
    assert(line.last() == d.last());
    lemma_trimmed_keeps(line);
    lemma_trimmed_keeps(d);
    assert(line.subrange(0, 5) =~= "data:"@);
    assert(line.subrange(5, line.len() as int) =~= d);
    assert(!has_prefix(line, "event:"@)) by {
        assert(line[0] != "event:"@[0]);
    }
    assert(nl.drop_last() =~= Seq::<char>::empty());
    assert(nl.last() == '\n');
    let st1 = (line, Seq::<char>::empty(), Seq::<char>::empty());
    assert(feed(st1, nl.drop_last()) == (st1, Seq::<(Seq<char>, Seq<char>)>::empty()));
    assert("data:"@.len() == 5);
    assert(has_prefix(line, "data:"@));
    assert(line_step(Seq::<char>::empty(), Seq::<char>::empty(), line) == (Seq::<char>::empty(), d, None::<(Seq<char>, Seq<char>)>));
    assert(feed(st1, nl) == ((Seq::<char>::empty(), Seq::<char>::empty(), d), Seq::<(Seq<char>, Seq<char>)>::empty()));
    assert(Seq::<(Seq<char>, Seq<char>)>::empty() + Seq::<(Seq<char>, Seq<char>)>::empty() =~= Seq::<(Seq<char>, Seq<char>)>::empty());
    let after_line = feed(init, line + nl);
    assert(after_line == ((Seq::<char>::empty(), Seq::<char>::empty(), d), Seq::<(Seq<char>, Seq<char>)>::empty()));
    assert(trimmed(Seq::<char>::empty()) =~= Seq::<char>::empty());
    let st2 = (Seq::<char>::empty(), Seq::<char>::empty(), d);
    assert(feed(st2, nl.drop_last()) == (st2, Seq::<(Seq<char>, Seq<char>)>::empty()));
    assert(line_step(Seq::<char>::empty(), d, Seq::<char>::empty()) == (Seq::<char>::empty(), Seq::<char>::empty(), Some((Seq::<char>::empty(), d))));
    let fin = feed(after_line.0, nl);
    assert(fin.1 =~= seq![(Seq::<char>::empty(), d)]);
}

/// Reassembles Server-Sent-Events records from a stream of text chunks cut
/// anywhere.
#[derive(Debug)]
pub struct SseDecoder {
    buffer: String,
    event_type: String,
    data: String,
}

impl SseDecoder {
    /// (partial line, event name, data) held so far.
    pub closed spec fn state(&self) -> (Seq<char>, Seq<char>, Seq<char>) {
        (self.buffer@, self.event_type@, self.data@)
    }

    pub fn new() -> (r: Self)
        ensures
            r.state() == (Seq::<char>::empty(), Seq::<char>::empty(), Seq::<char>::empty()),
    {
        let r = SseDecoder { buffer: String::new(), event_type: String::new(), data: String::new() };
        r
    }

    fn on_line(&mut self) -> (r: Option<SseRecord>)
        ensures
            ({
                let (e2, d2, rec) = line_step(old(self).event_type@, old(self).data@, old(self).buffer@);
                &&& final(self).event_type@ == e2
                &&& final(self).data@ == d2
                &&& final(self).buffer@ == old(self).buffer@
                &&& match r {
                    Some(x) => rec == Some((x.event_type@, x.data@)),
                    None => rec is None,
                }
            }),
    {
        let t = trim(self.buffer.as_str());
        let n = t.as_str().unicode_len();
        if n == 0 {
            let rec = if self.data.as_str().unicode_len() > 0 {
                Some(SseRecord { event_type: self.event_type.clone(), data: self.data.clone() })
            } else {
                None
            };
            self.event_type = String::new();
            self.data = String::new();
            return rec;
        }
        let ev = "event:";
        let dt = "data:";
        if starts_with(t.as_str(), ev) {
            let k = ev.unicode_len();
            self.event_type = trim(t.as_str().substring_char(k, n));
        } else if starts_with(t.as_str(), dt) {
            let k = dt.unicode_len();
            self.data = trim(t.as_str().substring_char(k, n));
        }
        None
    }

    /// Takes the next chunk of the stream; returns the records it completes.
    pub fn push_chunk(&mut self, chunk: &str) -> (r: Vec<SseRecord>)
        ensures
            (final(self).state(), records_view(r@)) == feed(old(self).state(), chunk@),
    {
        let n = chunk.unicode_len();
        let mut out: Vec<SseRecord> = Vec::new();
        let ghost start = self.state();
        assert(chunk@.subrange(0, 0) =~= Seq::<char>::empty());
        assert(records_view(out@) =~= Seq::<(Seq<char>, Seq<char>)>::empty());
        let mut i: usize = 0;
        while i < n
            invariant
                n == chunk@.len(),
                i <= n,
                (self.state(), records_view(out@)) == feed(start, chunk@.subrange(0, i as int)),
            decreases n - i,
        {
            let c = chunk.get_char(i);
            let ghost prefix = chunk@.subrange(0, i as int + 1);
            assert(prefix.drop_last() =~= chunk@.subrange(0, i as int));
            assert(prefix.last() == c);
            if c == '\n' {
                let ghost before = out@;
                let rec = self.on_line();
                self.buffer = String::new();
                if let Some(x) = rec {
                    out.push(x);
                    assert(records_view(out@) =~= records_view(before).push((x.event_type@, x.data@)));
                }
            } else {
                self.buffer.append(chunk.substring_char(i, i + 1));
                assert(self.buffer@ =~= feed(start, chunk@.subrange(0, i as int)).0.0.push(c));
            }
            i = i + 1;
        }
        assert(chunk@.subrange(0, n as int) =~= chunk@);
        out
    }
}

/// The content deltas of the text parts among `parts`.
pub open spec fn part_events(sid: SessionId, parts: Seq<JsonValue>) -> Seq<EventView>
    decreases parts.len(),
{
    if parts.len() == 0 {
        Seq::empty()
    } else {
        let p = parts.last();
        part_events(sid, parts.drop_last()) + if p.str_field("type"@) == Some("text"@) {
            match p.str_field("text"@) {
                Some(t) => delta_of(sid, t),
                None => Seq::empty(),
            }
        } else {
            Seq::empty()
        }
    }
}

/// The events of a record named `name` whose data is `payload`.
pub open spec fn sse_events(sid: SessionId, name: Seq<char>, payload: JsonValue) -> Seq<EventView> {
    if name == "message.received"@ || name == "message.processed"@ {
        let from_content = match payload.str_field("content"@) {
            Some(c) => delta_of(sid, c),
            None => Seq::empty(),
        };
        let from_parts = match payload.field("parts"@) {
            Some(JsonValue::Array(items)) => part_events(sid, items@),
            _ => Seq::empty(),
        };
        from_content + from_parts
    } else if name == "tool.call"@ {
        seq![EventView::ToolCall {
            session_id: sid,
            tool_name: text_or(payload.str_field("tool_name"@), "unknown"@),
            args: view_or_empty(payload.field("arguments"@)),
        }]
    } else if name == "error"@ {
        seq![EventView::SessionError { session_id: sid, error: text_or(payload.str_field("message"@), "Unknown error"@) }]
    } else if name == "token.usage"@ {
        seq![EventView::TokenUsage { session_id: sid, usage: view_of(payload) }]
    } else {
        Seq::empty()
    }
}

/// The events that one record of the event stream produces.
pub fn handle_sse_event(sid: SessionId, event_type: &str, payload: &JsonValue) -> (r: Vec<OrchestratorEvent>)
    ensures
        views(r@) == sse_events(sid, event_type@, *payload),
{
    let mut out: Vec<OrchestratorEvent> = Vec::new();
    assert(views(out@) =~= Seq::<EventView>::empty());
    if str_eq(event_type, "message.received") || str_eq(event_type, "message.processed") {
        if let Some(c) = payload.get_str("content") {
            push_delta(&mut out, sid, c.clone());
        }
        let ghost after_content = views(out@);
        match payload.get("parts") {
            Some(JsonValue::Array(items)) => {
                let mut i: usize = 0;
                assert(items@.subrange(0, 0) =~= Seq::<JsonValue>::empty());
                while i < items.len()
                    invariant
                        i <= items@.len(),
                        views(out@) == after_content + part_events(sid, items@.subrange(0, i as int)),
                    decreases items@.len() - i,
                {
                    let p = &items[i];
                    let ghost sub = items@.subrange(0, i as int + 1);
                    assert(sub.drop_last() =~= items@.subrange(0, i as int));
                    proof {
                        reveal_strlit("text");
                    }
                    let is_text = match p.get_str("type") {
                        Some(t) => str_eq(t.as_str(), "text"),
                        None => false,
                    };
                    if is_text {
                        if let Some(t) = p.get_str("text") {
                            push_delta(&mut out, sid, t.clone());
                        }
                    }
                    i = i + 1;
                    assert(views(out@) =~= after_content + part_events(sid, items@.subrange(0, i as int)));
                }
                assert(items@.subrange(0, items@.len() as int) =~= items@);
            },
            _ => {},
        }
    } else if str_eq(event_type, "tool.call") {
        let tool_name = payload.str_field_or("tool_name", "unknown");
        let args = payload.field_or_empty("arguments");
        push_event(&mut out, OrchestratorEvent::ToolCall { session_id: sid, tool_name, args });
    } else if str_eq(event_type, "error") {
        let error = payload.str_field_or("message", "Unknown error");
        push_event(&mut out, OrchestratorEvent::SessionError { session_id: sid, error });
    } else if str_eq(event_type, "token.usage") {
        push_event(&mut out, OrchestratorEvent::TokenUsage { session_id: sid, usage: payload.copy() });
    }
    assert(views(out@) =~= sse_events(sid, event_type@, *payload));
    out
}

/// The events of one reassembled record: its data read as JSON by
/// serde_json; data that is not JSON gives nothing.
pub fn record_events(sid: SessionId, record: &SseRecord) -> (r: Vec<OrchestratorEvent>)
    ensures
        exists|p: Option<JsonValue>| opt_view(p) == json_parse(record.data@) && match p {
            Some(v) => views(r@) == sse_events(sid, record.event_type@, v),
            None => r@.len() == 0,
        },
{
    match parse_json(record.data.as_str()) {
        Some(payload) => handle_sse_event(sid, record.event_type.as_str(), &payload),
        None => Vec::new(),
    }
}

} // verus!
