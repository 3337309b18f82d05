use vstd::prelude::*;

use crate::error::OrchestratorError;
use crate::events::{EventView, OrchestratorEvent};
use crate::json::{json_parse, opt_view, parse_json, present, push_member, text_or, view_members, view_or_empty, JsonValue, JsonView};
use crate::session::SessionId;
use crate::text::{decimal_text, int_text, join2, join3, owned, str_eq};

verus! {

pub const METHOD_INITIALIZE: &'static str = "acp/initialize";
pub const METHOD_SEND_MESSAGE: &'static str = "acp/sendMessage";
pub const METHOD_CANCEL: &'static str = "acp/cancelRequest";
pub const NOTIF_CONTENT_DELTA: &'static str = "acp/contentDelta";
pub const NOTIF_TOOL_CALL: &'static str = "acp/toolCall";
pub const NOTIF_STATUS: &'static str = "acp/statusUpdate";

/// Seconds a request waits for its reply.
pub const REQUEST_TIMEOUT_SECS: u64 = 60;
/// Seconds the initialize handshake waits for its reply.
pub const INIT_TIMEOUT_SECS: u64 = 30;

/// The handle registered under `id`, if any: the first entry with that id.
pub open spec fn lookup<H>(entries: Seq<(u64, H)>, id: u64) -> Option<H>
    decreases entries.len(),
{
    if entries.len() == 0 {
        None
    } else if entries[0].0 == id {
        Some(entries[0].1)
    } else {
        lookup(entries.drop_first(), id)
    }
}

proof fn lemma_lookup_absent<H>(entries: Seq<(u64, H)>, id: u64)
    requires
        forall|j: int| 0 <= j < entries.len() ==> entries[j].0 != id,
    ensures
        lookup(entries, id) is None,
    decreases entries.len(),
{
    if entries.len() > 0 {
        lemma_lookup_absent(entries.drop_first(), id);
    }
}

proof fn lemma_lookup_at<H>(entries: Seq<(u64, H)>, id: u64, i: int)
    requires
        0 <= i < entries.len(),
        entries[i].0 == id,
        forall|j: int| 0 <= j < i ==> entries[j].0 != id,
    ensures
        lookup(entries, id) == Some(entries[i].1),
    decreases i,
{
    if i > 0 {
        lemma_lookup_at(entries.drop_first(), id, i - 1);
    }
}

proof fn lemma_lookup_unique<H>(entries: Seq<(u64, H)>, id: u64)
    ensures
        lookup(entries, id) is Some <==> exists|j: int| 0 <= j < entries.len() && entries[j].0 == id,
        forall|j: int| 0 <= j < entries.len() && entries[j].0 == id && (forall|k: int| 0 <= k < j ==> entries[k].0 != id)
            ==> lookup(entries, id) == Some(entries[j].1),
    decreases entries.len(),
{
    if entries.len() > 0 {
        lemma_lookup_unique(entries.drop_first(), id);
        if exists|j: int| 0 <= j < entries.len() && entries[j].0 == id {
            let j = choose|j: int| 0 <= j < entries.len() && entries[j].0 == id;
            if j > 0 && entries[0].0 != id {
                assert(entries.drop_first()[j - 1].0 == id);
            }
        }
        if lookup(entries.drop_first(), id) is Some && entries[0].0 != id {
            let j = choose|j: int| 0 <= j < entries.drop_first().len() && entries.drop_first()[j].0 == id;
            assert(entries[j + 1].0 == id);
        }
        assert forall|j: int| 0 <= j < entries.len() && entries[j].0 == id && (forall|k: int| 0 <= k < j ==> entries[k].0 != id)
            implies lookup(entries, id) == Some(entries[j].1) by {
            lemma_lookup_at(entries, id, j);
        }
    }
}

/// The requests waiting for their replies, by request id, and the id the
/// next request gets. Ids start at 1 and are never handed out twice; an
/// entry lives from the moment its request is sent until it is resolved.
pub struct PendingTable<H> {
    next_id: u64,
    entries: Vec<(u64, H)>,
}

impl<H> PendingTable<H> {
    /// The id the next request gets.
    pub closed spec fn next(&self) -> u64 {
        self.next_id
    }

    /// The waiting requests, oldest first.
    pub closed spec fn waiting(&self) -> Seq<(u64, H)> {
        self.entries@
    }

    /// The handle waiting under `id`.
    pub open spec fn handle(&self, id: u64) -> Option<H> {
        lookup(self.waiting(), id)
    }

    pub open spec fn wf(&self) -> bool {
        &&& self.next() >= 1
        &&& forall|i: int| 0 <= i < self.waiting().len() ==> #[trigger] self.waiting()[i].0 < self.next()
        &&& forall|i: int, j: int| 0 <= i < j < self.waiting().len() ==> #[trigger] self.waiting()[i].0 != #[trigger] self.waiting()[j].0
    }

    /// `after` is this table with `h` waiting under `id`.
    pub open spec fn registers(self, id: u64, h: H, after: PendingTable<H>) -> bool {
        &&& after.next() == self.next()
        &&& after.handle(id) == Some(h)
        &&& forall|k: u64| k != id ==> after.handle(k) == self.handle(k)
    }

    /// `after` is this table once `id` was resolved, handing out `r`.
    pub open spec fn resolves(self, id: u64, r: Option<H>, after: PendingTable<H>) -> bool {
        &&& after.next() == self.next()
        &&& r == self.handle(id)
        &&& after.handle(id) is None
        &&& forall|k: u64| k != id ==> after.handle(k) == self.handle(k)
    }

    pub fn new() -> (r: Self)
        ensures
            r.wf(),
            r.next() == 1,
            r.waiting().len() == 0,
    {
        PendingTable { next_id: 1, entries: Vec::new() }
    }

    /// The id the next request gets.
    pub fn next_id(&self) -> (r: u64)
        ensures
            r == self.next(),
    {
        self.next_id
    }

    /// Whether a handle waits under `id`.
    pub fn is_waiting(&self, id: u64) -> (r: bool)
        requires
            self.wf(),
        ensures
            r == (self.handle(id) is Some),
    {
        let mut i: usize = 0;
        while i < self.entries.len()
            invariant
                i <= self.entries@.len(),
                forall|j: int| 0 <= j < i ==> self.entries@[j].0 != id,
            decreases self.entries@.len() - i,
        {
            if self.entries[i].0 == id {
                proof {
                    lemma_lookup_unique(self.entries@, id);
                }
                return true;
            }
            i = i + 1;
        }
        proof {
            lemma_lookup_absent(self.entries@, id);
        }
        false
    }

    /// Hands out the next request id.
    pub fn allocate(&mut self) -> (r: u64)
        requires
            old(self).wf(),
            old(self).next() < u64::MAX,
        ensures
            final(self).wf(),
            r == old(self).next(),
            final(self).next() == old(self).next() + 1,
            final(self).waiting() == old(self).waiting(),
    {
        let id = self.next_id;
        self.next_id = self.next_id + 1;
        assert forall|i: int| 0 <= i < self.waiting().len() implies #[trigger] self.waiting()[i].0 < self.next() by {
            assert(old(self).waiting()[i].0 < old(self).next());
        }
        id
    }

    /// Registers the handle of a request that is about to be sent.
    pub fn register(&mut self, id: u64, h: H)
        requires
            old(self).wf(),
            id < old(self).next(),
            old(self).handle(id) is None,
        ensures
            final(self).wf(),
            old(self).registers(id, h, *final(self)),
    {
        let ghost before = self.entries@;
        proof {
            lemma_lookup_unique(before, id);
        }
        self.entries.push((id, h));
        proof {
            let after = self.entries@;
            assert(after.drop_last() =~= before);
            assert forall|k: u64| k != id implies lookup(after, k) == lookup(before, k) by {
                lemma_lookup_unique(after, k);
                lemma_lookup_unique(before, k);
                if lookup(before, k) is Some {
                    let j = choose|j: int| 0 <= j < before.len() && before[j].0 == k;
                    lemma_first_index(before, k, j);
                    let m = choose|m: int| 0 <= m <= j && before[m].0 == k && (forall|q: int| 0 <= q < m ==> before[q].0 != k);
                    assert(after[m] == before[m]);
                    assert forall|q: int| 0 <= q < m implies after[q].0 != k by {
                        assert(after[q] == before[q]);
                    }
                    lemma_lookup_at(after, k, m);
                    lemma_lookup_at(before, k, m);
                } else {
                    assert forall|j: int| 0 <= j < after.len() implies after[j].0 != k by {
                        if j < before.len() {
                            assert(after[j] == before[j]);
                        }
                    }
                    lemma_lookup_absent(after, k);
                }
            }
            lemma_lookup_at(after, id, before.len() as int);
        }
    }

    /// Takes out the handle waiting under `id`: on its reply, its timeout,
    /// or a failed send. Afterwards nothing waits under `id`.
    pub fn resolve(&mut self, id: u64) -> (r: Option<H>)
        requires
            old(self).wf(),
        ensures
            final(self).wf(),
            old(self).resolves(id, r, *final(self)),
    {
        let mut i: usize = 0;
        while i < self.entries.len()
            invariant
                self.wf(),
                self.entries@ == old(self).entries@,
                self.next_id == old(self).next_id,
                i <= self.entries@.len(),
                forall|j: int| 0 <= j < i ==> self.entries@[j].0 != id,
            decreases self.entries@.len() - i,
        {
            if self.entries[i].0 == id {
                let ghost before = self.entries@;
                proof {
                    assert forall|a: int, b: int| 0 <= a < b < before.len() implies before[a].0 != before[b].0 by {
                        assert(self.waiting()[a].0 != self.waiting()[b].0);
                    }
                    assert forall|a: int| 0 <= a < before.len() implies before[a].0 < self.next_id by {
                        assert(self.waiting()[a].0 < self.next());
                    }
                    lemma_lookup_at(before, id, i as int);
                    lemma_remove_entry(before, i as int, id, self.next_id);
                }
                let (_, h) = self.entries.remove(i);
                assert(self.entries@ =~= before.remove(i as int));
                return Some(h);
            }
            i = i + 1;
        }
        proof {
            lemma_lookup_absent(self.entries@, id);
        }
        None
    }
}

proof fn lemma_remove_entry<H>(before: Seq<(u64, H)>, i: int, id: u64, next: u64)
    requires
        0 <= i < before.len(),
        before[i].0 == id,
        forall|a: int, b: int| 0 <= a < b < before.len() ==> before[a].0 != before[b].0,
        forall|a: int| 0 <= a < before.len() ==> before[a].0 < next,
    ensures
        ({
            let after = before.remove(i);
            &&& lookup(after, id) is None
            &&& forall|k: u64| k != id ==> lookup(after, k) == lookup(before, k)
            &&& forall|a: int, b: int| 0 <= a < b < after.len() ==> #[trigger] after[a].0 != #[trigger] after[b].0
            &&& forall|a: int| 0 <= a < after.len() ==> #[trigger] after[a].0 < next
        }),
{
    let after = before.remove(i);
    assert forall|j: int| 0 <= j < after.len() implies after[j].0 != id by {
        if j >= i {
            assert(after[j] == before[j + 1]);
        }
    }
    lemma_lookup_absent(after, id);
    assert forall|k: u64| k != id implies lookup(after, k) == lookup(before, k) by {
        lemma_lookup_unique(after, k);
        lemma_lookup_unique(before, k);
        if lookup(before, k) is Some {
            let j = choose|j: int| 0 <= j < before.len() && before[j].0 == k;
            assert(j != i);
            let ja = if j < i { j } else { j - 1 };
            assert(after[ja] == before[j]);
            lemma_first_index(after, k, ja);
            let m = choose|m: int| 0 <= m <= ja && after[m].0 == k && (forall|q: int| 0 <= q < m ==> after[q].0 != k);
            let mb = if m < i { m } else { m + 1 };
            assert(before[mb] == after[m]);
            assert forall|q: int| 0 <= q < mb implies before[q].0 != k by {
                if q < i {
                    assert(before[q] == after[q]);
                } else if q > i {
                    assert(before[q] == after[q - 1]);
                }
            }
            lemma_lookup_at(before, k, mb);
            lemma_lookup_at(after, k, m);
        } else {
            assert forall|j: int| 0 <= j < after.len() implies after[j].0 != k by {
                if j < i {
                    assert(after[j] == before[j]);
                } else {
                    assert(after[j] == before[j + 1]);
                }
            }
            lemma_lookup_absent(after, k);
        }
    }
    assert forall|a: int, b: int| 0 <= a < b < after.len() implies #[trigger] after[a].0 != #[trigger] after[b].0 by {
        let a0 = if a < i { a } else { a + 1 };
        let b0 = if b < i { b } else { b + 1 };
        assert(after[a] == before[a0]);
        assert(after[b] == before[b0]);
    }
    assert forall|a: int| 0 <= a < after.len() implies #[trigger] after[a].0 < next by {
        let a0 = if a < i { a } else { a + 1 };
        assert(after[a] == before[a0]);
    }
}

proof fn lemma_first_index<H>(s: Seq<(u64, H)>, k: u64, j: int)
    requires
        0 <= j < s.len(),
        s[j].0 == k,
    ensures
        exists|m: int| 0 <= m <= j && s[m].0 == k && (forall|q: int| 0 <= q < m ==> s[q].0 != k),
    decreases j,
{
    if exists|q: int| 0 <= q < j && s[q].0 == k {
        let q = choose|q: int| 0 <= q < j && s[q].0 == k;
        lemma_first_index(s, k, q);
    } else {
        assert(forall|q: int| 0 <= q < j ==> s[q].0 != k);
    }
}

/// Two requests waiting at once each get their own reply, whatever order the
/// replies come in; once both are resolved nothing waits under either id.
pub proof fn lemma_replies_in_any_order<H>(
    t0: PendingTable<H>,
    a: u64,
    ha: H,
    t1: PendingTable<H>,
    b: u64,
    hb: H,
    t2: PendingTable<H>,
    rb: Option<H>,
    t3: PendingTable<H>,
    ra: Option<H>,
    t4: PendingTable<H>,
)
    requires
        a != b,
        t0.registers(a, ha, t1),
        t1.registers(b, hb, t2),
        t2.resolves(b, rb, t3),
        t3.resolves(a, ra, t4),
    ensures
        rb == Some(hb),
        ra == Some(ha),
        t4.handle(a) is None,
        t4.handle(b) is None,
{
}

/// A request on the wire.
#[derive(Debug)]
pub struct JsonRpcRequest {
    pub jsonrpc: String,
    pub id: u64,
    pub method: String,
    pub params: Option<JsonValue>,
}

impl JsonRpcRequest {
    pub fn new(id: u64, method: &str, params: Option<JsonValue>) -> (r: Self)
        ensures
            r.jsonrpc@ == "2.0"@,
            r.id == id,
            r.method@ == method@,
            r.params == params,
    {
        JsonRpcRequest { jsonrpc: String::from_str("2.0"), id, method: owned(method), params }
    }

    /// The request as a JSON object: `jsonrpc`, `id`, `method`, and `params`
    /// when there are any.
    pub fn to_json(&self) -> (r: JsonValue)
        ensures
            r@ == JsonView::Object({
                let head = seq![
                    ("jsonrpc"@, JsonView::Str(self.jsonrpc@)),
                    ("id"@, JsonView::Integer(self.id as int)),
                    ("method"@, JsonView::Str(self.method@)),
                ];
                match self.params {
                    Some(p) => head.push(("params"@, p@)),
                    None => head,
                }
            }),
    {
        let mut members: Vec<(String, JsonValue)> = Vec::new();
        assert(view_members(members@) =~= Seq::<(Seq<char>, JsonView)>::empty());
        push_member(&mut members, "jsonrpc", JsonValue::string(self.jsonrpc.as_str()));
        push_member(&mut members, "id", JsonValue::Integer(self.id as i128));
        push_member(&mut members, "method", JsonValue::string(self.method.as_str()));
        let ghost head = seq![
            ("jsonrpc"@, JsonView::Str(self.jsonrpc@)),
            ("id"@, JsonView::Integer(self.id as int)),
            ("method"@, JsonView::Str(self.method@)),
        ];
        assert(view_members(members@) =~= head);
        if let Some(p) = &self.params {
            push_member(&mut members, "params", p.copy());
        }
        JsonValue::Object(members)
    }
}

/// The error object of a reply.
#[derive(Debug, Clone)]
pub struct JsonRpcError {
    pub code: i32,
    pub message: String,
    pub data: Option<JsonValue>,
}

/// A reply to a request.
#[derive(Debug, Clone)]
pub struct JsonRpcResponse {
    pub jsonrpc: String,
    pub id: u64,
    pub result: Option<JsonValue>,
    pub error: Option<JsonRpcError>,
}

/// A notification from the agent.
#[derive(Debug)]
pub struct JsonRpcNotification {
    pub jsonrpc: String,
    pub method: String,
    pub params: Option<JsonValue>,
}

/// A required unsigned 64-bit member.
pub open spec fn u64_slot(f: Option<JsonValue>) -> Option<u64> {
    match f {
        Some(JsonValue::Integer(n)) => if 0 <= n <= u64::MAX { Some(n as u64) } else { None },
        _ => None,
    }
}

/// A required 32-bit member.
pub open spec fn i32_slot(f: Option<JsonValue>) -> Option<i32> {
    match f {
        Some(JsonValue::Integer(n)) => if i32::MIN <= n <= i32::MAX { Some(n as i32) } else { None },
        _ => None,
    }
}

/// A required string member.
pub open spec fn required_text(f: Option<JsonValue>) -> Option<Seq<char>> {
    match f {
        Some(JsonValue::Str(s)) => Some(s@),
        _ => None,
    }
}

/// Whether `e` reads as an error object: an integer code and a message.
pub open spec fn is_error_object(e: JsonValue) -> bool {
    e is Object && i32_slot(e.field("code"@)) is Some && required_text(e.field("message"@)) is Some
}

/// Whether `v` reads as a reply: an object with a string `jsonrpc`, an
/// unsigned `id`, and an error object when `error` is present and not null.
pub open spec fn is_response(v: JsonValue) -> bool {
    &&& v is Object
    &&& required_text(v.field("jsonrpc"@)) is Some
    &&& u64_slot(v.field("id"@)) is Some
    &&& match present(v.field("error"@)) {
        Some(e) => is_error_object(e),
        None => true,
    }
}

/// Whether `v` reads as a notification: an object with string `jsonrpc`
/// and `method`.
pub open spec fn is_notification(v: JsonValue) -> bool {
    &&& v is Object
    &&& required_text(v.field("jsonrpc"@)) is Some
    &&& required_text(v.field("method"@)) is Some
}

fn read_required_text(v: &JsonValue, key: &str) -> (r: Option<String>)
    ensures
        opt_text_eq(r, required_text(v.field(key@))),
{
    match v.get(key) {
        Some(JsonValue::Str(s)) => Some(s.clone()),
        _ => None,
    }
}

/// `r` holds the text `t`, or both are empty.
pub open spec fn opt_text_eq(r: Option<String>, t: Option<Seq<char>>) -> bool {
    match r {
        Some(s) => t == Some(s@),
        None => t is None,
    }
}

fn read_i32(v: &JsonValue, key: &str) -> (r: Option<i32>)
    ensures
        r == i32_slot(v.field(key@)),
{
    match v.get(key) {
        Some(JsonValue::Integer(n)) => {
            if *n < -2147483648 || *n > 2147483647 {
                None
            } else {
                Some(*n as i32)
            }
        },
        _ => None,
    }
}

fn read_u64(v: &JsonValue, key: &str) -> (r: Option<u64>)
    ensures
        r == u64_slot(v.field(key@)),
{
    match v.get(key) {
        Some(JsonValue::Integer(n)) => {
            if *n < 0 || *n > 18446744073709551615 {
                None
            } else {
                Some(*n as u64)
            }
        },
        _ => None,
    }
}

impl JsonRpcResponse {
    /// This is the reply that `v` holds.
    pub open spec fn read_from(self, v: JsonValue) -> bool {
        &&& Some(self.jsonrpc@) == required_text(v.field("jsonrpc"@))
        &&& Some(self.id) == u64_slot(v.field("id"@))
        &&& opt_view(self.result) == opt_view(present(v.field("result"@)))
        &&& self.error is Some <==> present(v.field("error"@)) is Some
        &&& self.error is Some ==> {
            let e = present(v.field("error"@))->0;
            &&& Some(self.error->0.code) == i32_slot(e.field("code"@))
            &&& Some(self.error->0.message@) == required_text(e.field("message"@))
            &&& opt_view(self.error->0.data) == opt_view(present(e.field("data"@)))
        }
    }

    /// Reads a reply; `None` when `v` is not one.
    pub fn from_json(v: &JsonValue) -> (r: Option<Self>)
        ensures
            r is Some <==> is_response(*v),
            r is Some ==> r->0.read_from(*v),
    {
        let is_object = match v {
            JsonValue::Object(_) => true,
            _ => false,
        };
        if !is_object {
            return None;
        }
        let jsonrpc = match read_required_text(v, "jsonrpc") {
            Some(t) => t,
            None => return None,
        };
        let id = match read_u64(v, "id") {
            Some(n) => n,
            None => return None,
        };
        let error = match v.get("error") {
            None => None,
            Some(JsonValue::Null) => None,
            Some(e) => {
                let e_is_object = match e {
                    JsonValue::Object(_) => true,
                    _ => false,
                };
                if !e_is_object {
                    return None;
                }
                let code = match read_i32(e, "code") {
                    Some(c) => c,
                    None => return None,
                };
                let message = match read_required_text(e, "message") {
                    Some(m) => m,
                    None => return None,
                };
                let data = e.read_present("data");
                Some(JsonRpcError { code, message, data })
            },
        };
        let result = v.read_present("result");
        Some(JsonRpcResponse { jsonrpc, id, result, error })
    }
}

impl JsonRpcNotification {
    /// This is the notification that `v` holds.
    pub open spec fn read_from(self, v: JsonValue) -> bool {
        &&& Some(self.jsonrpc@) == required_text(v.field("jsonrpc"@))
        &&& Some(self.method@) == required_text(v.field("method"@))
        &&& opt_view(self.params) == opt_view(present(v.field("params"@)))
    }

    /// Reads a notification; `None` when `v` is not one.
    pub fn from_json(v: &JsonValue) -> (r: Option<Self>)
        ensures
            r is Some <==> is_notification(*v),
            r is Some ==> r->0.read_from(*v),
    {
        let is_object = match v {
            JsonValue::Object(_) => true,
            _ => false,
        };
        if !is_object {
            return None;
        }
        let jsonrpc = match read_required_text(v, "jsonrpc") {
            Some(t) => t,
            None => return None,
        };
        let method = match read_required_text(v, "method") {
            Some(t) => t,
            None => return None,
        };
        let params = v.read_present("params");
        Some(JsonRpcNotification { jsonrpc, method, params })
    }
}

/// What one line of the agent's output is.
#[derive(Debug)]
pub enum AcpMessage {
    Response(JsonRpcResponse),
    Notification(JsonRpcNotification),
    Unrecognized,
}

/// `r` is what a line read as `parsed` is: a reply if it reads as one,
/// else a notification if it reads as one, else unrecognised.
pub open spec fn classifies(parsed: Option<JsonValue>, r: AcpMessage) -> bool {
    &&& match parsed {
        Some(v) => if is_response(v) {
            r is Response
        } else if is_notification(v) {
            r is Notification
        } else {
            r is Unrecognized
        },
        None => r is Unrecognized,
    }
    &&& r is Response ==> r->Response_0.read_from(parsed->0)
    &&& r is Notification ==> r->Notification_0.read_from(parsed->0)
}

/// What one output line of the agent is, read as JSON by serde_json.
pub fn classify_line(line: &str) -> (r: AcpMessage)
    ensures
        exists|p: Option<JsonValue>| opt_view(p) == json_parse(line@) && classifies(p, r),
{
    let parsed = parse_json(line);
    classify(&parsed)
}

/// Tells replies from notifications. `parsed` is what a JSON reader made of
/// the line; a line that reads as both is a reply.
pub fn classify(parsed: &Option<JsonValue>) -> (r: AcpMessage)
    ensures
        classifies(*parsed, r),
{
    match parsed {
        Some(v) => match JsonRpcResponse::from_json(v) {
            Some(resp) => AcpMessage::Response(resp),
            None => match JsonRpcNotification::from_json(v) {
                Some(n) => AcpMessage::Notification(n),
                None => AcpMessage::Unrecognized,
            },
        },
        None => AcpMessage::Unrecognized,
    }
}

/// The tool name of a tool-call notification: `tool_name`, or else
/// `toolName`, when it is a string; `unknown` otherwise.
pub open spec fn tool_name_of(params: JsonValue) -> Seq<char> {
    let f = match params.field("tool_name"@) {
        Some(x) => Some(x),
        None => params.field("toolName"@),
    };
    match f {
        Some(JsonValue::Str(t)) => t@,
        _ => "unknown"@,
    }
}

/// The event of a notification with method `method`, if it yields one.
pub open spec fn notification_event(sid: SessionId, method: Seq<char>, params: Option<JsonValue>) -> Option<EventView> {
    if method == "acp/contentDelta"@ {
        Some(EventView::ContentDelta {
            session_id: sid,
            content: match params {
                Some(p) => text_or(p.str_field("content"@), Seq::empty()),
                None => Seq::empty(),
            },
        })
    } else if method == "acp/toolCall"@ {
        Some(match params {
            Some(p) => EventView::ToolCall { session_id: sid, tool_name: tool_name_of(p), args: view_or_empty(p.field("args"@)) },
            None => EventView::ToolCall { session_id: sid, tool_name: "unknown"@, args: JsonView::Object(Seq::empty()) },
        })
    } else {
        None
    }
}

/// The event of a notification: content deltas and tool calls; status
/// updates and other methods give none.
pub fn handle_notification(sid: SessionId, notification: &JsonRpcNotification) -> (r: Option<OrchestratorEvent>)
    ensures
        match r {
            Some(e) => notification_event(sid, notification.method@, notification.params) == Some(e@),
            None => notification_event(sid, notification.method@, notification.params) is None,
        },
{
    let method = notification.method.as_str();
    if str_eq(method, NOTIF_CONTENT_DELTA) {
        let content = match &notification.params {
            Some(p) => p.str_field_or("content", ""),
            None => String::new(),
        };
        proof {
            reveal_strlit("");
            assert(""@ =~= Seq::<char>::empty());
        }
        return Some(OrchestratorEvent::ContentDelta { session_id: sid, content });
    }
    if str_eq(method, NOTIF_TOOL_CALL) {
        let (tool_name, args) = match &notification.params {
            Some(p) => {
                let f = match p.get("tool_name") {
                    Some(x) => Some(x),
                    None => p.get("toolName"),
                };
                let tool_name = match f {
                    Some(JsonValue::Str(t)) => t.clone(),
                    _ => String::from_str("unknown"),
                };
                (tool_name, p.field_or_empty("args"))
            },
            None => (String::from_str("unknown"), JsonValue::empty_object()),
        };
        return Some(OrchestratorEvent::ToolCall { session_id: sid, tool_name, args });
    }
    None
}

/// Message of a request that got no reply in time.
pub open spec fn timeout_text(id: u64) -> Seq<char> {
    "ACP request timed out waiting for response: id="@ + decimal_text(id as int)
}

/// The error for request `id` that timed out. Its entry must be resolved
/// before the error is returned.
pub fn timeout_error(id: u64) -> (r: OrchestratorError)
    ensures
        r is Timeout && r->Timeout_0@ == timeout_text(id),
{
    let n = int_text(id as i128);
    OrchestratorError::Timeout(join2("ACP request timed out waiting for response: id=", n.as_str()))
}

/// The error for request `id` whose reply channel closed before a reply.
pub fn cancelled_error(id: u64) -> (r: OrchestratorError)
    ensures
        r is Executor && r->Executor_0@ == "ACP request cancelled before response: id="@ + decimal_text(id as int),
{
    let n = int_text(id as i128);
    OrchestratorError::Executor(join2("ACP request cancelled before response: id=", n.as_str()))
}

/// Message of a reply that carries an error object.
pub open spec fn failure_text(id: u64, code: i32, message: Seq<char>) -> Seq<char> {
    "ACP request failed: id="@ + decimal_text(id as int) + ", code="@ + decimal_text(code as int) + ", message="@
        + message
}

/// The outcome of request `id` once its reply arrived: a failure when the
/// reply carries an error object, success otherwise.
pub fn response_outcome(id: u64, response: &JsonRpcResponse) -> (r: Result<(), OrchestratorError>)
    ensures
        response.error is None ==> r is Ok,
        response.error is Some ==> r is Err && r->Err_0 is Executor && r->Err_0->Executor_0@ == failure_text(
            id,
            response.error->0.code,
            response.error->0.message@,
        ),
{
    match &response.error {
        None => Ok(()),
        Some(e) => {
            let idt = int_text(id as i128);
            let code = int_text(e.code as i128);
            let a = join3("ACP request failed: id=", idt.as_str(), ", code=");
            let b = join3(a.as_str(), code.as_str(), ", message=");
            Err(OrchestratorError::Executor(join2(b.as_str(), e.message.as_str())))
        },
    }
}

/// What a status check found out about the agent process.
#[derive(Debug, Clone, PartialEq, Eq)]
pub enum ProcessState {
    /// It exited: with a code, by a signal, or neither (then `display` is
    /// the platform's description of the status).
    Exited { code: Option<i32>, signal: Option<i32>, display: String },
    Running,
    CheckFailed(String),
}

/// How an exit is described.
pub open spec fn exit_status_text(code: Option<i32>, signal: Option<i32>, display: Seq<char>) -> Seq<char> {
    match code {
        Some(c) => "exit code "@ + decimal_text(c as int),
        None => match signal {
            Some(s) => "signal "@ + decimal_text(s as int),
            None => "status "@ + display,
        },
    }
}

/// What is known of the process, in words.
pub open spec fn exit_info_text(state: ProcessState) -> Seq<char> {
    match state {
        ProcessState::Exited { code, signal, display } => "process exited with "@ + exit_status_text(code, signal, display@),
        ProcessState::Running => "process stdout closed but process is still running"@,
        ProcessState::CheckFailed(e) => "failed to check process status: "@ + e@,
    }
}

pub fn format_exit_status(code: Option<i32>, signal: Option<i32>, display: &str) -> (r: String)
    ensures
        r@ == exit_status_text(code, signal, display@),
{
    match code {
        Some(c) => {
            let t = int_text(c as i128);
            join2("exit code ", t.as_str())
        },
        None => match signal {
            Some(s) => {
                let t = int_text(s as i128);
                join2("signal ", t.as_str())
            },
            None => join2("status ", display),
        },
    }
}

pub fn process_exit_info(state: &ProcessState) -> (r: String)
    ensures
        r@ == exit_info_text(*state),
{
    match state {
        ProcessState::Exited { code, signal, display } => {
            let t = format_exit_status(*code, *signal, display.as_str());
            join2("process exited with ", t.as_str())
        },
        ProcessState::Running => String::from_str("process stdout closed but process is still running"),
        ProcessState::CheckFailed(e) => join2("failed to check process status: ", e.as_str()),
    }
}

/// The one session error raised when the agent's output ends, at its end or
/// on a read error; the read loop stops after it for good.
pub fn on_output_end(sid: SessionId, read_error: Option<&str>, state: &ProcessState) -> (r: OrchestratorEvent)
    ensures
        r@ == (EventView::SessionError {
            session_id: sid,
            error: match read_error {
                Some(e) => "failed to read ACP process output: "@ + e@ + "; "@ + exit_info_text(*state),
                None => "ACP process terminated: "@ + exit_info_text(*state),
            },
        }),
{
    let info = process_exit_info(state);
    let error = match read_error {
        Some(e) => {
            let head = join3("failed to read ACP process output: ", e, "; ");
            join2(head.as_str(), info.as_str())
        },
        None => join2("ACP process terminated: ", info.as_str()),
    };
    OrchestratorEvent::SessionError { session_id: sid, error }
}

/// The request that sends a prompt: `{"message": prompt}` as parameters.
pub fn send_message_request(id: u64, prompt: &str) -> (r: JsonRpcRequest)
    ensures
        r.id == id,
        r.method@ == METHOD_SEND_MESSAGE@,
        r.jsonrpc@ == "2.0"@,
        r.params is Some && r.params->0@ == JsonView::Object(seq![("message"@, JsonView::Str(prompt@))]),
{
    let mut members: Vec<(String, JsonValue)> = Vec::new();
    assert(view_members(members@) =~= Seq::<(Seq<char>, JsonView)>::empty());
    push_member(&mut members, "message", JsonValue::string(prompt));
    JsonRpcRequest::new(id, METHOD_SEND_MESSAGE, Some(JsonValue::Object(members)))
}

/// The handshake request.
pub fn initialize_request(id: u64) -> (r: JsonRpcRequest)
    ensures
        r.id == id,
        r.method@ == METHOD_INITIALIZE@,
        r.jsonrpc@ == "2.0"@,
        r.params is None,
{
    JsonRpcRequest::new(id, METHOD_INITIALIZE, None)
}

} // verus!
