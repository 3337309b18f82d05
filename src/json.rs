use vstd::prelude::*;

use crate::text::{owned, str_eq};

verus! {

/// A JSON document as the adapters read and write it.
///
/// Numbers that are integers are held exactly; any other number keeps the
/// text it was written with. An object keeps its members in order.
#[derive(Debug)]
pub enum JsonValue {
    Null,
    Bool(bool),
    Integer(i128),
    Decimal(String),
    Str(String),
    Array(Vec<JsonValue>),
    Object(Vec<(String, JsonValue)>),
}

/// The mathematical content of a JSON document.
pub enum JsonView {
    Null,
    Bool(bool),
    Integer(int),
    Decimal(Seq<char>),
    Str(Seq<char>),
    Array(Seq<JsonView>),
    Object(Seq<(Seq<char>, JsonView)>),
}

/// The content of a JSON value.
pub open spec fn view_of(v: JsonValue) -> JsonView
    decreases v,
{
    match v {
        JsonValue::Null => JsonView::Null,
        JsonValue::Bool(b) => JsonView::Bool(b),
        JsonValue::Integer(n) => JsonView::Integer(n as int),
        JsonValue::Decimal(t) => JsonView::Decimal(t@),
        JsonValue::Str(t) => JsonView::Str(t@),
        JsonValue::Array(items) => JsonView::Array(view_items(items@)),
        JsonValue::Object(members) => JsonView::Object(view_members(members@)),
    }
}

/// The contents of the items of an array, in order.
pub open spec fn view_items(items: Seq<JsonValue>) -> Seq<JsonView>
    decreases items,
{
    if items.len() == 0 {
        Seq::empty()
    } else {
        view_items(items.drop_last()).push(view_of(items[items.len() - 1]))
    }
}

/// The names and contents of the members of an object, in order.
pub open spec fn view_members(members: Seq<(String, JsonValue)>) -> Seq<(Seq<char>, JsonView)>
    decreases members,
{
    if members.len() == 0 {
        Seq::empty()
    } else {
        view_members(members.drop_last()).push(
            (members[members.len() - 1].0@, view_of(members[members.len() - 1].1)),
        )
    }
}

impl View for JsonValue {
    type V = JsonView;

    open spec fn view(&self) -> JsonView {
        view_of(*self)
    }
}

proof fn lemma_view_items_push(s: Seq<JsonValue>, x: JsonValue)
    ensures
        view_items(s.push(x)) == view_items(s).push(view_of(x)),
{
    assert(s.push(x).drop_last() =~= s);
}

proof fn lemma_view_members_push(s: Seq<(String, JsonValue)>, x: (String, JsonValue))
    ensures
        view_members(s.push(x)) == view_members(s).push((x.0@, view_of(x.1))),
{
    assert(s.push(x).drop_last() =~= s);
}

/// The value of the first member named `key`.
pub open spec fn member(members: Seq<(String, JsonValue)>, key: Seq<char>) -> Option<JsonValue>
    decreases members.len(),
{
    if members.len() == 0 {
        None
    } else if members[0].0@ == key {
        Some(members[0].1)
    } else {
        member(members.drop_first(), key)
    }
}

proof fn lemma_member_skip(members: Seq<(String, JsonValue)>, key: Seq<char>, i: int)
    requires
        0 <= i <= members.len(),
        forall|j: int| 0 <= j < i ==> members[j].0@ != key,
    ensures
        member(members, key) == member(members.subrange(i, members.len() as int), key),
    decreases i,
{
    if i > 0 {
        assert(members.drop_first() =~= members.subrange(1, members.len() as int));
        lemma_member_skip(members.drop_first(), key, i - 1);
        assert(members.drop_first().subrange(i - 1, members.drop_first().len() as int)
            =~= members.subrange(i, members.len() as int));
    } else {
        assert(members.subrange(0, members.len() as int) =~= members);
    }
}

/// The plain value behind an optional reference.
pub open spec fn deref_opt(r: Option<&JsonValue>) -> Option<JsonValue> {
    match r {
        Some(v) => Some(*v),
        None => None,
    }
}

/// The content of an optional value.
pub open spec fn opt_view(o: Option<JsonValue>) -> Option<JsonView> {
    match o {
        Some(x) => Some(view_of(x)),
        None => None,
    }
}

/// A member read as an optional value: absent or `null` is nothing.
pub open spec fn present(f: Option<JsonValue>) -> Option<JsonValue> {
    match f {
        Some(JsonValue::Null) => None,
        Some(x) => Some(x),
        None => None,
    }
}

/// A member read as optional text: absent or `null` is nothing, a string is
/// its text, anything else does not fit (`None`).
pub open spec fn text_slot(f: Option<JsonValue>) -> Option<Option<Seq<char>>> {
    match f {
        None => Some(None),
        Some(JsonValue::Null) => Some(None),
        Some(JsonValue::Str(s)) => Some(Some(s@)),
        _ => None,
    }
}

/// Text, or `d` when there is none.
pub open spec fn text_or(t: Option<Seq<char>>, d: Seq<char>) -> Seq<char> {
    match t {
        Some(x) => x,
        None => d,
    }
}

/// A value, or the empty object when there is none.
pub open spec fn view_or_empty(v: Option<JsonValue>) -> JsonView {
    match v {
        Some(x) => view_of(x),
        None => JsonView::Object(Seq::empty()),
    }
}

impl JsonValue {
    /// The member `key` of an object; nothing for any other value.
    pub open spec fn field(self, key: Seq<char>) -> Option<JsonValue> {
        match self {
            JsonValue::Object(members) => member(members@, key),
            _ => None,
        }
    }

    /// The text of a string value.
    pub open spec fn str_of(self) -> Option<Seq<char>> {
        match self {
            JsonValue::Str(s) => Some(s@),
            _ => None,
        }
    }

    /// The text of member `key` when it is a string.
    pub open spec fn str_field(self, key: Seq<char>) -> Option<Seq<char>> {
        match self.field(key) {
            Some(v) => v.str_of(),
            None => None,
        }
    }

    pub fn get(&self, key: &str) -> (r: Option<&JsonValue>)
        ensures
            deref_opt(r) == self.field(key@),
    {
        match self {
            JsonValue::Object(members) => {
                let mut i: usize = 0;
                while i < members.len()
                    invariant
                        self.field(key@) == member(members@, key@),
                        i <= members@.len(),
                        forall|j: int| 0 <= j < i ==> members@[j].0@ != key@,
                    decreases members@.len() - i,
                {
                    if str_eq(members[i].0.as_str(), key) {
                        proof {
                            lemma_member_skip(members@, key@, i as int);
                            assert(members@.subrange(i as int, members@.len() as int)[0] == members@[i as int]);
                        }
                        return Some(&members[i].1);
                    }
                    i = i + 1;
                }
                proof {
                    lemma_member_skip(members@, key@, i as int);
                }
                None
            },
            _ => None,
        }
    }

    pub fn as_str(&self) -> (r: Option<&String>)
        ensures
            match r {
                Some(s) => self.str_of() == Some(s@),
                None => self.str_of() is None,
            },
    {
        match self {
            JsonValue::Str(s) => Some(s),
            _ => None,
        }
    }

    pub fn as_bool(&self) -> (r: Option<bool>)
        ensures
            r == (match *self {
                JsonValue::Bool(b) => Some(b),
                _ => None,
            }),
    {
        match self {
            JsonValue::Bool(b) => Some(*b),
            _ => None,
        }
    }

    pub fn as_array(&self) -> (r: Option<&Vec<JsonValue>>)
        ensures
            match r {
                Some(a) => *self == JsonValue::Array(*a),
                None => !(*self is Array),
            },
    {
        match self {
            JsonValue::Array(a) => Some(a),
            _ => None,
        }
    }

    /// The text of member `key` when it is a string.
    pub fn get_str(&self, key: &str) -> (r: Option<&String>)
        ensures
            match r {
                Some(s) => self.str_field(key@) == Some(s@),
                None => self.str_field(key@) is None,
            },
    {
        match self.get(key) {
            Some(v) => v.as_str(),
            None => None,
        }
    }

    /// Member `key` read as an optional value, copied.
    pub fn read_present(&self, key: &str) -> (r: Option<JsonValue>)
        ensures
            opt_view(r) == opt_view(present(self.field(key@))),
    {
        match self.get(key) {
            Some(JsonValue::Null) => None,
            Some(x) => Some(x.copy()),
            None => None,
        }
    }

    /// Member `key` read as optional text; `Err` when it is neither absent,
    /// `null` nor a string.
    pub fn read_text(&self, key: &str) -> (r: Result<Option<String>, ()>)
        ensures
            match r {
                Ok(t) => text_slot(self.field(key@)) == Some(crate::events::opt_text(t)),
                Err(_) => text_slot(self.field(key@)) is None,
            },
    {
        match self.get(key) {
            None => Ok(None),
            Some(JsonValue::Null) => Ok(None),
            Some(JsonValue::Str(t)) => Ok(Some(t.clone())),
            Some(_) => Err(()),
        }
    }

    /// Member `key` copied, or the empty object when it is absent.
    pub fn field_or_empty(&self, key: &str) -> (r: JsonValue)
        ensures
            r@ == view_or_empty(self.field(key@)),
    {
        match self.get(key) {
            Some(x) => x.copy(),
            None => JsonValue::empty_object(),
        }
    }

    /// The text of string member `key`, or `d`.
    pub fn str_field_or(&self, key: &str, d: &str) -> (r: String)
        ensures
            r@ == text_or(self.str_field(key@), d@),
    {
        match self.get_str(key) {
            Some(t) => t.clone(),
            None => String::from_str(d),
        }
    }

    /// A string value holding a copy of `s`.
    pub fn string(s: &str) -> (r: JsonValue)
        ensures
            r.str_of() == Some(s@),
    {
        JsonValue::Str(owned(s))
    }

    /// A copy of this value, with the same content.
    pub fn copy(&self) -> (r: JsonValue)
        ensures
            r@ == self@,
        decreases self,
    {
        match self {
            JsonValue::Null => JsonValue::Null,
            JsonValue::Bool(b) => JsonValue::Bool(*b),
            JsonValue::Integer(n) => JsonValue::Integer(*n),
            JsonValue::Decimal(t) => JsonValue::Decimal(t.clone()),
            JsonValue::Str(t) => JsonValue::Str(t.clone()),
            JsonValue::Array(items) => {
                let mut out: Vec<JsonValue> = Vec::new();
                let mut i: usize = 0;
                while i < items.len()
                    invariant
                        *self == JsonValue::Array(*items),
                        i <= items@.len(),
                        view_items(out@) == view_items(items@.subrange(0, i as int)),
                    decreases items@.len() - i,
                {
                    proof {
                        broadcast use vstd::std_specs::vec::axiom_vec_index_decreases;
                        assert(decreases_to!(*self => (*self)->Array_0));
                        assert(decreases_to!(*items => items[i as int]));
                    }
                    let c = items[i].copy();
                    proof {
                        lemma_view_items_push(out@, c);
                        lemma_view_items_push(items@.subrange(0, i as int), items@[i as int]);
                        assert(items@.subrange(0, i as int).push(items@[i as int]) =~= items@.subrange(0, i + 1));
                    }
                    out.push(c);
                    i = i + 1;
                }
                assert(items@.subrange(0, items@.len() as int) =~= items@);
                JsonValue::Array(out)
            },
            JsonValue::Object(members) => {
                let mut out: Vec<(String, JsonValue)> = Vec::new();
                let mut i: usize = 0;
                while i < members.len()
                    invariant
                        *self == JsonValue::Object(*members),
                        i <= members@.len(),
                        view_members(out@) == view_members(members@.subrange(0, i as int)),
                    decreases members@.len() - i,
                {
                    proof {
                        broadcast use vstd::std_specs::vec::axiom_vec_index_decreases;
                        assert(decreases_to!(*self => (*self)->Object_0));
                        assert(decreases_to!(*members => members[i as int]));
                        assert(decreases_to!(members[i as int] => members[i as int].1));
                    }
                    let k = members[i].0.clone();
                    let v = members[i].1.copy();
                    proof {
                        lemma_view_members_push(out@, (k, v));
                        lemma_view_members_push(members@.subrange(0, i as int), members@[i as int]);
                        assert(members@.subrange(0, i as int).push(members@[i as int]) =~= members@.subrange(0, i + 1));
                    }
                    out.push((k, v));
                    i = i + 1;
                }
                assert(members@.subrange(0, members@.len() as int) =~= members@);
                JsonValue::Object(out)
            },
        }
    }

    /// The empty object.
    pub fn empty_object() -> (r: JsonValue)
        ensures
            r@ == JsonView::Object(Seq::empty()),
    {
        JsonValue::Object(Vec::new())
    }
}

/// Adds member `key` with value `v` at the end of an object's members.
pub fn push_member(members: &mut Vec<(String, JsonValue)>, key: &str, v: JsonValue)
    ensures
        view_members(final(members)@) == view_members(old(members)@).push((key@, v@)),
{
    let k = owned(key);
    proof {
        lemma_view_members_push(members@, (k, v));
    }
    members.push((k, v));
}

/// Adds `v` at the end of an array's items.
pub fn push_item(items: &mut Vec<JsonValue>, v: JsonValue)
    ensures
        view_items(final(items)@) == view_items(old(items)@).push(v@),
{
    proof {
        lemma_view_items_push(items@, v);
    }
    items.push(v);
}

impl Clone for JsonValue {
    fn clone(&self) -> Self {
        self.copy()
    }
}

#[verifier::external_type_specification]
#[verifier::external_body]
pub struct ExSerdeValue(serde_json::Value);

/// The content of the JSON document that a text holds; nothing when the text
/// is not JSON.
pub uninterp spec fn json_parse(s: Seq<char>) -> Option<JsonView>;

/// The compact JSON text of a document.
pub uninterp spec fn json_text(v: JsonView) -> Seq<char>;

/// Converts a document read by serde_json into the library's form, node for
/// node.
#[verifier::external_body]
fn from_serde(v: &serde_json::Value) -> JsonValue {
    match v {
        serde_json::Value::Null => JsonValue::Null,
        serde_json::Value::Bool(b) => JsonValue::Bool(*b),
        serde_json::Value::Number(_) => from_serde_number(v),
        serde_json::Value::String(t) => JsonValue::Str(t.clone()),
        serde_json::Value::Array(items) => JsonValue::Array(items.iter().map(from_serde).collect()),
        serde_json::Value::Object(_) => from_serde_object(v),
    }
}

/// Converts a number: an integer that fits is held exactly, any other keeps
/// its text.
#[verifier::external_body]
fn from_serde_number(v: &serde_json::Value) -> JsonValue {
    match (v.as_i64(), v.as_u64()) {
        (Some(i), _) => JsonValue::Integer(i as i128),
        (None, Some(u)) => JsonValue::Integer(u as i128),
        (None, None) => JsonValue::Decimal(v.to_string()),
    }
}

/// Converts an object, member for member.
#[verifier::external_body]
fn from_serde_object(v: &serde_json::Value) -> JsonValue {
    match v.as_object() {
        Some(map) => JsonValue::Object(map.iter().map(|(k, x)| (k.clone(), from_serde(x))).collect()),
        None => JsonValue::Null,
    }
}

/// Converts a library document into serde_json's form, node for node.
#[verifier::external_body]
fn to_serde(v: &JsonValue) -> serde_json::Value {
    match v {
        JsonValue::Null => serde_json::Value::Null,
        JsonValue::Bool(b) => serde_json::Value::Bool(*b),
        JsonValue::Integer(n) => to_serde_integer(*n),
        JsonValue::Decimal(t) => serde_json::from_str(t).unwrap_or(serde_json::Value::Null),
        JsonValue::Str(t) => serde_json::Value::String(t.clone()),
        JsonValue::Array(items) => serde_json::Value::Array(items.iter().map(to_serde).collect()),
        JsonValue::Object(members) => to_serde_object(members),
    }
}

/// Converts an integer; one beyond 64 bits goes through its decimal text.
#[verifier::external_body]
fn to_serde_integer(n: i128) -> serde_json::Value {
    match (i64::try_from(n), u64::try_from(n)) {
        (Ok(i), _) => serde_json::Value::from(i),
        (Err(_), Ok(u)) => serde_json::Value::from(u),
        (Err(_), Err(_)) => serde_json::from_str(&n.to_string()).unwrap_or(serde_json::Value::Null),
    }
}

/// Converts an object's members, in order.
#[verifier::external_body]
fn to_serde_object(members: &Vec<(String, JsonValue)>) -> serde_json::Value {
    serde_json::Value::Object(members.iter().map(|(k, x)| (k.clone(), to_serde(x))).collect())
}

/// Relies on serde_json::from_str: the document that `s` holds, or nothing
/// when `s` is not JSON. The result depends on the text alone.
#[verifier::external_body]
pub fn parse_json(s: &str) -> (r: Option<JsonValue>)
    ensures
        opt_view(r) == json_parse(s@),
{
    match serde_json::from_str::<serde_json::Value>(s) {
        Ok(v) => Some(from_serde(&v)),
        Err(_) => None,
    }
}

/// Relies on serde_json's `Display` for `Value`: the compact JSON text of
/// the document.
#[verifier::external_body]
pub fn to_json_text(v: &JsonValue) -> (r: String)
    ensures
        r@ == json_text(v@),
{
    to_serde(v).to_string()
}

} // verus!
