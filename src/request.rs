//! Reading calls and requests out of JSON values, and writing them back.
use vstd::prelude::*;
use crate::json::{
    id_text, json_parse, json_text, parse_json, quoted, version_text, write_id, write_quoted, write_value,
    write_version,
};
use crate::text::same_text;
use crate::types::{Call, Id, MethodCall, Notification, Params, Request, Value, Version};

verus! {

/// The value stored under `key` in an object; of two entries with one key
/// the later one counts.
pub open spec fn lookup(fields: Seq<(String, Value)>, key: Seq<char>) -> Option<Value>
    decreases fields.len(),
{
    if fields.len() == 0 {
        None
    } else if fields.last().0@ == key {
        Some(fields.last().1)
    } else {
        lookup(fields.drop_last(), key)
    }
}

/// The four members that a call object may have.
pub open spec fn is_call_key(k: Seq<char>) -> bool {
    k == "jsonrpc"@ || k == "method"@ || k == "params"@ || k == "id"@
}

/// Every member of the object is one of the four call members.
pub open spec fn call_keys_only(fields: Seq<(String, Value)>) -> bool
    decreases fields.len(),
{
    fields.len() == 0 || (is_call_key(fields.last().0@) && call_keys_only(fields.drop_last()))
}

/// The id that a value denotes: null, an integer or a string.
pub open spec fn id_of(v: Value) -> Option<Id> {
    match v {
        Value::Null => Some(Id::Null),
        Value::U64(n) => Some(Id::Num(n)),
        Value::I64(n) => Some(Id::Neg(n)),
        Value::String(s) => Some(Id::Str(s)),
        _ => None,
    }
}

/// The parameters that a value denotes: null, an array or an object.
pub open spec fn params_of(v: Value) -> Option<Params> {
    match v {
        Value::Null => Some(Params::Empty),
        Value::Array(a) => Some(Params::Array(a)),
        Value::Object(o) => Some(Params::Object(o)),
        _ => None,
    }
}

pub open spec fn version_of(s: String) -> Version {
    if s@ == "2.0"@ {
        Version::V2
    } else {
        Version::Unsupported(s)
    }
}

/// The id that an object which is not a call answers to.
pub open spec fn echoed_id(fields: Seq<(String, Value)>) -> Id {
    match lookup(fields, "id"@) {
        Some(v) => match id_of(v) {
            Some(id) => id,
            None => Id::Null,
        },
        None => Id::Null,
    }
}

/// The members of an object have the shape of a call (the version literal
/// aside).
pub open spec fn call_shaped(fields: Seq<(String, Value)>) -> bool {
    &&& call_keys_only(fields)
    &&& lookup(fields, "jsonrpc"@) matches Some(Value::String(_))
    &&& lookup(fields, "method"@) matches Some(Value::String(_))
    &&& (lookup(fields, "params"@) matches Some(p) ==> params_of(p) is Some)
    &&& (lookup(fields, "id"@) matches Some(i) ==> id_of(i) is Some)
}

/// The call that the members of an object make.
///
/// With an id it is a method call, whatever its version literal (the
/// dispatcher rejects one that is not "2.0"). Without an id it is a
/// notification if its version is "2.0", and invalid otherwise.
pub open spec fn call_of_fields(fields: Seq<(String, Value)>) -> Call {
    if call_shaped(fields) {
        let s = lookup(fields, "jsonrpc"@).unwrap()->String_0;
        let m = lookup(fields, "method"@).unwrap()->String_0;
        let p = match lookup(fields, "params"@) {
            Some(v) => params_of(v),
            None => None,
        };
        match lookup(fields, "id"@) {
            None => if s@ == "2.0"@ {
                Call::Notification(Notification { jsonrpc: Version::V2, method: m, params: p })
            } else {
                Call::Invalid(Id::Null)
            },
            Some(i) => Call::MethodCall(
                MethodCall { jsonrpc: version_of(s), method: m, params: p, id: id_of(i).unwrap() },
            ),
        }
    } else {
        Call::Invalid(echoed_id(fields))
    }
}

/// The call that a JSON value makes; anything but an object is invalid.
pub open spec fn call_of(v: Value) -> Call {
    match v {
        Value::Object(fields) => call_of_fields(fields@),
        _ => Call::Invalid(Id::Null),
    }
}

/// `req` is what value `v` reads as: an array is a batch of its elements'
/// calls, anything else a single call.
pub open spec fn request_is(v: Value, req: Request) -> bool {
    match v {
        Value::Array(items) => req matches Request::Batch(calls) && calls@ == items@.map_values(
            |x: Value| call_of(x),
        ),
        _ => req == Request::Single(call_of(v)),
    }
}

/// A call that can be written and read back: a method call or a
/// notification of version "2.0".
pub open spec fn valid_call(c: Call) -> bool {
    match c {
        Call::MethodCall(m) => m.jsonrpc == Version::V2,
        Call::Notification(n) => n.jsonrpc == Version::V2,
        Call::Invalid(_) => false,
    }
}

pub open spec fn valid_request(r: Request) -> bool {
    match r {
        Request::Single(c) => valid_call(c),
        Request::Batch(cs) => forall|i: int| 0 <= i < cs@.len() ==> valid_call(#[trigger] cs@[i]),
    }
}

proof fn lemma_call_keys_distinct()
    ensures
        "jsonrpc"@ != "method"@,
        "jsonrpc"@ != "params"@,
        "jsonrpc"@ != "id"@,
        "method"@ != "params"@,
        "method"@ != "id"@,
        "params"@ != "id"@,
{
    reveal_strlit("jsonrpc");
    reveal_strlit("method");
    reveal_strlit("params");
    reveal_strlit("id");
    assert("method"@[0] != "params"@[0]);
    assert("jsonrpc"@[0] != "id"@[0]);
}

fn id_from(v: Value) -> (r: Option<Id>)
    ensures
        r == id_of(v),
{
    match v {
        Value::Null => Some(Id::Null),
        Value::U64(n) => Some(Id::Num(n)),
        Value::I64(n) => Some(Id::Neg(n)),
        Value::String(s) => Some(Id::Str(s)),
        _ => None,
    }
}

fn params_from(v: Value) -> (r: Option<Params>)
    ensures
        r == params_of(v),
{
    match v {
        Value::Null => Some(Params::Empty),
        Value::Array(a) => Some(Params::Array(a)),
        Value::Object(o) => Some(Params::Object(o)),
        _ => None,
    }
}

/// The four call members of an object, and whether it has no other member.
struct CallMembers {
    keys_ok: bool,
    jsonrpc: Option<Value>,
    method: Option<Value>,
    params: Option<Value>,
    id: Option<Value>,
}

fn take_members(fields: Vec<(String, Value)>) -> (r: CallMembers)
    ensures
        r.keys_ok == call_keys_only(fields@),
        r.jsonrpc == lookup(fields@, "jsonrpc"@),
        r.method == lookup(fields@, "method"@),
        r.params == lookup(fields@, "params"@),
        r.id == lookup(fields@, "id"@),
{
    let ghost orig = fields@;
    let mut fields = fields;
    let mut r = CallMembers { keys_ok: true, jsonrpc: None, method: None, params: None, id: None };
    while fields.len() > 0
        invariant
            call_keys_only(orig) == (r.keys_ok && call_keys_only(fields@)),
            lookup(orig, "jsonrpc"@) == match r.jsonrpc {
                Some(x) => Some(x),
                None => lookup(fields@, "jsonrpc"@),
            },
            lookup(orig, "method"@) == match r.method {
                Some(x) => Some(x),
                None => lookup(fields@, "method"@),
            },
            lookup(orig, "params"@) == match r.params {
                Some(x) => Some(x),
                None => lookup(fields@, "params"@),
            },
            lookup(orig, "id"@) == match r.id {
                Some(x) => Some(x),
                None => lookup(fields@, "id"@),
            },
        decreases fields.len(),
    {
        proof {
            lemma_call_keys_distinct();
        }
        let ghost before = fields@;
        let (k, x) = fields.pop().unwrap();
        assert(fields@ == before.drop_last());
        assert(before.last() == (k, x));
        assert(forall|key: Seq<char>|
            lookup(before, key) == if k@ == key {
                Some(x)
            } else {
                lookup(fields@, key)
            });
        if same_text(k.as_str(), "jsonrpc") {
            if r.jsonrpc.is_none() {
                r.jsonrpc = Some(x);
            }
        } else if same_text(k.as_str(), "method") {
            if r.method.is_none() {
                r.method = Some(x);
            }
        } else if same_text(k.as_str(), "params") {
            if r.params.is_none() {
                r.params = Some(x);
            }
        } else if same_text(k.as_str(), "id") {
            if r.id.is_none() {
                r.id = Some(x);
            }
        } else {
            r.keys_ok = false;
        }
    }
    r
}

impl Call {
    /// Reads a call out of a JSON value.
    pub fn from_value(v: Value) -> (c: Call)
        ensures
            c == call_of(v),
    {
        match v {
            Value::Object(fields) => {
                let m = take_members(fields);
                let id: Option<Option<Id>> = match m.id {
                    Some(x) => Some(id_from(x)),
                    None => None,
                };
                let params: Option<Option<Params>> = match m.params {
                    Some(x) => Some(params_from(x)),
                    None => None,
                };
                let params_ok = match &params {
                    Some(p) => p.is_some(),
                    None => true,
                };
                let id_ok = match &id {
                    Some(i) => i.is_some(),
                    None => true,
                };
                if m.keys_ok && params_ok && id_ok {
                    match (m.jsonrpc, m.method) {
                        (Some(Value::String(s)), Some(Value::String(name))) => {
                            let p = match params {
                                Some(p) => p,
                                None => None,
                            };
                            let v2 = same_text(s.as_str(), "2.0");
                            match id {
                                None => if v2 {
                                    Call::Notification(
                                        Notification { jsonrpc: Version::V2, method: name, params: p },
                                    )
                                } else {
                                    Call::Invalid(Id::Null)
                                },
                                Some(i) => {
                                    let jsonrpc = if v2 {
                                        Version::V2
                                    } else {
                                        Version::Unsupported(s)
                                    };
                                    Call::MethodCall(
                                        MethodCall { jsonrpc, method: name, params: p, id: i.unwrap() },
                                    )
                                },
                            }
                        },
                        _ => Call::Invalid(
                            match id {
                                Some(Some(i)) => i,
                                _ => Id::Null,
                            },
                        ),
                    }
                } else {
                    Call::Invalid(
                        match id {
                            Some(Some(i)) => i,
                            _ => Id::Null,
                        },
                    )
                }
            },
            _ => Call::Invalid(Id::Null),
        }
    }
}

/// The request holds a call that cannot be written.
pub open spec fn has_invalid(r: Request) -> bool {
    match r {
        Request::Single(c) => c is Invalid,
        Request::Batch(cs) => exists|i: int| 0 <= i < cs@.len() && #[trigger] cs@[i] is Invalid,
    }
}

/// `v` is the value that request `r` is written as: one call's object, or
/// an array of them in order.
pub open spec fn value_of_request_is(v: Value, r: Request) -> bool {
    match r {
        Request::Single(c) => value_of_call_is(v, c),
        Request::Batch(cs) => v matches Value::Array(items) && items@.len() == cs@.len() && forall|
            i: int,
        |
            0 <= i < cs@.len() ==> value_of_call_is(#[trigger] items@[i], cs@[i]),
    }
}

impl Request {
    /// Reads a request out of a JSON value: an array is a batch, anything
    /// else a single call.
    pub fn from_value(v: Value) -> (r: Request)
        ensures
            request_is(v, r),
    {
        match v {
            Value::Array(items) => {
                let ghost orig = items@;
                let mut items = items;
                let mut calls: Vec<Call> = Vec::new();
                while items.len() > 0
                    invariant
                        calls@.len() + items@.len() == orig.len(),
                        items@ == orig.subrange(calls@.len() as int, orig.len() as int),
                        forall|i: int| 0 <= i < calls@.len() ==> calls@[i] == call_of(orig[i]),
                    decreases items.len(),
                {
                    let x = items.remove(0);
                    calls.push(Call::from_value(x));
                }
                assert(calls@ =~= orig.map_values(|x: Value| call_of(x)));
                Request::Batch(calls)
            },
            other => Request::Single(Call::from_value(other)),
        }
    }

    /// Writes the request as a JSON value; `None` if it holds an invalid
    /// call. A valid request reads back as itself.
    pub fn to_value(self) -> (r: Option<Value>)
        ensures
            r is None <==> has_invalid(self),
            r matches Some(v) ==> value_of_request_is(v, self),
            valid_request(self) ==> (r matches Some(v) && request_is(v, self)),
    {
        let ghost whole = self;
        match self {
            Request::Single(c) => c.to_value(),
            Request::Batch(calls) => {
                let ghost orig = calls@;
                let mut calls = calls;
                let mut items: Vec<Value> = Vec::new();
                while calls.len() > 0
                    invariant
                        items@.len() + calls@.len() == orig.len(),
                        calls@ == orig.subrange(items@.len() as int, orig.len() as int),
                        whole == self,
                        (whole matches Request::Batch(cs) && cs@ == orig),
                        valid_request(whole) ==> forall|i: int|
                            0 <= i < orig.len() ==> valid_call(#[trigger] orig[i]),
                        forall|i: int|
                            0 <= i < items@.len() ==> valid_call(orig[i]) ==> call_of(#[trigger] items@[i])
                                == orig[i],
                        forall|i: int|
                            0 <= i < items@.len() ==> value_of_call_is(#[trigger] items@[i], orig[i]),
                        forall|i: int| 0 <= i < items@.len() ==> !(#[trigger] orig[i] is Invalid),
                    decreases calls.len(),
                {
                    let ghost k = items@.len() as int;
                    let c = calls.remove(0);
                    assert(c == orig[k]);
                    match c.to_value() {
                        Some(x) => items.push(x),
                        None => {
                            assert(!valid_call(orig[k]));
                            assert(orig[k] is Invalid);
                            return None;
                        },
                    }
                }
                let ghost iv = items@;
                let r = Value::Array(items);
                proof {
                    if forall|i: int| 0 <= i < orig.len() ==> valid_call(#[trigger] orig[i]) {
                        assert(iv.map_values(|x: Value| call_of(x)) =~= orig);
                    }
                }
                Some(r)
            },
        }
    }
}

/// The value that an id is written as.
pub open spec fn value_of_id(id: Id) -> Value {
    match id {
        Id::Null => Value::Null,
        Id::Num(n) => Value::U64(n),
        Id::Neg(n) => Value::I64(n),
        Id::Str(s) => Value::String(s),
    }
}

/// The value that parameters are written as.
pub open spec fn value_of_params(p: Params) -> Value {
    match p {
        Params::Empty => Value::Null,
        Params::Array(a) => Value::Array(a),
        Params::Object(o) => Value::Object(o),
    }
}

/// `x` is the string that a version is written as.
pub open spec fn version_value_is(x: Value, v: Version) -> bool {
    match v {
        Version::V2 => x matches Value::String(s) && s@ == "2.0"@,
        Version::Unsupported(s) => x == Value::String(s),
    }
}

/// `f` holds the members of call `c` in the order jsonrpc, method, params
/// (where present), id (for a method call).
pub open spec fn members_of_call(c: Call, f: Seq<(String, Value)>) -> bool {
    match c {
        Call::MethodCall(m) => {
            let n: int = if m.params is Some { 4 } else { 3 };
            &&& f.len() == n
            &&& f[0].0@ == "jsonrpc"@ && version_value_is(f[0].1, m.jsonrpc)
            &&& f[1].0@ == "method"@ && f[1].1 == Value::String(m.method)
            &&& (m.params matches Some(p) ==> f[2].0@ == "params"@ && f[2].1 == value_of_params(p))
            &&& f[n - 1].0@ == "id"@ && f[n - 1].1 == value_of_id(m.id)
        },
        Call::Notification(x) => {
            let n: int = if x.params is Some { 3 } else { 2 };
            &&& f.len() == n
            &&& f[0].0@ == "jsonrpc"@ && version_value_is(f[0].1, x.jsonrpc)
            &&& f[1].0@ == "method"@ && f[1].1 == Value::String(x.method)
            &&& (x.params matches Some(p) ==> f[2].0@ == "params"@ && f[2].1 == value_of_params(p))
        },
        Call::Invalid(_) => false,
    }
}

/// `v` is the object that call `c` is written as.
pub open spec fn value_of_call_is(v: Value, c: Call) -> bool {
    v matches Value::Object(f) && members_of_call(c, f@)
}

fn id_value(id: Id) -> (r: Value)
    ensures
        r == value_of_id(id),
        id_of(r) == Some(id),
{
    match id {
        Id::Null => Value::Null,
        Id::Num(n) => Value::U64(n),
        Id::Neg(n) => Value::I64(n),
        Id::Str(s) => Value::String(s),
    }
}

fn params_value(p: Params) -> (r: Value)
    ensures
        r == value_of_params(p),
        params_of(r) == Some(p),
{
    match p {
        Params::Empty => Value::Null,
        Params::Array(a) => Value::Array(a),
        Params::Object(o) => Value::Object(o),
    }
}

fn version_value(v: Version) -> (r: String)
    ensures
        v == Version::V2 ==> r@ == "2.0"@,
        v matches Version::Unsupported(s) ==> r == s,
{
    match v {
        Version::V2 => String::from_str("2.0"),
        Version::Unsupported(s) => s,
    }
}

impl Call {
    /// Writes the call as a JSON object with its members in the order
    /// jsonrpc, method, params, id; `None` for an invalid call. A valid call
    /// reads back as itself.
    pub fn to_value(self) -> (r: Option<Value>)
        ensures
            self is Invalid <==> r is None,
            r matches Some(v) ==> value_of_call_is(v, self),
            valid_call(self) ==> (r matches Some(v) && call_of(v) == self),
    {
        proof {
            lemma_call_keys_distinct();
        }
        match self {
            Call::MethodCall(m) => {
                let mut fields: Vec<(String, Value)> = Vec::new();
                fields.push((String::from_str("jsonrpc"), Value::String(version_value(m.jsonrpc))));
                fields.push((String::from_str("method"), Value::String(m.method)));
                match m.params {
                    Some(p) => fields.push((String::from_str("params"), params_value(p))),
                    None => {},
                }
                fields.push((String::from_str("id"), id_value(m.id)));
                proof {
                    reveal_with_fuel(lookup, 5);
                    reveal_with_fuel(call_keys_only, 5);
                }
                Some(Value::Object(fields))
            },
            Call::Notification(n) => {
                let mut fields: Vec<(String, Value)> = Vec::new();
                fields.push((String::from_str("jsonrpc"), Value::String(version_value(n.jsonrpc))));
                fields.push((String::from_str("method"), Value::String(n.method)));
                match n.params {
                    Some(p) => fields.push((String::from_str("params"), params_value(p))),
                    None => {},
                }
                proof {
                    reveal_with_fuel(lookup, 5);
                    reveal_with_fuel(call_keys_only, 5);
                }
                Some(Value::Object(fields))
            },
            Call::Invalid(_) => None,
        }
    }
}

impl Call {
    /// Reads a call from JSON text; `None` where the text is not JSON.
    pub fn from_json(text: &str) -> (r: Option<Call>)
        ensures
            r == match json_parse(text@) {
                Some(v) => Some(call_of(v)),
                None => None,
            },
    {
        match parse_json(text) {
            Some(v) => Some(Call::from_value(v)),
            None => None,
        }
    }

    /// The JSON text of a call, members in the order jsonrpc, method,
    /// params (where present), id (for a method call); `None` for an invalid
    /// call.
    pub fn to_json(self) -> (r: Option<String>)
        ensures
            match self {
                Call::Invalid(_) => r is None,
                _ => r matches Some(t) && t@ == call_text(self),
            },
    {
        if let Call::Invalid(_) = self {
            return None;
        }
        let mut t = String::new();
        write_call(self, &mut t);
        Some(t)
    }
}

impl Request {
    /// Reads a request from JSON text; `None` where the text is not JSON.
    pub fn from_json(text: &str) -> (r: Option<Request>)
        ensures
            match json_parse(text@) {
                Some(v) => r matches Some(req) && request_is(v, req),
                None => r is None,
            },
    {
        match parse_json(text) {
            Some(v) => Some(Request::from_value(v)),
            None => None,
        }
    }

    /// The JSON text of a request: a call's text, or an array of them in
    /// order; `None` if it holds an invalid call.
    pub fn to_json(self) -> (r: Option<String>)
        ensures
            has_invalid(self) ==> r is None,
            !has_invalid(self) ==> (r matches Some(t) && t@ == request_text(self)),
    {
        let ghost whole = self;
        match self {
            Request::Single(c) => c.to_json(),
            Request::Batch(calls) => {
                let ghost orig = calls@;
                let mut calls = calls;
                let total = calls.len();
                let mut t = String::new();
                t.append("[");
                let mut k: usize = 0;
                while calls.len() > 0
                    invariant
                        total == orig.len(),
                        k + calls@.len() == orig.len(),
                        calls@ == orig.subrange(k as int, orig.len() as int),
                        whole == self,
                        (whole matches Request::Batch(cs) && cs@ == orig),
                        forall|i: int| 0 <= i < k ==> !(#[trigger] orig[i] is Invalid),
                        t@ == "["@ + calls_text(orig.subrange(0, k as int)),
                    decreases calls.len(),
                {
                    let c = calls.remove(0);
                    assert(c == orig[k as int]);
                    if let Call::Invalid(_) = c {
                        return None;
                    }
                    if k > 0 {
                        t.append(",");
                    }
                    write_call(c, &mut t);
                    proof {
                        let s2 = orig.subrange(0, k + 1);
                        assert(s2.drop_last() =~= orig.subrange(0, k as int));
                        assert(s2.last() == orig[k as int]);
                    }
                    k += 1;
                }
                t.append("]");
                assert(orig.subrange(0, orig.len() as int) =~= orig);
                assert(!has_invalid(whole));
                Some(t)
            },
        }
    }
}

/// `,"params":` and the parameters' text, where present.
pub open spec fn params_text(p: Option<Params>) -> Seq<char> {
    match p {
        Some(q) => ",\"params\":"@ + json_text(value_of_params(q)),
        None => Seq::empty(),
    }
}

/// The JSON text of a call.
pub open spec fn call_text(c: Call) -> Seq<char> {
    match c {
        Call::MethodCall(m) => "{\"jsonrpc\":"@ + version_text(m.jsonrpc) + ",\"method\":"@ + quoted(
            m.method@,
        ) + params_text(m.params) + ",\"id\":"@ + id_text(m.id) + "}"@,
        Call::Notification(n) => "{\"jsonrpc\":"@ + version_text(n.jsonrpc) + ",\"method\":"@
            + quoted(n.method@) + params_text(n.params) + "}"@,
        Call::Invalid(_) => Seq::empty(),
    }
}

/// Calls' texts separated by commas.
pub open spec fn calls_text(cs: Seq<Call>) -> Seq<char>
    decreases cs.len(),
{
    if cs.len() == 0 {
        Seq::empty()
    } else if cs.len() == 1 {
        call_text(cs[0])
    } else {
        calls_text(cs.drop_last()) + ","@ + call_text(cs.last())
    }
}

/// The JSON text of a request.
pub open spec fn request_text(r: Request) -> Seq<char> {
    match r {
        Request::Single(c) => call_text(c),
        Request::Batch(cs) => "["@ + calls_text(cs@) + "]"@,
    }
}

fn write_params(p: Option<Params>, out: &mut String)
    ensures
        final(out)@ == old(out)@ + params_text(p),
{
    let ghost start = out@;
    match p {
        Some(q) => {
            out.append(",\"params\":");
            let v = params_value(q);
            write_value(&v, out);
        },
        None => {},
    }
    assert(out@ =~= start + params_text(p));
}

fn write_call(c: Call, out: &mut String)
    requires
        !(c is Invalid),
    ensures
        final(out)@ == old(out)@ + call_text(c),
{
    let ghost start = out@;
    match c {
        Call::MethodCall(m) => {
            out.append("{\"jsonrpc\":");
            write_version(&m.jsonrpc, out);
            out.append(",\"method\":");
            write_quoted(m.method.as_str(), out);
            write_params(m.params, out);
            out.append(",\"id\":");
            write_id(&m.id, out);
            out.append("}");
        },
        Call::Notification(n) => {
            out.append("{\"jsonrpc\":");
            write_version(&n.jsonrpc, out);
            out.append(",\"method\":");
            write_quoted(n.method.as_str(), out);
            write_params(n.params, out);
            out.append("}");
        },
        Call::Invalid(_) => {},
    }
    assert(out@ =~= start + call_text(c));
}

/// Two requests hold the same calls in the same order.
pub open spec fn same_calls(a: Request, b: Request) -> bool {
    match (a, b) {
        (Request::Single(x), Request::Single(y)) => x == y,
        (Request::Batch(xs), Request::Batch(ys)) => xs@ == ys@,
        _ => false,
    }
}

/// Reading back what a valid request was written as gives the same request:
/// `to_value` yields a value that the request is read from, and `from_value`
/// reads every value in one way only.
pub proof fn lemma_request_round_trip(req: Request, v: Value, back: Request)
    requires
        valid_request(req),
        request_is(v, req),
        request_is(v, back),
    ensures
        same_calls(req, back),
{
}

} // verus!
