//! The JSON text of values and responses, and reading JSON text.
use vstd::prelude::*;
use crate::types::{code_of, Error, Id, Output, Response, Value, Version};
use serde_json::Value as JsonTree;

verus! {

/// A lower-case hexadecimal digit.
pub open spec fn hex_char(d: nat) -> char {
    if d < 10 {
        digit_char(d)
    } else if d == 10 {
        'a'
    } else if d == 11 {
        'b'
    } else if d == 12 {
        'c'
    } else if d == 13 {
        'd'
    } else if d == 14 {
        'e'
    } else {
        'f'
    }
}

/// How one character stands in a JSON string literal: quote and backslash
/// behind a backslash, the five control characters with a short escape
/// as such, every other control character as `\u00XX`, anything else as
/// itself.
pub open spec fn escape_char(c: char) -> Seq<char> {
    if c == '"' {
        seq!['\\', '"']
    } else if c == '\\' {
        seq!['\\', '\\']
    } else if c == '\u{8}' {
        seq!['\\', 'b']
    } else if c == '\t' {
        seq!['\\', 't']
    } else if c == '\n' {
        seq!['\\', 'n']
    } else if c == '\u{c}' {
        seq!['\\', 'f']
    } else if c == '\r' {
        seq!['\\', 'r']
    } else if (c as u32) < 0x20 {
        seq!['\\', 'u', '0', '0', hex_char((c as u32 / 16) as nat), hex_char((c as u32 % 16) as nat)]
    } else {
        seq![c]
    }
}

/// The characters of a string with each one escaped.
pub open spec fn escaped(s: Seq<char>) -> Seq<char>
    decreases s.len(),
{
    if s.len() == 0 {
        Seq::empty()
    } else {
        escaped(s.drop_last()) + escape_char(s.last())
    }
}

/// The JSON string literal of `s`: its escaped characters between quotes.
pub open spec fn quoted(s: Seq<char>) -> Seq<char> {
    seq!['"'] + escaped(s) + seq!['"']
}

/// The value that serde_json reads from a text, or `None` where the text is
/// not JSON.
pub uninterp spec fn json_parse(text: Seq<char>) -> Option<Value>;

/// serde_json's dynamic value, which `read_json` copies from.
#[verifier::external_type_specification]
#[verifier::external_body]
pub struct ExJsonTree(JsonTree);

/// Relies on serde_json::to_string on a `&str`: it writes the string as a
/// JSON string literal, escaping by its `ESCAPE` table as `quoted` states,
/// and cannot fail on one.
#[verifier::external_body]
fn quote(s: &str) -> (r: String)
    ensures
        r@ == quoted(s@),
{
    serde_json::to_string(s).unwrap()
}

/// Relies on serde_json::from_str into serde_json::Value: the text is read as
/// one JSON document, or refused. The tree it returns is copied node for
/// node into a `Value`.
#[verifier::external_body]
fn read_json(text: &str) -> (r: Option<Value>)
    ensures
        r == json_parse(text@),
{
    serde_json::from_str::<JsonTree>(text).ok().map(Value::from_outside)
}

impl Value {
    /// Copies serde_json's tree into a `Value`: each variant to its
    /// counterpart, numbers by the kind that serde_json reports.
    #[verifier::external_body]
    fn from_outside(v: JsonTree) -> Value {
        match v {
            JsonTree::Null => Value::Null,
            JsonTree::Bool(b) => Value::Bool(b),
            JsonTree::Number(n) => match (n.as_u64(), n.as_i64()) {
                (Some(u), _) => Value::U64(u),
                (None, Some(i)) => Value::I64(i),
                (None, None) => Value::Float(n.to_string()),
            },
            JsonTree::String(s) => Value::String(s),
            JsonTree::Array(a) => Value::Array(a.into_iter().map(Value::from_outside).collect()),
            JsonTree::Object(m) => Value::Object(m.into_iter().map(|(k, x)| (k, Value::from_outside(x))).collect()),
        }
    }
}

/// Reads a JSON text; `None` where it is not JSON.
pub fn parse_json(text: &str) -> (r: Option<Value>)
    ensures
        r == json_parse(text@),
{
    read_json(text)
}

/// Appends the JSON string literal of `s`.
pub fn write_quoted(s: &str, out: &mut String)
    ensures
        final(out)@ == old(out)@ + quoted(s@),
{
    let q = quote(s);
    out.append(q.as_str());
}

pub open spec fn digit_char(d: nat) -> char {
    if d == 0 {
        '0'
    } else if d == 1 {
        '1'
    } else if d == 2 {
        '2'
    } else if d == 3 {
        '3'
    } else if d == 4 {
        '4'
    } else if d == 5 {
        '5'
    } else if d == 6 {
        '6'
    } else if d == 7 {
        '7'
    } else if d == 8 {
        '8'
    } else {
        '9'
    }
}

/// Decimal digits of `n`, without leading zeros.
pub open spec fn decimal(n: nat) -> Seq<char>
    decreases n,
{
    if n < 10 {
        seq![digit_char(n)]
    } else {
        decimal(n / 10) + seq![digit_char(n % 10)]
    }
}

/// Decimal text of a signed integer.
pub open spec fn int_text(n: int) -> Seq<char> {
    if n < 0 {
        "-"@ + decimal((-n) as nat)
    } else {
        decimal(n as nat)
    }
}

/// The compact JSON text of a value: no spaces, members in their order.
pub open spec fn json_text(v: Value) -> Seq<char>
    decreases v,
{
    match v {
        Value::Null => "null"@,
        Value::Bool(b) => if b {
            "true"@
        } else {
            "false"@
        },
        Value::U64(n) => decimal(n as nat),
        Value::I64(n) => int_text(n as int),
        Value::Float(t) => t@,
        Value::String(s) => quoted(s@),
        Value::Array(items) => "["@ + items_text(items@) + "]"@,
        Value::Object(fields) => "{"@ + members_text(fields@) + "}"@,
    }
}

/// Elements separated by commas.
pub open spec fn items_text(items: Seq<Value>) -> Seq<char>
    decreases items,
{
    if items.len() == 0 {
        Seq::empty()
    } else if items.len() == 1 {
        json_text(items[0])
    } else {
        items_text(items.drop_last()) + ","@ + json_text(items.last())
    }
}

/// Members `"key":value` separated by commas.
pub open spec fn members_text(fields: Seq<(String, Value)>) -> Seq<char>
    decreases fields,
{
    if fields.len() == 0 {
        Seq::empty()
    } else if fields.len() == 1 {
        quoted(fields[0].0@) + ":"@ + json_text(fields[0].1)
    } else {
        members_text(fields.drop_last()) + ","@ + quoted(fields.last().0@) + ":"@ + json_text(
            fields.last().1,
        )
    }
}

fn push_digit(d: u64, out: &mut String)
    requires
        d < 10,
    ensures
        final(out)@ == old(out)@ + seq![digit_char(d as nat)],
{
    proof {
        reveal_strlit("0");
        reveal_strlit("1");
        reveal_strlit("2");
        reveal_strlit("3");
        reveal_strlit("4");
        reveal_strlit("5");
        reveal_strlit("6");
        reveal_strlit("7");
        reveal_strlit("8");
        reveal_strlit("9");
    }
    let t = if d == 0 {
        "0"
    } else if d == 1 {
        "1"
    } else if d == 2 {
        "2"
    } else if d == 3 {
        "3"
    } else if d == 4 {
        "4"
    } else if d == 5 {
        "5"
    } else if d == 6 {
        "6"
    } else if d == 7 {
        "7"
    } else if d == 8 {
        "8"
    } else {
        "9"
    };
    out.append(t);
    assert(t@ =~= seq![digit_char(d as nat)]);
}

/// Appends the decimal digits of `n`.
pub fn write_u64(n: u64, out: &mut String)
    ensures
        final(out)@ == old(out)@ + decimal(n as nat),
    decreases n,
{
    if n >= 10 {
        write_u64(n / 10, out);
        push_digit(n % 10, out);
        assert(final(out)@ =~= old(out)@ + decimal(n as nat)) by {
            assert(decimal(n as nat) == decimal((n / 10) as nat) + seq![digit_char((n % 10) as nat)]);
        }
    } else {
        push_digit(n, out);
    }
}

/// Appends the decimal text of a signed integer.
pub fn write_i64(n: i64, out: &mut String)
    ensures
        final(out)@ == old(out)@ + int_text(n as int),
{
    if n < 0 {
        out.append("-");
        let m: u64 = (-(n as i128)) as u64;
        write_u64(m, out);
        assert(final(out)@ =~= old(out)@ + int_text(n as int));
    } else {
        write_u64(n as u64, out);
    }
}

/// Appends the JSON text of a value.
pub fn write_value(v: &Value, out: &mut String)
    ensures
        final(out)@ == old(out)@ + json_text(*v),
    decreases v,
{
    match v {
        Value::Null => out.append("null"),
        Value::Bool(b) => if *b {
            out.append("true")
        } else {
            out.append("false")
        },
        Value::U64(n) => write_u64(*n, out),
        Value::I64(n) => write_i64(*n, out),
        Value::Float(t) => out.append(t.as_str()),
        Value::String(s) => {
            let q = quote(s.as_str());
            out.append(q.as_str());
        },
        Value::Array(items) => {
            let ghost start = out@;
            out.append("[");
            let mut i: usize = 0;
            while i < items.len()
                invariant
                    *v == Value::Array(*items),
                    i <= items@.len(),
                    out@ == start + "["@ + items_text(items@.subrange(0, i as int)),
                decreases items@.len() - i,
            {
                proof {
                    broadcast use vstd::std_specs::vec::axiom_vec_index_decreases;
                    assert(decreases_to!(*v => (*v)->Array_0));
                    assert(decreases_to!((*v)->Array_0 => (*v)->Array_0[i as int]));
                }
                if i > 0 {
                    out.append(",");
                }
                write_value(&items[i], out);
                proof {
                    let t = items@.subrange(0, i + 1);
                    assert(t.drop_last() =~= items@.subrange(0, i as int));
                    assert(t.last() == items@[i as int]);
                    if i == 0 {
                        assert(items_text(t) == json_text(t[0]));
                    }
                }
                i += 1;
            }
            out.append("]");
            assert(items@.subrange(0, items@.len() as int) =~= items@);
        },
        Value::Object(fields) => {
            let ghost start = out@;
            out.append("{");
            let mut i: usize = 0;
            while i < fields.len()
                invariant
                    *v == Value::Object(*fields),
                    i <= fields@.len(),
                    out@ == start + "{"@ + members_text(fields@.subrange(0, i as int)),
                decreases fields@.len() - i,
            {
                proof {
                    broadcast use vstd::std_specs::vec::axiom_vec_index_decreases;
                    assert(decreases_to!(*v => (*v)->Object_0));
                    assert(decreases_to!((*v)->Object_0 => (*v)->Object_0[i as int]));
                    assert(decreases_to!((*v)->Object_0[i as int] => (*v)->Object_0[i as int].1));
                }
                if i > 0 {
                    out.append(",");
                }
                let q = quote(fields[i].0.as_str());
                out.append(q.as_str());
                out.append(":");
                write_value(&fields[i].1, out);
                proof {
                    let t = fields@.subrange(0, i + 1);
                    assert(t.drop_last() =~= fields@.subrange(0, i as int));
                    assert(t.last() == fields@[i as int]);
                }
                i += 1;
            }
            out.append("}");
            assert(fields@.subrange(0, fields@.len() as int) =~= fields@);
        },
    }
}

pub open spec fn version_text(v: Version) -> Seq<char> {
    match v {
        Version::V2 => "\"2.0\""@,
        Version::Unsupported(s) => quoted(s@),
    }
}

pub open spec fn id_text(id: Id) -> Seq<char> {
    match id {
        Id::Null => "null"@,
        Id::Num(n) => decimal(n as nat),
        Id::Neg(n) => int_text(n as int),
        Id::Str(s) => quoted(s@),
    }
}

/// `{"code":..,"message":..,"data":..}`, with `null` for absent data.
pub open spec fn error_text(e: Error) -> Seq<char> {
    "{\"code\":"@ + int_text(code_of(e.code) as int) + ",\"message\":"@ + quoted(e.message@)
        + ",\"data\":"@ + match e.data {
        Some(d) => json_text(d),
        None => "null"@,
    } + "}"@
}

/// `{"jsonrpc":..,"result":..,"id":..}` or `{"jsonrpc":..,"error":..,"id":..}`.
pub open spec fn output_text(o: Output) -> Seq<char> {
    match o {
        Output::Success { jsonrpc, result, id } => "{\"jsonrpc\":"@ + version_text(jsonrpc)
            + ",\"result\":"@ + json_text(result) + ",\"id\":"@ + id_text(id) + "}"@,
        Output::Failure { jsonrpc, error, id } => "{\"jsonrpc\":"@ + version_text(jsonrpc)
            + ",\"error\":"@ + error_text(error) + ",\"id\":"@ + id_text(id) + "}"@,
    }
}

/// Outputs separated by commas.
pub open spec fn outputs_text(os: Seq<Output>) -> Seq<char>
    decreases os.len(),
{
    if os.len() == 0 {
        Seq::empty()
    } else if os.len() == 1 {
        output_text(os[0])
    } else {
        outputs_text(os.drop_last()) + ","@ + output_text(os.last())
    }
}

/// The JSON text of a response: one output, or an array of them.
pub open spec fn response_text(r: Response) -> Seq<char> {
    match r {
        Response::Single(o) => output_text(o),
        Response::Batch(os) => "["@ + outputs_text(os@) + "]"@,
    }
}

pub(crate) fn write_version(v: &Version, out: &mut String)
    ensures
        final(out)@ == old(out)@ + version_text(*v),
{
    match v {
        Version::V2 => out.append("\"2.0\""),
        Version::Unsupported(s) => {
            let q = quote(s.as_str());
            out.append(q.as_str());
        },
    }
}

pub(crate) fn write_id(id: &Id, out: &mut String)
    ensures
        final(out)@ == old(out)@ + id_text(*id),
{
    match id {
        Id::Null => out.append("null"),
        Id::Num(n) => write_u64(*n, out),
        Id::Neg(n) => write_i64(*n, out),
        Id::Str(s) => {
            let q = quote(s.as_str());
            out.append(q.as_str());
        },
    }
}

fn write_error(e: &Error, out: &mut String)
    ensures
        final(out)@ == old(out)@ + error_text(*e),
{
    let ghost start = out@;
    out.append("{\"code\":");
    write_i64(e.code.code(), out);
    out.append(",\"message\":");
    let q = quote(e.message.as_str());
    out.append(q.as_str());
    out.append(",\"data\":");
    match &e.data {
        Some(d) => write_value(d, out),
        None => out.append("null"),
    }
    out.append("}");
    assert(out@ =~= start + error_text(*e));
}

/// Appends the JSON text of one output.
pub fn write_output(o: &Output, out: &mut String)
    ensures
        final(out)@ == old(out)@ + output_text(*o),
{
    let ghost start = out@;
    match o {
        Output::Success { jsonrpc, result, id } => {
            out.append("{\"jsonrpc\":");
            write_version(jsonrpc, out);
            out.append(",\"result\":");
            write_value(result, out);
            out.append(",\"id\":");
            write_id(id, out);
            out.append("}");
        },
        Output::Failure { jsonrpc, error, id } => {
            out.append("{\"jsonrpc\":");
            write_version(jsonrpc, out);
            out.append(",\"error\":");
            write_error(error, out);
            out.append(",\"id\":");
            write_id(id, out);
            out.append("}");
        },
    }
    assert(out@ =~= start + output_text(*o));
}

/// The JSON text of a response.
pub fn write_response(r: &Response) -> (t: String)
    ensures
        t@ == response_text(*r),
{
    let mut out = String::new();
    match r {
        Response::Single(o) => write_output(o, &mut out),
        Response::Batch(os) => {
            out.append("[");
            let mut i: usize = 0;
            while i < os.len()
                invariant
                    i <= os@.len(),
                    out@ == "["@ + outputs_text(os@.subrange(0, i as int)),
                decreases os@.len() - i,
            {
                if i > 0 {
                    out.append(",");
                }
                write_output(&os[i], &mut out);
                proof {
                    let t = os@.subrange(0, i + 1);
                    assert(t.drop_last() =~= os@.subrange(0, i as int));
                    assert(t.last() == os@[i as int]);
                }
                i += 1;
            }
            out.append("]");
            assert(os@.subrange(0, os@.len() as int) =~= os@);
        },
    }
    out
}

} // verus!
