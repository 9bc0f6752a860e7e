use jsonrpc_core::io::{IoHandler, Route};
use jsonrpc_core::registry::{IoDelegate, NotificationCommand, RpcMethod, RpcNotification, SyncMethodCommand};
use jsonrpc_core::types::{Call, Error, ErrorCode, Id, Params, Value};
use std::cell::Cell;
use std::rc::Rc;
use std::sync::atomic::{AtomicU32, Ordering};
use std::sync::Arc;

struct Hello;
impl SyncMethodCommand for Hello {
    fn execute(&self, _params: Params) -> Result<Value, Error> {
        Ok(Value::String("hello".to_string()))
    }
}

struct Fails;
impl SyncMethodCommand for Fails {
    fn execute(&self, _params: Params) -> Result<Value, Error> {
        Err(Error::new(ErrorCode::ServerError(-1)))
    }
}

struct Echo;
impl SyncMethodCommand for Echo {
    fn execute(&self, params: Params) -> Result<Value, Error> {
        match params {
            Params::Array(a) => Ok(Value::Array(a)),
            Params::Object(o) => Ok(Value::Object(o)),
            Params::Empty => Ok(Value::Null),
        }
    }
}

struct Counter(Arc<AtomicU32>);
impl NotificationCommand for Counter {
    fn execute(&self, _params: Params) {
        self.0.fetch_add(1, Ordering::SeqCst);
    }
}

struct CountingMethod(Arc<AtomicU32>);
impl SyncMethodCommand for CountingMethod {
    fn execute(&self, _params: Params) -> Result<Value, Error> {
        self.0.fetch_add(1, Ordering::SeqCst);
        Err(Error::internal_error())
    }
}

fn hello_io() -> IoHandler<()> {
    let mut io = IoHandler::new();
    io.add_method("say_hello", Hello);
    io
}

#[test]
fn success_echoes_numeric_id() {
    let io = hello_io();
    let r = io.handle_request_sync(r#"{"jsonrpc":"2.0","method":"say_hello","params":[42,23],"id":1}"#);
    assert_eq!(r, Some(r#"{"jsonrpc":"2.0","result":"hello","id":1}"#.to_string()));
}

#[test]
fn success_echoes_string_and_null_ids() {
    let io = hello_io();
    let r = io.handle_request_sync(r#"{"jsonrpc":"2.0","method":"say_hello","id":"abc"}"#);
    assert_eq!(r, Some(r#"{"jsonrpc":"2.0","result":"hello","id":"abc"}"#.to_string()));
    let r = io.handle_request_sync(r#"{"jsonrpc":"2.0","method":"say_hello","id":null}"#);
    assert_eq!(r, Some(r#"{"jsonrpc":"2.0","result":"hello","id":null}"#.to_string()));
}

#[test]
fn handler_result_is_returned_as_is() {
    let mut io = IoHandler::new();
    io.add_method("echo", Echo);
    let r = io.handle_request_sync(r#"{"jsonrpc":"2.0","method":"echo","params":[1,-2,"a\"b",true,null,[],{"k":1.5}],"id":3}"#);
    assert_eq!(
        r,
        Some(r#"{"jsonrpc":"2.0","result":[1,-2,"a\"b",true,null,[],{"k":1.5}],"id":3}"#.to_string())
    );
}

#[test]
fn handler_error_is_passed_through() {
    let mut io = IoHandler::new();
    io.add_method("fails", Fails);
    let r = io.handle_request_sync(r#"{"jsonrpc":"2.0","method":"fails","id":2}"#);
    assert_eq!(
        r,
        Some(r#"{"jsonrpc":"2.0","error":{"code":-1,"message":"Server error","data":null},"id":2}"#.to_string())
    );
}

#[test]
fn unknown_method_is_not_found() {
    let io = IoHandler::new();
    let r = io.handle_request_sync(r#"{"jsonrpc":"2.0","method":"unknown","id":"x"}"#);
    assert_eq!(
        r,
        Some(r#"{"jsonrpc":"2.0","error":{"code":-32601,"message":"Method not found","data":null},"id":"x"}"#.to_string())
    );
}

#[test]
fn wrong_version_notification_form_is_invalid_request() {
    let io = IoHandler::new();
    let r = io.handle_request_sync(r#"{"jsonrpc":"3.0","method":"x"}"#);
    assert_eq!(
        r,
        Some(r#"{"jsonrpc":"2.0","error":{"code":-32600,"message":"Invalid request","data":null},"id":null}"#.to_string())
    );
}

#[test]
fn wrong_version_with_id_is_unsupported_version() {
    let io = hello_io();
    let r = io.handle_request_sync(r#"{"jsonrpc":"1.0","method":"say_hello","id":5}"#);
    assert_eq!(
        r,
        Some(r#"{"jsonrpc":"2.0","error":{"code":-32600,"message":"Unsupported JSON-RPC protocol version","data":null},"id":5}"#.to_string())
    );
}

#[test]
fn notification_gets_no_response() {
    let io = IoHandler::new();
    assert_eq!(io.handle_request_sync(r#"{"jsonrpc":"2.0","method":"x"}"#), None);
}

#[test]
fn notification_runs_its_handler_silently() {
    let count = Arc::new(AtomicU32::new(0));
    let mut io = IoHandler::new();
    io.add_notification("tick", Counter(count.clone()));
    io.add_method("fail", CountingMethod(count.clone()));
    assert_eq!(io.handle_request_sync(r#"{"jsonrpc":"2.0","method":"tick"}"#), None);
    assert_eq!(io.handle_request_sync(r#"{"jsonrpc":"2.0","method":"fail","params":[]}"#), None);
    assert_eq!(count.load(Ordering::SeqCst), 2);
}

#[test]
fn empty_batch_is_invalid_request() {
    let io = IoHandler::new();
    assert_eq!(
        io.handle_request_sync("[]"),
        Some(r#"{"jsonrpc":"2.0","error":{"code":-32600,"message":"Invalid request","data":null},"id":null}"#.to_string())
    );
}

#[test]
fn malformed_json_is_parse_error() {
    let io = IoHandler::new();
    assert_eq!(
        io.handle_request_sync(r#"{"jsonrpc":"2.0","#),
        Some(r#"{"jsonrpc":"2.0","error":{"code":-32700,"message":"Parse error","data":null},"id":null}"#.to_string())
    );
}

#[test]
fn batch_of_notifications_has_no_body() {
    let count = Arc::new(AtomicU32::new(0));
    let mut io = IoHandler::new();
    io.add_notification("tick", Counter(count.clone()));
    let r = io.handle_request_sync(r#"[{"jsonrpc":"2.0","method":"tick"},{"jsonrpc":"2.0","method":"tick"},{"jsonrpc":"2.0","method":"nothing"}]"#);
    assert_eq!(r, None);
    assert_eq!(count.load(Ordering::SeqCst), 2);
}

#[test]
fn batch_with_invalid_call_and_notification() {
    let io = hello_io();
    let r = io.handle_request_sync(
        r#"[1, {"jsonrpc":"2.0","method":"say_hello","params":[1,2],"id":1}, {"jsonrpc":"2.0","method":"say_hello","params":[1]}]"#,
    );
    assert_eq!(
        r,
        Some(
            r#"[{"jsonrpc":"2.0","error":{"code":-32600,"message":"Invalid request","data":null},"id":null},{"jsonrpc":"2.0","result":"hello","id":1}]"#
                .to_string()
        )
    );
}

#[test]
fn batch_keeps_input_order() {
    let io = hello_io();
    let r = io.handle_request_sync(
        r#"[{"jsonrpc":"2.0","method":"nope","id":1},{"jsonrpc":"2.0","method":"say_hello","id":2},{"jsonrpc":"2.0","method":"say_hello"},{"jsonrpc":"2.0","method":"say_hello","id":3}]"#,
    );
    assert_eq!(
        r,
        Some(
            r#"[{"jsonrpc":"2.0","error":{"code":-32601,"message":"Method not found","data":null},"id":1},{"jsonrpc":"2.0","result":"hello","id":2},{"jsonrpc":"2.0","result":"hello","id":3}]"#
                .to_string()
        )
    );
}

#[test]
fn alias_resolves_one_hop() {
    let mut io = hello_io();
    io.add_alias("hi", "say_hello");
    io.add_alias("hey", "hi");
    assert_eq!(
        io.handle_request_sync(r#"{"jsonrpc":"2.0","method":"hi","id":1}"#),
        Some(r#"{"jsonrpc":"2.0","result":"hello","id":1}"#.to_string())
    );
    assert_eq!(
        io.handle_request_sync(r#"{"jsonrpc":"2.0","method":"hey","id":1}"#),
        Some(r#"{"jsonrpc":"2.0","error":{"code":-32601,"message":"Method not found","data":null},"id":1}"#.to_string())
    );
    io.add_alias("lost", "missing");
    assert_eq!(
        io.handle_request_sync(r#"{"jsonrpc":"2.0","method":"lost","id":1}"#),
        Some(r#"{"jsonrpc":"2.0","error":{"code":-32601,"message":"Method not found","data":null},"id":1}"#.to_string())
    );
}

#[test]
fn later_registration_wins() {
    let mut io = IoHandler::new();
    io.add_method("m", Fails);
    io.add_method("m", Hello);
    assert_eq!(
        io.handle_request_sync(r#"{"jsonrpc":"2.0","method":"m","id":1}"#),
        Some(r#"{"jsonrpc":"2.0","result":"hello","id":1}"#.to_string())
    );
}

#[test]
fn method_names_are_case_sensitive() {
    let io = hello_io();
    assert_eq!(
        io.handle_request_sync(r#"{"jsonrpc":"2.0","method":"Say_Hello","id":1}"#),
        Some(r#"{"jsonrpc":"2.0","error":{"code":-32601,"message":"Method not found","data":null},"id":1}"#.to_string())
    );
}

#[test]
fn calling_a_notification_handler_is_not_found() {
    let mut io = IoHandler::new();
    io.add_notification("tick", Counter(Arc::new(AtomicU32::new(0))));
    assert_eq!(
        io.handle_request_sync(r#"{"jsonrpc":"2.0","method":"tick","id":9}"#),
        Some(r#"{"jsonrpc":"2.0","error":{"code":-32601,"message":"Method not found","data":null},"id":9}"#.to_string())
    );
}

#[test]
fn delegate_adds_its_methods() {
    let mut d = IoDelegate::new();
    d.add_method("say_hello", Hello);
    d.add_alias("hi", "say_hello");
    let mut io = IoHandler::new();
    io.add_delegate(d);
    assert_eq!(
        io.handle_request_sync(r#"{"jsonrpc":"2.0","method":"hi","id":1}"#),
        Some(r#"{"jsonrpc":"2.0","result":"hello","id":1}"#.to_string())
    );
}

#[test]
fn response_fed_back_is_invalid_request() {
    let io = hello_io();
    assert_eq!(
        io.handle_request_sync(r#"{"jsonrpc":"2.0","result":"hello","id":1}"#),
        Some(r#"{"jsonrpc":"2.0","error":{"code":-32600,"message":"Invalid request","data":null},"id":1}"#.to_string())
    );
}

#[test]
fn async_response_hands_text_to_callback() {
    let io = hello_io();
    let a = io.handle_request(r#"{"jsonrpc":"2.0","method":"say_hello","id":1}"#).unwrap();
    let seen = Rc::new(Cell::new(false));
    let s = seen.clone();
    let done = a.on_result(move |t| {
        assert_eq!(t, r#"{"jsonrpc":"2.0","result":"hello","id":1}"#);
        s.set(true);
    });
    assert!(done);
    assert!(seen.get());
}

struct WhoAmI;
impl RpcMethod<u64> for WhoAmI {
    fn call(&self, _params: Params, meta: u64) -> Result<Value, Error> {
        Ok(Value::U64(meta))
    }
}

struct Seen(Arc<AtomicU32>);
impl RpcNotification<u64> for Seen {
    fn execute(&self, _params: Params, meta: u64) {
        self.0.store(meta as u32, Ordering::SeqCst);
    }
}

#[test]
fn handlers_receive_request_metadata() {
    let seen = Arc::new(AtomicU32::new(0));
    let mut io = IoHandler::<u64>::with_metadata();
    io.add_method_with_meta("whoami", WhoAmI);
    io.add_notification_with_meta("seen", Seen(seen.clone()));
    assert_eq!(
        io.handle_request_sync_with(r#"{"jsonrpc":"2.0","method":"whoami","id":1}"#, 42),
        Some(r#"{"jsonrpc":"2.0","result":42,"id":1}"#.to_string())
    );
    assert_eq!(
        io.handle_request_sync_with(
            r#"[{"jsonrpc":"2.0","method":"whoami","id":1},{"jsonrpc":"2.0","method":"seen"},{"jsonrpc":"2.0","method":"whoami","id":2}]"#,
            7
        ),
        Some(r#"[{"jsonrpc":"2.0","result":7,"id":1},{"jsonrpc":"2.0","result":7,"id":2}]"#.to_string())
    );
    assert_eq!(seen.load(Ordering::SeqCst), 7);
}

#[test]
fn alias_and_direct_call_route_to_the_same_entry() {
    let mut io = IoHandler::new();
    io.add_method("other", Fails);
    io.add_method("say_hello", Hello);
    io.add_alias("hi", "say_hello");
    let direct = io.route(Call::from_json(r#"{"jsonrpc":"2.0","method":"say_hello","params":[1],"id":4}"#).unwrap());
    let alias = io.route(Call::from_json(r#"{"jsonrpc":"2.0","method":"hi","params":[1],"id":4}"#).unwrap());
    let expected = Route::Invoke { index: 1, params: Params::Array(vec![Value::U64(1)]), id: Id::Num(4) };
    assert_eq!(direct, expected);
    assert_eq!(alias, expected);
    let none = io.route(Call::from_json(r#"{"jsonrpc":"2.0","method":"say_hello"}"#).unwrap());
    assert_eq!(none, Route::Notify { index: 1, params: Params::Empty });
    assert_eq!(io.route(Call::from_json(r#"{"jsonrpc":"2.0","method":"nobody"}"#).unwrap()), Route::Drop);
}

#[test]
fn invoke_runs_the_entry_at_the_index() {
    let mut io = IoHandler::new();
    io.add_method("fails", Fails);
    io.add_method("say_hello", Hello);
    io.add_alias("hi", "say_hello");
    assert_eq!(io.invoke(1, Params::Empty, ()), Ok(Value::String("hello".to_string())));
    assert_eq!(io.invoke(0, Params::Empty, ()).unwrap_err().code, ErrorCode::ServerError(-1));
    assert_eq!(io.invoke(2, Params::Empty, ()).unwrap_err().code, ErrorCode::MethodNotFound);
    assert_eq!(io.invoke(9, Params::Empty, ()).unwrap_err().code, ErrorCode::MethodNotFound);
}

#[test]
fn negative_id_is_echoed() {
    let io = hello_io();
    assert_eq!(
        io.handle_request_sync(r#"{"jsonrpc":"2.0","method":"say_hello","id":-5}"#),
        Some(r#"{"jsonrpc":"2.0","result":"hello","id":-5}"#.to_string())
    );
}

#[test]
fn strings_are_escaped_in_responses() {
    let mut io = IoHandler::new();
    io.add_method("echo", Echo);
    assert_eq!(
        io.handle_request_sync(r#"{"jsonrpc":"2.0","method":"echo","params":["a\u0001\t\\\"é"],"id":1}"#),
        Some("{\"jsonrpc\":\"2.0\",\"result\":[\"a\\u0001\\t\\\\\\\"\u{e9}\"],\"id\":1}".to_string())
    );
}
