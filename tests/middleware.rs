use jsonrpc_core::io::IoHandler;
use jsonrpc_core::middleware::{Action, MetaIoHandler, Middleware, Noop};
use jsonrpc_core::registry::SyncMethodCommand;
use jsonrpc_core::types::{Error, Params, Request, Response, Value};
use std::sync::{Arc, Mutex};

struct Hello;
impl SyncMethodCommand for Hello {
    fn execute(&self, _params: Params) -> Result<Value, Error> {
        Ok(Value::String("hello".to_string()))
    }
}

struct Logger {
    name: &'static str,
    log: Arc<Mutex<Vec<String>>>,
    answer: bool,
    suppress: bool,
}

impl Middleware<()> for Logger {
    fn on_request(&self, request: Request, _meta: &()) -> Action {
        self.log.lock().unwrap().push(format!("{}-pre", self.name));
        if self.answer {
            Action::Respond(None)
        } else {
            Action::Proceed(request)
        }
    }

    fn on_response(&self, response: Option<Response>) -> Option<Response> {
        self.log.lock().unwrap().push(format!("{}-post", self.name));
        if self.suppress {
            None
        } else {
            response
        }
    }
}

fn handler() -> IoHandler<()> {
    let mut io = IoHandler::new();
    io.add_method("say_hello", Hello);
    io
}

const CALL: &str = r#"{"jsonrpc":"2.0","method":"say_hello","id":1}"#;
const HELLO: &str = r#"{"jsonrpc":"2.0","result":"hello","id":1}"#;

#[test]
fn middleware_runs_in_nested_order() {
    let log = Arc::new(Mutex::new(Vec::new()));
    let mut io = MetaIoHandler::new(handler());
    io.add_middleware(Logger { name: "m1", log: log.clone(), answer: false, suppress: false });
    io.add_middleware(Logger { name: "m2", log: log.clone(), answer: false, suppress: false });
    assert_eq!(io.handle_request_sync(CALL, ()), Some(HELLO.to_string()));
    assert_eq!(*log.lock().unwrap(), vec!["m1-pre", "m2-pre", "m2-post", "m1-post"]);
}

#[test]
fn middleware_short_circuit_skips_the_rest() {
    let log = Arc::new(Mutex::new(Vec::new()));
    let mut io = MetaIoHandler::new(handler());
    io.add_middleware(Logger { name: "m1", log: log.clone(), answer: false, suppress: false });
    io.add_middleware(Logger { name: "m2", log: log.clone(), answer: true, suppress: false });
    io.add_middleware(Logger { name: "m3", log: log.clone(), answer: false, suppress: false });
    assert_eq!(io.handle_request_sync(CALL, ()), None);
    assert_eq!(*log.lock().unwrap(), vec!["m1-pre", "m2-pre", "m1-post"]);
}

#[test]
fn middleware_suppression_still_runs_outer_layers() {
    let log = Arc::new(Mutex::new(Vec::new()));
    let mut io = MetaIoHandler::new(handler());
    io.add_middleware(Logger { name: "m1", log: log.clone(), answer: false, suppress: false });
    io.add_middleware(Logger { name: "m2", log: log.clone(), answer: false, suppress: true });
    assert_eq!(io.handle_request_sync(CALL, ()), None);
    assert_eq!(*log.lock().unwrap(), vec!["m1-pre", "m2-pre", "m2-post", "m1-post"]);
}

#[test]
fn noop_middleware_changes_nothing() {
    let mut io = MetaIoHandler::new(handler());
    io.add_middleware(Noop);
    assert_eq!(io.handle_request_sync(CALL, ()), Some(HELLO.to_string()));
    assert_eq!(
        io.handle_request_sync("[}", ()),
        Some(r#"{"jsonrpc":"2.0","error":{"code":-32700,"message":"Parse error","data":null},"id":null}"#.to_string())
    );
    let plain = MetaIoHandler::new(handler());
    assert_eq!(plain.handle_request_sync(CALL, ()), Some(HELLO.to_string()));
}

struct Gate;
impl Middleware<u64> for Gate {
    fn on_request(&self, request: Request, meta: &u64) -> Action {
        if *meta == 0 {
            Action::Respond(None)
        } else {
            Action::Proceed(request)
        }
    }

    fn on_response(&self, response: Option<Response>) -> Option<Response> {
        response
    }
}

struct Hello2;
impl SyncMethodCommand for Hello2 {
    fn execute(&self, _params: Params) -> Result<Value, Error> {
        Ok(Value::String("hello".to_string()))
    }
}

#[test]
fn middleware_sees_metadata() {
    let mut inner = IoHandler::<u64>::with_metadata();
    inner.add_method("say_hello", Hello2);
    let mut io = MetaIoHandler::new(inner);
    io.add_middleware(Gate);
    assert_eq!(io.handle_request_sync(CALL, 0), None);
    assert_eq!(io.handle_request_sync(CALL, 1), Some(HELLO.to_string()));
}
