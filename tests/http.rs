use jsonrpc_core::http::{http_action, status_line, HttpAction};
use jsonrpc_core::io::IoHandler;
use std::str::Lines;

struct Response {
    status: String,
    #[allow(dead_code)]
    headers: String,
    body: String,
}

fn read_block(lines: &mut Lines) -> String {
    let mut block = String::new();
    loop {
        let line = lines.next();
        match line {
            Some("") | None => break,
            Some(v) => {
                block.push_str(v);
                block.push_str("\n");
            },
        }
    }
    block
}

/// Runs one request through the HTTP rules and the dispatcher, and reads the
/// chunked HTTP answer back the way a client sees it.
fn request(method: &str, content_type: Option<&str>, body: &str) -> Response {
    let io = IoHandler::new();
    let (status, payload) = match http_action(method, content_type) {
        HttpAction::Reject { status, body } => (status, body),
        HttpAction::Preflight => (200, String::new()),
        HttpAction::Process => (200, io.handle_request_sync(body).unwrap_or_default()),
    };
    let chunks = if payload.is_empty() {
        "0\r\n\r\n".to_string()
    } else {
        format!("{:X}\r\n{}\r\n0\r\n\r\n", payload.len(), payload)
    };
    let raw = format!(
        "HTTP/1.1 {}\r\nContent-Type: application/json\r\nTransfer-Encoding: chunked\r\n\r\n{}",
        status_line(status),
        chunks
    );

    let mut lines = raw.lines();
    let status = lines.next().unwrap().to_owned();
    let headers = read_block(&mut lines);
    let body = read_block(&mut lines);

    Response { status, headers, body }
}

fn method_not_found() -> String {
    "5B\n{\"jsonrpc\":\"2.0\",\"error\":{\"code\":-32601,\"message\":\"Method not found\",\"data\":null},\"id\":\"1\"}\n0\n".to_owned()
}

fn invalid_request() -> String {
    "5B\n{\"jsonrpc\":\"2.0\",\"error\":{\"code\":-32600,\"message\":\"Invalid request\",\"data\":null},\"id\":null}\n0\n".to_owned()
}

#[test]
fn should_return_method_not_allowed_for_get() {
    let response = request("GET", None, "I shouldn't be read.");

    assert_eq!(response.status, "HTTP/1.1 405 Method Not Allowed".to_owned());
    assert_eq!(response.body, "3D\nUsed HTTP Method is not allowed. POST or OPTIONS is required\n".to_owned());
}

#[test]
fn should_return_unsupported_media_type_if_not_json() {
    let response = request("POST", None, "{}");

    assert_eq!(response.status, "HTTP/1.1 415 Unsupported Media Type".to_owned());
    assert_eq!(
        response.body,
        "51\nSupplied content type is not allowed. Content-Type: application/json is required\n".to_owned()
    );
}

#[test]
fn should_return_unsupported_media_type_for_text_plain() {
    let response = request("POST", Some("text/plain"), "{}");

    assert_eq!(response.status, "HTTP/1.1 415 Unsupported Media Type".to_owned());
}

#[test]
fn should_return_error_for_malformed_request() {
    let req = r#"{"jsonrpc":"3.0","method":"x"}"#;
    let response = request("POST", Some("application/json"), req);

    assert_eq!(response.status, "HTTP/1.1 200 OK".to_owned());
    assert_eq!(response.body, invalid_request());
}

#[test]
fn should_return_error_for_malformed_request2() {
    let req = r#"{"jsonrpc":"2.0","metho1d":""}"#;
    let response = request("POST", Some("application/json"), req);

    assert_eq!(response.status, "HTTP/1.1 200 OK".to_owned());
    assert_eq!(response.body, invalid_request());
}

#[test]
fn should_return_empty_response_for_notification() {
    let req = r#"{"jsonrpc":"2.0","method":"x"}"#;
    let response = request("POST", Some("application/json"), req);

    assert_eq!(response.status, "HTTP/1.1 200 OK".to_owned());
    assert_eq!(response.body, "0\n".to_owned());
}

#[test]
fn should_return_method_not_found() {
    let req = r#"{"jsonrpc":"2.0","id":"1","method":"x"}"#;
    let response = request("POST", Some("application/json"), req);

    assert_eq!(response.status, "HTTP/1.1 200 OK".to_owned());
    assert_eq!(response.body, method_not_found());
}
