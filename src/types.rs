//! Wire types of JSON-RPC 2.0: values, ids, params, errors, calls and responses.
use vstd::prelude::*;

verus! {

/// A JSON value.
///
/// Numbers are split as the JSON reader reports them: non-negative integers,
/// negative integers, and every other number kept as the text that the
/// reader printed for it.
#[derive(Debug, PartialEq)]
pub enum Value {
    Null,
    Bool(bool),
    U64(u64),
    I64(i64),
    Float(String),
    String(String),
    Array(Vec<Value>),
    Object(Vec<(String, Value)>),
}

/// Request id: absent ids are represented by the request kind, not here.
#[derive(Debug, Clone, PartialEq)]
pub enum Id {
    Null,
    /// A non-negative integer.
    Num(u64),
    /// A negative integer.
    Neg(i64),
    Str(String),
}

/// Protocol version marker. `V2` is "2.0"; any other literal read from the
/// wire is kept so that the dispatcher can reject it with its own error.
#[derive(Debug, Clone, PartialEq)]
pub enum Version {
    V2,
    Unsupported(String),
}

/// Parameters of a call.
#[derive(Debug, PartialEq)]
pub enum Params {
    /// Explicitly empty: the wire form is `null`.
    Empty,
    Array(Vec<Value>),
    /// Named parameters.
    Object(Vec<(String, Value)>),
}

/// JSON-RPC error code.
#[derive(Debug, Clone, PartialEq, Eq, Structural)]
pub enum ErrorCode {
    ParseError,
    InvalidRequest,
    MethodNotFound,
    InvalidParams,
    InternalError,
    ServerError(i64),
}

pub open spec fn code_of(c: ErrorCode) -> i64 {
    match c {
        ErrorCode::ParseError => -32700i64,
        ErrorCode::InvalidRequest => -32600i64,
        ErrorCode::MethodNotFound => -32601i64,
        ErrorCode::InvalidParams => -32602i64,
        ErrorCode::InternalError => -32603i64,
        ErrorCode::ServerError(n) => n,
    }
}

pub open spec fn description_of(c: ErrorCode) -> Seq<char> {
    match c {
        ErrorCode::ParseError => "Parse error"@,
        ErrorCode::InvalidRequest => "Invalid request"@,
        ErrorCode::MethodNotFound => "Method not found"@,
        ErrorCode::InvalidParams => "Invalid params"@,
        ErrorCode::InternalError => "Internal error"@,
        ErrorCode::ServerError(_) => "Server error"@,
    }
}

/// The code that a number denotes: the five reserved numbers name their
/// variants, every other number is a server error.
pub open spec fn code_from(n: i64) -> ErrorCode {
    if n == -32700i64 {
        ErrorCode::ParseError
    } else if n == -32600i64 {
        ErrorCode::InvalidRequest
    } else if n == -32601i64 {
        ErrorCode::MethodNotFound
    } else if n == -32602i64 {
        ErrorCode::InvalidParams
    } else if n == -32603i64 {
        ErrorCode::InternalError
    } else {
        ErrorCode::ServerError(n)
    }
}

impl ErrorCode {
    /// Returns the integer code value.
    pub fn code(&self) -> (r: i64)
        ensures
            r == code_of(*self),
    {
        match self {
            ErrorCode::ParseError => -32700,
            ErrorCode::InvalidRequest => -32600,
            ErrorCode::MethodNotFound => -32601,
            ErrorCode::InvalidParams => -32602,
            ErrorCode::InternalError => -32603,
            ErrorCode::ServerError(code) => *code,
        }
    }

    /// Returns the human-readable description.
    pub fn description(&self) -> (r: String)
        ensures
            r@ == description_of(*self),
    {
        let desc = match self {
            ErrorCode::ParseError => "Parse error",
            ErrorCode::InvalidRequest => "Invalid request",
            ErrorCode::MethodNotFound => "Method not found",
            ErrorCode::InvalidParams => "Invalid params",
            ErrorCode::InternalError => "Internal error",
            ErrorCode::ServerError(_) => "Server error",
        };
        String::from_str(desc)
    }

    /// Reads a code from its integer value.
    pub fn from_code(n: i64) -> (r: ErrorCode)
        ensures
            r == code_from(n),
    {
        if n == -32700 {
            ErrorCode::ParseError
        } else if n == -32600 {
            ErrorCode::InvalidRequest
        } else if n == -32601 {
            ErrorCode::MethodNotFound
        } else if n == -32602 {
            ErrorCode::InvalidParams
        } else if n == -32603 {
            ErrorCode::InternalError
        } else {
            ErrorCode::ServerError(n)
        }
    }
}

/// A number that names one of the five reserved codes.
pub open spec fn is_reserved_code(n: i64) -> bool {
    -32603 <= n <= -32600 || n == -32700
}

/// Reading back the integer value of a code gives the code (a server error
/// carries a number that is not reserved), and the code of a number has that
/// number as its value.
pub proof fn lemma_code_round_trip(c: ErrorCode, n: i64)
    requires
        c matches ErrorCode::ServerError(k) ==> !is_reserved_code(k),
    ensures
        code_from(code_of(c)) == c,
        code_of(code_from(n)) == n,
{
}

/// Error object.
#[derive(Debug, PartialEq)]
pub struct Error {
    pub code: ErrorCode,
    pub message: String,
    pub data: Option<Value>,
}

/// `e` has the given code and message and carries no data.
pub open spec fn error_is(e: Error, code: ErrorCode, message: Seq<char>) -> bool {
    &&& e.code == code
    &&& e.message@ == message
    &&& e.data is None
}

impl Error {
    /// Wraps the given code, with its description as the message.
    pub fn new(code: ErrorCode) -> (r: Error)
        ensures
            error_is(r, code, description_of(code)),
    {
        let message = code.description();
        Error { code, message, data: None }
    }

    pub fn parse_error() -> (r: Error)
        ensures
            error_is(r, ErrorCode::ParseError, "Parse error"@),
    {
        Self::new(ErrorCode::ParseError)
    }

    pub fn invalid_request() -> (r: Error)
        ensures
            error_is(r, ErrorCode::InvalidRequest, "Invalid request"@),
    {
        Self::new(ErrorCode::InvalidRequest)
    }

    pub fn method_not_found() -> (r: Error)
        ensures
            error_is(r, ErrorCode::MethodNotFound, "Method not found"@),
    {
        Self::new(ErrorCode::MethodNotFound)
    }

    /// An `InvalidParams` error with the given message.
    pub fn invalid_params(message: &str) -> (r: Error)
        ensures
            error_is(r, ErrorCode::InvalidParams, message@),
    {
        Error { code: ErrorCode::InvalidParams, message: message.to_owned(), data: None }
    }

    pub fn internal_error() -> (r: Error)
        ensures
            error_is(r, ErrorCode::InternalError, "Internal error"@),
    {
        Self::new(ErrorCode::InternalError)
    }

    /// An `InvalidRequest` error that names an unsupported protocol version.
    pub fn invalid_version() -> (r: Error)
        ensures
            error_is(r, ErrorCode::InvalidRequest, "Unsupported JSON-RPC protocol version"@),
    {
        Error {
            code: ErrorCode::InvalidRequest,
            message: String::from_str("Unsupported JSON-RPC protocol version"),
            data: None,
        }
    }
}

/// A call that expects a response.
#[derive(Debug, PartialEq)]
pub struct MethodCall {
    pub jsonrpc: Version,
    pub method: String,
    pub params: Option<Params>,
    pub id: Id,
}

/// A call without an id: it is never answered.
#[derive(Debug, PartialEq)]
pub struct Notification {
    pub jsonrpc: Version,
    pub method: String,
    pub params: Option<Params>,
}

/// A single call of a request.
#[derive(Debug, PartialEq)]
pub enum Call {
    MethodCall(MethodCall),
    Notification(Notification),
    /// An element that is not a call; holds the id that it carried, if any.
    Invalid(Id),
}

/// A request: one call or a batch of calls.
#[derive(Debug, PartialEq)]
pub enum Request {
    Single(Call),
    Batch(Vec<Call>),
}

/// The answer to one call.
#[derive(Debug, PartialEq)]
pub enum Output {
    Success { jsonrpc: Version, result: Value, id: Id },
    Failure { jsonrpc: Version, error: Error, id: Id },
}

/// The answer to a request: one output or a batch of outputs.
#[derive(Debug, PartialEq)]
pub enum Response {
    Single(Output),
    Batch(Vec<Output>),
}

/// The output that answers call `id` with the handler's result.
pub open spec fn output_spec(id: Id, res: Result<Value, Error>) -> Output {
    match res {
        Ok(v) => Output::Success { jsonrpc: Version::V2, result: v, id },
        Err(e) => Output::Failure { jsonrpc: Version::V2, error: e, id },
    }
}

/// `o` is a version-2.0 failure for `id` with the given code and message.
pub open spec fn failure_is(o: Output, code: ErrorCode, message: Seq<char>, id: Id) -> bool {
    match o {
        Output::Failure { jsonrpc, error, id: i } => jsonrpc == Version::V2 && error_is(
            error,
            code,
            message,
        ) && i == id,
        _ => false,
    }
}

impl Output {
    /// Answers call `id` with a handler's result.
    pub fn from_result(id: Id, res: Result<Value, Error>) -> (o: Output)
        ensures
            o == output_spec(id, res),
    {
        match res {
            Ok(v) => Output::Success { jsonrpc: Version::V2, result: v, id },
            Err(e) => Output::Failure { jsonrpc: Version::V2, error: e, id },
        }
    }

    /// A failure for `id`.
    pub fn failure(id: Id, error: Error) -> (o: Output)
        ensures
            o == output_spec(id, Err(error)),
    {
        Output::Failure { jsonrpc: Version::V2, error, id }
    }
}

} // verus!
