//! What the HTTP transport does with a request before any JSON-RPC work:
//! only `POST` with a JSON body reaches the dispatcher.
use vstd::prelude::*;
use crate::text::same_text;

verus! {

/// The decision for an incoming HTTP request.
pub enum HttpAction {
    /// Hand the body to the dispatcher and answer 200 with its response.
    Process,
    /// Answer the CORS preflight.
    Preflight,
    /// Answer at once with this status and body.
    Reject { status: u16, body: String },
}

pub open spec fn method_not_allowed_body() -> Seq<char> {
    "Used HTTP Method is not allowed. POST or OPTIONS is required\n"@
}

pub open spec fn unsupported_media_body() -> Seq<char> {
    "Supplied content type is not allowed. Content-Type: application/json is required\n"@
}

/// A `Content-Type` value that names JSON, with or without parameters.
pub open spec fn is_json_type(c: Seq<char>) -> bool {
    c == "application/json"@ || (c.len() >= 17 && c.subrange(0, 17) == "application/json;"@)
}

fn json_content_type(c: &str) -> (r: bool)
    ensures
        r == is_json_type(c@),
{
    proof {
        reveal_strlit("application/json;");
    }
    if same_text(c, "application/json") {
        return true;
    }
    let n = c.unicode_len();
    if n < 17 {
        return false;
    }
    same_text(c.substring_char(0, 17), "application/json;")
}

/// Decides what to do with a request of this method and content type.
pub fn http_action(method: &str, content_type: Option<&str>) -> (r: HttpAction)
    ensures
        method@ == "OPTIONS"@ ==> r is Preflight,
        method@ == "POST"@ ==> match content_type {
            Some(c) if is_json_type(c@) => r is Process,
            _ => r matches HttpAction::Reject { status, body } && status == 415 && body@
                == unsupported_media_body(),
        },
        method@ != "POST"@ && method@ != "OPTIONS"@ ==> (r matches HttpAction::Reject {
            status,
            body,
        } && status == 405 && body@ == method_not_allowed_body()),
{
    proof {
        reveal_strlit("OPTIONS");
        reveal_strlit("POST");
        assert("OPTIONS"@[0] != "POST"@[0]);
    }
    if same_text(method, "OPTIONS") {
        HttpAction::Preflight
    } else if same_text(method, "POST") {
        let json = match content_type {
            Some(c) => json_content_type(c),
            None => false,
        };
        if json {
            HttpAction::Process
        } else {
            HttpAction::Reject {
                status: 415,
                body: String::from_str(
                    "Supplied content type is not allowed. Content-Type: application/json is required\n",
                ),
            }
        }
    } else {
        HttpAction::Reject {
            status: 405,
            body: String::from_str("Used HTTP Method is not allowed. POST or OPTIONS is required\n"),
        }
    }
}

/// The status line text of a status that this transport sends; any other
/// status is reported as an internal error.
pub fn status_line(status: u16) -> (r: &'static str)
    ensures
        r@ == if status == 200 {
            "200 OK"@
        } else if status == 400 {
            "400 Bad Request"@
        } else if status == 403 {
            "403 Forbidden"@
        } else if status == 405 {
            "405 Method Not Allowed"@
        } else if status == 415 {
            "415 Unsupported Media Type"@
        } else {
            "500 Internal Server Error"@
        },
{
    if status == 200 {
        "200 OK"
    } else if status == 400 {
        "400 Bad Request"
    } else if status == 403 {
        "403 Forbidden"
    } else if status == 405 {
        "405 Method Not Allowed"
    } else if status == 415 {
        "415 Unsupported Media Type"
    } else {
        "500 Internal Server Error"
    }
}

/// What a request middleware of the HTTP transport decided, before the
/// rules above run.
pub enum RequestMiddlewareAction {
    /// Go on with the standard handling.
    Proceed {
        /// Process the request even when its `Origin` is not allowed, so
        /// that its side effects take place.
        should_continue_on_invalid_cors: bool,
    },
    /// Answer with this status and body instead.
    Respond {
        /// Check the `Host` header before answering.
        should_validate_hosts: bool,
        status: u16,
        body: String,
    },
}

impl RequestMiddlewareAction {
    /// No answer means going on as usual, origin checks included; an answer
    /// is sent once the host has been checked.
    pub fn from_response(response: Option<(u16, String)>) -> (r: RequestMiddlewareAction)
        ensures
            response is None ==> r == (RequestMiddlewareAction::Proceed {
                should_continue_on_invalid_cors: false,
            }),
            response matches Some((status, body)) ==> r == (RequestMiddlewareAction::Respond {
                should_validate_hosts: true,
                status,
                body,
            }),
    {
        match response {
            None => RequestMiddlewareAction::Proceed { should_continue_on_invalid_cors: false },
            Some((status, body)) => RequestMiddlewareAction::Respond {
                should_validate_hosts: true,
                status,
                body,
            },
        }
    }
}

} // verus!
