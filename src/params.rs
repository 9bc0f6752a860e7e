//! Arity rules of typed handlers: how positional parameters are matched
//! against a handler's declared parameter list before decoding.
use vstd::prelude::*;
use crate::json::{decimal, write_u64};
use crate::types::{error_is, Error, ErrorCode, Params, Value};

verus! {

/// The message for a positional list of the wrong length.
pub open spec fn length_message(len: nat, expected: nat) -> Seq<char> {
    "Expected "@ + decimal(expected) + " parameters, got "@ + decimal(len) + "."@
}

/// The message for named parameters where a positional list is expected.
pub open spec fn map_message(expected: nat) -> Seq<char> {
    "Expected "@ + decimal(expected) + " positional parameters, got named ones."@
}

fn length_error(len: usize, expected: usize) -> (e: Error)
    ensures
        error_is(e, ErrorCode::InvalidParams, length_message(len as nat, expected as nat)),
{
    let mut m = String::from_str("Expected ");
    write_u64(expected as u64, &mut m);
    m.append(" parameters, got ");
    write_u64(len as u64, &mut m);
    m.append(".");
    Error::invalid_params(m.as_str())
}

fn map_error(expected: usize) -> (e: Error)
    ensures
        error_is(e, ErrorCode::InvalidParams, map_message(expected as nat)),
{
    let mut m = String::from_str("Expected ");
    write_u64(expected as u64, &mut m);
    m.append(" positional parameters, got named ones.");
    Error::invalid_params(m.as_str())
}

/// The number of positional parameters: the array's length, 0 for empty
/// parameters; named parameters are refused.
pub fn params_len(params: &Params) -> (r: Result<usize, Error>)
    ensures
        match *params {
            Params::Array(a) => r == Ok::<usize, Error>(a@.len() as usize),
            Params::Empty => r == Ok::<usize, Error>(0),
            Params::Object(_) => r matches Err(e) && error_is(
                e,
                ErrorCode::InvalidParams,
                "not an array"@,
            ),
        },
{
    match params {
        Params::Array(a) => Ok(a.len()),
        Params::Empty => Ok(0),
        Params::Object(_) => Err(Error::invalid_params("not an array")),
    }
}

/// A handler without parameters accepts empty parameters, an empty array
/// or an empty object, and nothing else.
pub fn expect_no_params(params: &Params) -> (r: Result<(), Error>)
    ensures
        r is Ok <==> match *params {
            Params::Empty => true,
            Params::Array(a) => a@.len() == 0,
            Params::Object(o) => o@.len() == 0,
        },
        r matches Err(e) ==> error_is(e, ErrorCode::InvalidParams, "No parameters were expected"@),
{
    let empty = match params {
        Params::Empty => true,
        Params::Array(a) => a.len() == 0,
        Params::Object(o) => o.len() == 0,
    };
    if empty {
        Ok(())
    } else {
        Err(Error::invalid_params("No parameters were expected"))
    }
}

impl Params {
    /// The values of a positional list of exactly `n` parameters, each to
    /// be decoded into its declared type. Empty parameters count as an empty
    /// list.
    pub fn into_positional(self, n: usize) -> (r: Result<Vec<Value>, Error>)
        ensures
            match self {
                Params::Array(a) => if a@.len() == n {
                    r == Ok::<Vec<Value>, Error>(a)
                } else {
                    r matches Err(e) && error_is(
                        e,
                        ErrorCode::InvalidParams,
                        length_message(a@.len(), n as nat),
                    )
                },
                Params::Empty => if n == 0 {
                    r matches Ok(v) && v@.len() == 0
                } else {
                    r matches Err(e) && error_is(
                        e,
                        ErrorCode::InvalidParams,
                        length_message(0, n as nat),
                    )
                },
                Params::Object(_) => r matches Err(e) && error_is(
                    e,
                    ErrorCode::InvalidParams,
                    map_message(n as nat),
                ),
            },
    {
        match self {
            Params::Array(a) => {
                if a.len() == n {
                    Ok(a)
                } else {
                    let len = a.len();
                    Err(length_error(len, n))
                }
            },
            Params::Empty => {
                if n == 0 {
                    Ok(Vec::new())
                } else {
                    Err(length_error(0, n))
                }
            },
            Params::Object(_) => Err(map_error(n)),
        }
    }

    /// Splits a positional list for a handler with `n` required parameters
    /// and one trailing optional one: the `n` required values, and the
    /// trailing value if it was given.
    pub fn into_trailing(self, n: usize) -> (r: Result<(Vec<Value>, Option<Value>), Error>)
        ensures
            match self {
                Params::Object(_) => r matches Err(e) && error_is(
                    e,
                    ErrorCode::InvalidParams,
                    "not an array"@,
                ),
                Params::Empty => if n == 0 {
                    r matches Ok((v, t)) && v@.len() == 0 && t is None
                } else {
                    r matches Err(e) && error_is(
                        e,
                        ErrorCode::InvalidParams,
                        length_message(0, n as nat),
                    )
                },
                Params::Array(a) => if a@.len() == n {
                    r matches Ok((v, t)) && v@ == a@ && t is None
                } else if a@.len() == n + 1 {
                    r matches Ok((v, t)) && v@ == a@.drop_last() && t == Some(a@.last())
                } else if a@.len() > n + 1 {
                    r matches Err(e) && error_is(
                        e,
                        ErrorCode::InvalidParams,
                        "Expected 0 or 1 parameters."@,
                    )
                } else {
                    r matches Err(e) && error_is(
                        e,
                        ErrorCode::InvalidParams,
                        length_message(a@.len(), n as nat),
                    )
                },
            },
    {
        match self {
            Params::Object(_) => Err(Error::invalid_params("not an array")),
            Params::Empty => {
                if n == 0 {
                    Ok((Vec::new(), None))
                } else {
                    Err(length_error(0, n))
                }
            },
            Params::Array(a) => {
                let len = a.len();
                if len == n {
                    Ok((a, None))
                } else if len > n && len - n == 1 {
                    let mut a = a;
                    let t = a.pop();
                    Ok((a, t))
                } else if len > n {
                    Err(Error::invalid_params("Expected 0 or 1 parameters."))
                } else {
                    Err(length_error(len, n))
                }
            },
        }
    }
}

} // verus!
