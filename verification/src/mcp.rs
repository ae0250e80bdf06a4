//! JSON-RPC error values of the Model Context Protocol.
use vstd::prelude::*;

verus! {

/// JSON-RPC code: the method or tool does not exist or is not enabled.
pub const METHOD_NOT_FOUND: i64 = -32601;

/// JSON-RPC code: the parameters of a call are invalid.
pub const INVALID_PARAMS: i64 = -32602;

/// JSON-RPC code: internal error, used for failed requests over HTTP.
pub const INTERNAL_ERROR: i64 = -32603;

/// JSON-RPC code: server error, used for failed requests over stdio.
pub const SERVER_ERROR: i64 = -32000;

/// The error member of a JSON-RPC response. `data`, when present, is JSON
/// text.
#[derive(Debug, Clone)]
pub struct ResponseError {
    pub code: i64,
    pub message: String,
    pub data: Option<String>,
}

impl ResponseError {
    /// An error with `code` and `message` and no data.
    pub fn new(code: i64, message: String) -> (res: ResponseError)
        ensures
            res.code == code,
            res.message@ == message@,
            res.data is None,
    {
        ResponseError { code, message, data: None }
    }
}

} // verus!
