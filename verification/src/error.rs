//! The errors of the library.
use vstd::prelude::*;
use crate::mcp::ResponseError;

verus! {

/// What can go wrong. Errors of outside libraries (I/O, HTTP, JSON) are
/// carried as their message.
#[derive(Debug, Clone)]
pub enum Error {
    MissingEnvironmentVariable(String),
    Config(String),
    Io(String),
    Request(String),
    Json(String),
    Generic(String),
    Mcp(ResponseError),
}

/// The message of an error, as it is shown to users.
pub open spec fn error_message(e: Error) -> Seq<char> {
    match e {
        Error::MissingEnvironmentVariable(v) => "Environment variable "@ + v@ + " is missing"@,
        Error::Config(m) => "Configuration error: "@ + m@,
        Error::Io(m) => "IO error: "@ + m@,
        Error::Request(m) => "Request error: "@ + m@,
        Error::Json(m) => "JSON error: "@ + m@,
        Error::Generic(m) => m@,
        Error::Mcp(r) => r.message@,
    }
}

impl Error {
    /// The message of the error, as it is shown to users.
    pub fn message(&self) -> (res: String)
        ensures
            res@ == error_message(*self),
    {
        match self {
            Error::MissingEnvironmentVariable(v) => {
                let mut s = String::from_str("Environment variable ");
                s.append(v.as_str());
                s.append(" is missing");
                s
            },
            Error::Config(m) => String::from_str("Configuration error: ").concat(m.as_str()),
            Error::Io(m) => String::from_str("IO error: ").concat(m.as_str()),
            Error::Request(m) => String::from_str("Request error: ").concat(m.as_str()),
            Error::Json(m) => String::from_str("JSON error: ").concat(m.as_str()),
            Error::Generic(m) => m.clone(),
            Error::Mcp(r) => r.message.clone(),
        }
    }
}

} // verus!
