use crate::text::{dec_str, i64_to_dec};
use vstd::prelude::*;

verus! {

/// Error raised when a tag's payload cannot be interpreted; it carries the
/// offending tag and the raw text, so a failure is never silently swallowed.
#[derive(Debug, Clone)]
pub struct ParseError {
    pub tag: String,
    pub text: String,
}

/// The library's error taxonomy for the ingestion side.
#[derive(Debug, Clone)]
pub enum VarnishError {
    VSMError(String),
    VSLError(String),
    LogOverrun,
    IOError,
    UserStatus(i32),
    CallbackError(String),
}

impl VarnishError {
    /// A human-readable description of the error.
    pub fn message(&self) -> (r: String)
        ensures
            r@ == self.message_spec(),
    {
        match self {
            VarnishError::VSMError(s) => {
                let mut m = "VSM Error: ".to_owned();
                m.append(s.as_str());
                m
            },
            VarnishError::VSLError(s) => {
                let mut m = "VSL Error: ".to_owned();
                m.append(s.as_str());
                m
            },
            VarnishError::LogOverrun => "Log overrun".to_owned(),
            VarnishError::IOError => "I/O read error".to_owned(),
            VarnishError::UserStatus(c) => {
                let mut m = "User Status code ".to_owned();
                let code = i64_to_dec(*c as i64);
                m.append(code.as_str());
                m
            },
            VarnishError::CallbackError(s) => {
                let mut m = "Callback Error: ".to_owned();
                m.append(s.as_str());
                m
            },
        }
    }

    pub open spec fn message_spec(&self) -> Seq<char> {
        match self {
            VarnishError::VSMError(s) => "VSM Error: "@ + s@,
            VarnishError::VSLError(s) => "VSL Error: "@ + s@,
            VarnishError::LogOverrun => "Log overrun"@,
            VarnishError::IOError => "I/O read error"@,
            VarnishError::UserStatus(c) => "User Status code "@ + dec_str(*c as int),
            VarnishError::CallbackError(s) => "Callback Error: "@ + s@,
        }
    }
}

} // verus!
