//! What can go wrong between a call and its answer.

use crate::text::{concat2, push_signed_decimal, signed_decimal_text};
use vstd::prelude::*;

verus! {

/// Why a call to the daemon gave no result.
#[derive(Debug)]
pub enum Error {
    /// The daemon could not be reached, or the connection to it was lost.
    Connection(String),
    /// The socket failed, for the reason given.
    Socket(String),
    /// A message could not be written as JSON, for the reason given.
    Serialization(String),
    /// The daemon answered with an error of its own.
    Rpc { code: i32, message: String },
    /// The daemon's answer breaks the protocol: it is no envelope, or an
    /// envelope with neither a result nor an error.
    Protocol(String),
    /// A deadline passed.
    Timeout,
    /// The result in the answer has not the shape that was expected.
    InvalidResponse(String),
    /// The call was refused before anything was sent: it is not a legal one
    /// to make.
    Validation(String),
    /// A subscription failed.
    Subscription(String),
    /// The daemon could not do what was asked of a session.
    Session(String),
    /// The daemon could not record a decision on an approval.
    Approval(String),
}

impl Error {
    /// The error in words.
    pub open spec fn text(self) -> Seq<char> {
        match self {
            Error::Connection(why) => "Connection error: "@ + why@,
            Error::Socket(why) => "Socket error: "@ + why@,
            Error::Serialization(why) => "JSON serialization error: "@ + why@,
            Error::Rpc { code, message } => "RPC error: "@ + signed_decimal_text(code as int)
                + " - "@ + message@,
            Error::Protocol(why) => "Protocol error: "@ + why@,
            Error::Timeout => "Timeout error"@,
            Error::InvalidResponse(why) => "Invalid response: "@ + why@,
            Error::Validation(why) => "Validation error: "@ + why@,
            Error::Subscription(why) => "Subscription error: "@ + why@,
            Error::Session(why) => "Session error: "@ + why@,
            Error::Approval(why) => "Approval error: "@ + why@,
        }
    }

    /// The error in words, as the caller is shown it.
    pub fn message(&self) -> (out: String)
        ensures
            out@ == self.text(),
    {
        match self {
            Error::Connection(why) => concat2("Connection error: ", why.as_str()),
            Error::Socket(why) => concat2("Socket error: ", why.as_str()),
            Error::Serialization(why) => concat2("JSON serialization error: ", why.as_str()),
            Error::Rpc { code, message } => {
                let mut out = "RPC error: ".to_string();
                push_signed_decimal(&mut out, *code as i64);
                out.append(" - ");
                out.append(message.as_str());
                out
            },
            Error::Protocol(why) => concat2("Protocol error: ", why.as_str()),
            Error::Timeout => "Timeout error".to_string(),
            Error::InvalidResponse(why) => concat2("Invalid response: ", why.as_str()),
            Error::Validation(why) => concat2("Validation error: ", why.as_str()),
            Error::Subscription(why) => concat2("Subscription error: ", why.as_str()),
            Error::Session(why) => concat2("Session error: ", why.as_str()),
            Error::Approval(why) => concat2("Approval error: ", why.as_str()),
        }
    }
}

} // verus!
