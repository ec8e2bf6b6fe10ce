//! The error taxonomy of a fetch-and-decode run.

use vstd::prelude::*;

verus! {

/// Why a fetch-and-decode run failed.
///
/// `Request` wraps the transport diagnostic for display, `Connect`
/// deliberately collapses every "could not reach the host" condition into one
/// information-light kind, and `Decode` wraps the parse diagnostic for a body
/// that did not match the target schema.
#[derive(Debug)]
pub enum FetchError {
    Request(String),
    Connect,
    Decode(String),
}

impl FetchError {
    /// The message the application prints for this error.
    pub fn message(&self) -> (r: String)
        ensures
            match self {
                FetchError::Request(d) => r@ == "request failed: "@ + d@,
                FetchError::Connect => r@ == "connect failed"@,
                FetchError::Decode(d) => r@ == "deserialisation failed: "@ + d@,
            },
    {
        match self {
            FetchError::Request(d) => {
                let mut out = String::from_str("request failed: ");
                out.append(d.as_str());
                out
            },
            FetchError::Connect => String::from_str("connect failed"),
            FetchError::Decode(d) => {
                let mut out = String::from_str("deserialisation failed: ");
                out.append(d.as_str());
                out
            },
        }
    }
}

/// Classify a transport-level failure.
///
/// A failure to establish the connection, or a timeout while doing so, is the
/// low-information `Connect` kind; every other transport failure keeps its
/// diagnostic as a `Request` error. The caller reads the two flags off its
/// HTTP client's structured error kind.
pub fn classify_transport(connect_failure: bool, timed_out: bool, detail: String) -> (r: FetchError)
    ensures
        (connect_failure || timed_out) ==> r is Connect,
        !(connect_failure || timed_out) ==> (r matches FetchError::Request(d) && d == detail),
{
    if connect_failure || timed_out {
        FetchError::Connect
    } else {
        FetchError::Request(detail)
    }
}

} // verus!
