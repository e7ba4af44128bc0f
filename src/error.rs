//! The three error kinds, and the classification of what the transport
//! reported for a request.
use vstd::prelude::*;

verus! {

/// Why an operation failed.
#[derive(Clone, Debug, PartialEq, Eq)]
pub enum Error {
    /// The transport failed before any HTTP status was obtained
    /// (connection refused, DNS, TLS, timeout).
    InvalidUrl,
    /// The server answered with a status outside 2xx. The name is
    /// historical: it covers every failure status, not only a refused login.
    WrongPassword,
    /// The server answered with success, but the body could not be read as
    /// text (`None`) or did not decode into the expected schema (the text).
    InvalidServerResponse(Option<String>),
}

/// What the transport reported for one request.
#[derive(Clone, Debug, PartialEq, Eq)]
pub enum Reply {
    /// No HTTP status was obtained.
    Unreachable,
    /// The server answered; `body` is `None` when it could not be read as text.
    Received { status: u16, body: Option<String> },
}

/// A status in the 2xx range.
pub open spec fn is_success(status: u16) -> bool {
    200 <= status <= 299
}

/// The body of a successful reply, or the error kind of any other reply.
pub open spec fn reply_body(reply: Reply) -> Result<String, Error> {
    match reply {
        Reply::Unreachable => Err(Error::InvalidUrl),
        Reply::Received { status, body } => {
            if !is_success(status) {
                Err(Error::WrongPassword)
            } else {
                match body {
                    Some(b) => Ok(b),
                    None => Err(Error::InvalidServerResponse(None)),
                }
            }
        },
    }
}

/// Classifies a reply: its body when the status is 2xx and the body was
/// readable, the matching error kind otherwise.
pub fn read_body(reply: Reply) -> (r: Result<String, Error>)
    ensures
        r == reply_body(reply),
{
    match reply {
        Reply::Unreachable => Err(Error::InvalidUrl),
        Reply::Received { status, body } => {
            if status < 200 || status > 299 {
                Err(Error::WrongPassword)
            } else {
                match body {
                    Some(b) => Ok(b),
                    None => Err(Error::InvalidServerResponse(None)),
                }
            }
        },
    }
}

/// Classifies a reply whose body the caller has tried to decode:
/// `decoded` is the value decoded from the body, `None` when the body is not
/// JSON or lacks a field of the schema.
pub fn decode_reply<T>(reply: Reply, decoded: Option<T>) -> (r: Result<T, Error>)
    ensures
        reply_body(reply) matches Err(e) ==> r == Err::<T, Error>(e),
        reply_body(reply) matches Ok(b) ==> r == match decoded {
            Some(v) => Ok(v),
            None => Err(Error::InvalidServerResponse(Some(b))),
        },
{
    match read_body(reply) {
        Err(e) => Err(e),
        Ok(b) => match decoded {
            Some(v) => Ok(v),
            None => Err(Error::InvalidServerResponse(Some(b))),
        },
    }
}

/// Whatever the operation, a reply with a status outside 2xx is classified
/// as `WrongPassword`.
pub proof fn lemma_failure_status_is_wrong_password(status: u16, body: Option<String>)
    requires
        !is_success(status),
    ensures
        reply_body(Reply::Received { status, body }) == Err::<String, Error>(Error::WrongPassword),
{
}

/// Whatever the operation, a request that got no reply at all is classified
/// as `InvalidUrl`.
pub proof fn lemma_no_reply_is_invalid_url()
    ensures
        reply_body(Reply::Unreachable) == Err::<String, Error>(Error::InvalidUrl),
{
}

/// A 2xx reply with a readable body always reaches decoding, carrying the
/// body's text; an operation whose decoding then fails reports
/// `InvalidServerResponse` with that text.
pub proof fn lemma_success_keeps_body(status: u16, body: String)
    requires
        is_success(status),
    ensures
        reply_body(Reply::Received { status, body: Some(body) }) == Ok::<String, Error>(body),
{
}

} // verus!
