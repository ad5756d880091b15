use vstd::prelude::*;
use vstd::string::*;
use crate::error::BridgeError;
use crate::json::{decimal, json_quoted, push_decimal, push_quoted};

verus! {

/// What every device response shape answers: did the call succeed, and if
/// not, why.
pub trait Response {
    spec fn succeeded(&self) -> bool;

    spec fn failure_text(&self) -> Seq<char>;

    fn is_success(&self) -> (r: bool)
        ensures
            r == self.succeeded(),
    ;

    fn error_message(&self) -> (r: String)
        ensures
            r@ == self.failure_text(),
    ;
}

/// Issues request identifiers: 1, 2, 3, ... in the order of the calls.
pub struct RequestIds {
    last: u64,
}

impl RequestIds {
    /// The identifier issued last; 0 before the first.
    pub closed spec fn last_issued(&self) -> nat {
        self.last as nat
    }

    pub fn new() -> (r: RequestIds)
        ensures
            r.last_issued() == 0,
    {
        RequestIds { last: 0 }
    }

    /// Whether another identifier fits in 64 bits.
    pub fn can_issue(&self) -> (r: bool)
        ensures
            r == (self.last_issued() < u64::MAX),
    {
        self.last < u64::MAX
    }
}

/// `after` is `before` once it has issued `id`.
pub open spec fn issues(before: RequestIds, after: RequestIds, id: u64) -> bool {
    &&& id == before.last_issued() + 1
    &&& after.last_issued() == id
}

/// Takes the next request identifier.
pub fn get_request_id(ids: &mut RequestIds) -> (r: u64)
    requires
        old(ids).last_issued() < u64::MAX,
    ensures
        issues(*old(ids), *final(ids), r),
{
    ids.last = ids.last + 1;
    ids.last
}

/// Identifiers issued by successive calls strictly increase, and the first
/// one a fresh issuer gives is 1: none is issued twice.
pub proof fn lemma_ids_increase(c0: RequestIds, c1: RequestIds, c2: RequestIds, a: u64, b: u64)
    requires
        issues(c0, c1, a),
        issues(c1, c2, b),
    ensures
        a < b,
        b == a + 1,
        c0.last_issued() == 0 ==> a == 1,
{
}

/// A request with no parameters.
#[derive(Debug, Clone)]
pub struct SimpleRequest {
    pub jsonrpc: String,
    pub id: u64,
    pub method: String,
}

/// The error object of a device response.
#[derive(Debug, Clone)]
pub struct SimpleError {
    pub success: bool,
    pub code: u32,
    pub message: String,
}

/// A result object that holds a success flag alone.
#[derive(Debug, Clone, Copy)]
pub struct SimpleResult {
    pub success: bool,
}

/// A device response whose result is a bare success flag.
#[derive(Debug, Clone)]
pub struct SimpleResponse {
    pub jsonrpc: String,
    pub id: u64,
    pub result: Option<SimpleResult>,
    pub error: Option<SimpleError>,
}

/// The message of an optional error object, "unknown error" where it is absent.
pub open spec fn error_text_of(e: Option<SimpleError>) -> Seq<char> {
    match e {
        Some(e) => e.message@,
        None => "unknown error"@,
    }
}

pub fn error_text(e: &Option<SimpleError>) -> (r: String)
    ensures
        r@ == error_text_of(*e),
{
    match e {
        Some(e) => e.message.clone(),
        None => String::from_str("unknown error"),
    }
}

impl Response for SimpleResponse {
    open spec fn succeeded(&self) -> bool {
        match self.result {
            Some(r) => r.success,
            None => false,
        }
    }

    open spec fn failure_text(&self) -> Seq<char> {
        error_text_of(self.error)
    }

    fn is_success(&self) -> (r: bool) {
        match &self.result {
            Some(r) => r.success,
            None => false,
        }
    }

    fn error_message(&self) -> (r: String) {
        error_text(&self.error)
    }
}

/// `{"jsonrpc":<v>,"id":<id>,"method":<m>` : the fields every request starts with.
pub open spec fn frame_head(jsonrpc: Seq<char>, id: nat, method: Seq<char>) -> Seq<char> {
    "{\"jsonrpc\":"@ + json_quoted(jsonrpc) + ",\"id\":"@ + decimal(id) + ",\"method\":"@
        + json_quoted(method)
}

/// Appends the leading fields of a request object to `out`.
pub fn push_frame_head(out: &mut String, jsonrpc: &str, id: u64, method: &str)
    ensures
        final(out)@ == old(out)@ + frame_head(jsonrpc@, id as nat, method@),
{
    let ghost start = out@;
    out.append("{\"jsonrpc\":");
    push_quoted(out, jsonrpc);
    out.append(",\"id\":");
    push_decimal(out, id);
    out.append(",\"method\":");
    push_quoted(out, method);
    assert(out@ =~= start + frame_head(jsonrpc@, id as nat, method@));
}

impl SimpleRequest {
    /// The request as one JSON-RPC text frame.
    pub fn encode(&self) -> (r: String)
        ensures
            r@ == frame_head(self.jsonrpc@, self.id as nat, self.method@) + "}"@,
    {
        let mut out = String::new();
        push_frame_head(&mut out, self.jsonrpc.as_str(), self.id, self.method.as_str());
        out.append("}");
        out
    }
}

/// What came of one request/reply exchange on the device connection.
pub enum Exchange<R> {
    /// The request frame could not be written.
    SendFailed,
    /// Reading the reply failed; the connection's own description.
    ReadFailed(String),
    /// The reply was not a text frame.
    NonText,
    /// The reply text does not parse as the expected response shape.
    Undecodable(String),
    /// The reply, parsed.
    Reply(R),
}

/// The text of the transport error that an exchange ends in, if it does.
pub open spec fn transport_text<R>(x: Exchange<R>) -> Seq<char> {
    match x {
        Exchange::SendFailed => "unable to send RPC request to device"@,
        Exchange::ReadFailed(m) => "WebSocket error: "@ + m@,
        Exchange::NonText => "non-text response received"@,
        _ => Seq::empty(),
    }
}

/// Classifies an exchange: the parsed response where its success predicate
/// holds, else the error that the exchange ends in.
pub fn call<R: Response>(x: Exchange<R>) -> (r: Result<R, BridgeError>)
    ensures
        match x {
            Exchange::Undecodable(m) => r matches Err(BridgeError::Decode(d)) && d == m,
            Exchange::Reply(v) => if v.succeeded() {
                r matches Ok(w) && w == v
            } else {
                r matches Err(BridgeError::Remote(m)) && m@ == v.failure_text()
            },
            _ => r matches Err(BridgeError::Transport(m)) && m@ == transport_text(x),
        },
{
    match x {
        Exchange::SendFailed => Err(
            BridgeError::Transport(String::from_str("unable to send RPC request to device")),
        ),
        Exchange::ReadFailed(e) => {
            let mut m = String::from_str("WebSocket error: ");
            m.append(e.as_str());
            Err(BridgeError::Transport(m))
        },
        Exchange::NonText => Err(
            BridgeError::Transport(String::from_str("non-text response received")),
        ),
        Exchange::Undecodable(m) => Err(BridgeError::Decode(m)),
        Exchange::Reply(v) => {
            if v.is_success() {
                Ok(v)
            } else {
                Err(BridgeError::Remote(v.error_message()))
            }
        },
    }
}

/// Classifies an exchange and answers the generic success envelope where the
/// call succeeded.
pub fn call_and_respond<R: Response>(x: Exchange<R>) -> (r: Result<String, BridgeError>)
    ensures
        match x {
            Exchange::Undecodable(m) => r matches Err(BridgeError::Decode(d)) && d == m,
            Exchange::Reply(v) => if v.succeeded() {
                r matches Ok(t) && t@ == "{\"status\":200}"@
            } else {
                r matches Err(BridgeError::Remote(m)) && m@ == v.failure_text()
            },
            _ => r matches Err(BridgeError::Transport(m)) && m@ == transport_text(x),
        },
{
    match call(x) {
        Ok(_) => crate::dab::respond_success(),
        Err(e) => Err(e),
    }
}

} // verus!
