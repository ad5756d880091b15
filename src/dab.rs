use vstd::prelude::*;
use vstd::string::*;
use crate::error::BridgeError;
use crate::json::{decimal, json_quoted, push_decimal, push_quoted};

verus! {

/// The parameters of an inbound command; every field is optional.
#[derive(Debug, Clone)]
pub struct Request {
    pub appId: Option<String>,
    pub force: Option<bool>,
    pub keyCode: Option<String>,
}

/// An envelope that carries a status code alone.
#[derive(Debug, Clone, Copy, PartialEq, Eq)]
pub struct SimpleResponse {
    pub status: u16,
}

/// An envelope that carries a status code and an error message.
#[derive(Debug, Clone)]
pub struct ErrorResponse {
    pub status: u16,
    pub error: String,
}

/// `{"status":<status>}`
pub open spec fn code_envelope(status: nat) -> Seq<char> {
    "{\"status\":"@ + decimal(status) + "}"@
}

/// `{"status":<status>,"error":<error as a JSON string>}`
pub open spec fn error_envelope(status: nat, error: Seq<char>) -> Seq<char> {
    "{\"status\":"@ + decimal(status) + ",\"error\":"@ + json_quoted(error) + "}"@
}

impl SimpleResponse {
    pub fn encode(&self) -> (r: String)
        ensures
            r@ == code_envelope(self.status as nat),
    {
        let mut out = String::from_str("{\"status\":");
        push_decimal(&mut out, self.status as u64);
        out.append("}");
        out
    }
}

impl ErrorResponse {
    pub fn encode(&self) -> (r: String)
        ensures
            r@ == error_envelope(self.status as nat, self.error@),
    {
        let mut out = String::from_str("{\"status\":");
        push_decimal(&mut out, self.status as u64);
        out.append(",\"error\":");
        push_quoted(&mut out, self.error.as_str());
        out.append("}");
        out
    }
}

pub fn respond_with_code(status: u16) -> (r: Result<String, BridgeError>)
    ensures
        r is Ok,
        r->Ok_0@ == code_envelope(status as nat),
{
    Ok(SimpleResponse { status }.encode())
}

pub fn respond_success() -> (r: Result<String, BridgeError>)
    ensures
        r is Ok,
        r->Ok_0@ == code_envelope(200),
        r->Ok_0@ == "{\"status\":200}"@,
{
    proof { lemma_success_text(); }
    respond_with_code(200)
}

pub fn respond_error(status: u16, error: String) -> (r: Result<String, BridgeError>)
    ensures
        r is Ok,
        r->Ok_0@ == error_envelope(status as nat, error@),
{
    Ok(ErrorResponse { status, error }.encode())
}

pub fn respond_not_implemented() -> (r: Result<String, BridgeError>)
    ensures
        r is Ok,
        r->Ok_0@ == code_envelope(501),
        r->Ok_0@ == "{\"status\":501}"@,
{
    proof { lemma_not_implemented_text(); }
    respond_with_code(501)
}

/// The success envelope is the object `{"status":200}` and holds no other field.
pub proof fn lemma_success_text()
    ensures
        code_envelope(200) == "{\"status\":200}"@,
{
    reveal_strlit("{\"status\":");
    reveal_strlit("}");
    reveal_strlit("{\"status\":200}");
    assert(decimal(2) == seq!['2']);
    assert(decimal(20) =~= seq!['2', '0']);
    assert(decimal(200) =~= seq!['2', '0', '0']);
    assert(code_envelope(200) =~= "{\"status\":200}"@);
}

/// The envelope for an unknown command is the object `{"status":501}`.
pub proof fn lemma_not_implemented_text()
    ensures
        code_envelope(501) == "{\"status\":501}"@,
{
    reveal_strlit("{\"status\":");
    reveal_strlit("}");
    reveal_strlit("{\"status\":501}");
    assert(decimal(5) == seq!['5']);
    assert(decimal(50) =~= seq!['5', '0']);
    assert(decimal(501) =~= seq!['5', '0', '1']);
    assert(code_envelope(501) =~= "{\"status\":501}"@);
}

} // verus!
