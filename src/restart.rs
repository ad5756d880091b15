use vstd::prelude::*;
use vstd::string::*;
use crate::json::{json_quoted, push_quoted};
use crate::router::Action;
use crate::rpc::{
    error_text, error_text_of, frame_head, get_request_id, issues, push_frame_head, RequestIds,
    SimpleError,
};

verus! {

/// Parameters of a reboot call.
#[derive(Debug, Clone)]
pub struct Params {
    pub reason: String,
}

/// The reboot request.
#[derive(Debug, Clone)]
pub struct Request {
    pub jsonrpc: String,
    pub id: u64,
    pub method: String,
    pub params: Params,
}

/// The result object of a reboot response.
#[derive(Debug, Clone, Copy)]
pub struct Result {
    pub IARM_Bus_Call_STATUS: Option<u64>,
    pub success: bool,
}

/// The reboot response.
#[derive(Debug, Clone)]
pub struct Response {
    pub jsonrpc: String,
    pub id: u64,
    pub result: Option<Result>,
    pub error: Option<SimpleError>,
}

impl crate::rpc::Response for Response {
    open spec fn succeeded(&self) -> bool {
        match self.result {
            Some(r) => r.success,
            None => false,
        }
    }

    open spec fn failure_text(&self) -> Seq<char> {
        error_text_of(self.error)
    }

    fn is_success(&self) -> (r: bool) {
        match &self.result {
            Some(r) => r.success,
            None => false,
        }
    }

    fn error_message(&self) -> (r: String) {
        error_text(&self.error)
    }
}

/// `{"reason":<reason as a JSON string>}`
pub open spec fn params_json(reason: Seq<char>) -> Seq<char> {
    "{\"reason\":"@ + json_quoted(reason) + "}"@
}

impl Request {
    /// The request as one JSON-RPC text frame.
    pub fn encode(&self) -> (r: String)
        ensures
            r@ == frame_head(self.jsonrpc@, self.id as nat, self.method@) + ",\"params\":"@
                + params_json(self.params.reason@) + "}"@,
    {
        let mut out = String::new();
        push_frame_head(&mut out, self.jsonrpc.as_str(), self.id, self.method.as_str());
        let ghost head = out@;
        out.append(",\"params\":{\"reason\":");
        push_quoted(&mut out, self.params.reason.as_str());
        out.append("}}");
        proof {
            reveal_strlit(",\"params\":{\"reason\":");
            reveal_strlit(",\"params\":");
            reveal_strlit("{\"reason\":");
            reveal_strlit("}}");
            reveal_strlit("}");
        }
        assert(out@ =~= head + ",\"params\":"@ + params_json(self.params.reason@) + "}"@);
        out
    }
}

/// The reboot frame under a request identifier.
pub open spec fn restart_frame(id: nat) -> Seq<char> {
    frame_head("2.0"@, id, "org.rdk.System.reboot"@) + ",\"params\":"@ + params_json(
        "DAB_RESTART_REQUEST"@,
    ) + "}"@
}

/// Starts a restart: takes a fresh identifier and hands back the reboot frame
/// to send; the inbound parameters play no part.
pub fn process(ids: &mut RequestIds) -> (r: Action)
    requires
        old(ids).last_issued() < u64::MAX,
    ensures
        issues(*old(ids), *final(ids), final(ids).last_issued() as u64),
        r matches Action::Call(f) && f@ == restart_frame(final(ids).last_issued()),
{
    let request = Request {
        jsonrpc: String::from_str("2.0"),
        id: get_request_id(ids),
        method: String::from_str("org.rdk.System.reboot"),
        params: Params { reason: String::from_str("DAB_RESTART_REQUEST") },
    };
    Action::Call(request.encode())
}

} // verus!
