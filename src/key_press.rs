use vstd::prelude::*;
use vstd::string::*;
use crate::dab::{self, error_envelope};
use crate::error::BridgeError;
use crate::json::{decimal, json_quoted, push_decimal, push_quoted};
use crate::router::Action;
use crate::rpc::{frame_head, get_request_id, issues, push_frame_head, RequestIds};

verus! {

/// Parameters of a key injection call.
#[derive(Debug, Clone)]
pub struct Params {
    pub keyCode: u32,
    pub modifiers: String,
}

/// The key injection request.
#[derive(Debug, Clone)]
pub struct Request {
    pub jsonrpc: String,
    pub id: u64,
    pub method: String,
    pub params: Params,
}

/// `{"keyCode":<code>,"modifiers":<modifiers as a JSON string>}`
pub open spec fn params_json(key_code: nat, modifiers: Seq<char>) -> Seq<char> {
    "{\"keyCode\":"@ + decimal(key_code) + ",\"modifiers\":"@ + json_quoted(modifiers) + "}"@
}

impl Request {
    /// The request as one JSON-RPC text frame.
    pub fn encode(&self) -> (r: String)
        ensures
            r@ == frame_head(self.jsonrpc@, self.id as nat, self.method@)
                + ",\"params\":"@ + params_json(self.params.keyCode as nat, self.params.modifiers@)
                + "}"@,
    {
        let mut out = String::new();
        push_frame_head(&mut out, self.jsonrpc.as_str(), self.id, self.method.as_str());
        let ghost head = out@;
        out.append(",\"params\":{\"keyCode\":");
        push_decimal(&mut out, self.params.keyCode as u64);
        out.append(",\"modifiers\":");
        push_quoted(&mut out, self.params.modifiers.as_str());
        out.append("}}");
        proof {
            reveal_strlit(",\"params\":{\"keyCode\":");
            reveal_strlit(",\"params\":");
            reveal_strlit("{\"keyCode\":");
            reveal_strlit("}}");
            reveal_strlit("}");
        }
        assert(out@ =~= head + ",\"params\":"@ + params_json(
            self.params.keyCode as nat,
            self.params.modifiers@,
        ) + "}"@);
        out
    }
}

/// The device code of a key symbol, where the symbol is one of the defined ones.
pub open spec fn key_code_entry(s: Seq<char>) -> Option<u32> {
    if s == "KEY_POWER"@ {
        Some(112u32)
    } else if s == "KEY_VOLUME_UP"@ {
        Some(175u32)
    } else if s == "KEY_VOLUME_DOWN"@ {
        Some(174u32)
    } else if s == "KEY_MUTE"@ {
        Some(173u32)
    } else if s == "KEY_CHANNEL_UP"@ {
        Some(175u32)
    } else if s == "KEY_CHANNEL_DOWN"@ {
        Some(174u32)
    } else if s == "KEY_MENU"@ {
        Some(0u32)
    } else if s == "KEY_EXIT"@ {
        Some(36u32)
    } else if s == "KEY_INFO"@ {
        Some(0u32)
    } else if s == "KEY_GUIDE"@ {
        Some(0u32)
    } else if s == "KEY_UP"@ {
        Some(38u32)
    } else if s == "KEY_PAGE_UP"@ {
        Some(0u32)
    } else if s == "KEY_PAGE_DOWN"@ {
        Some(0u32)
    } else if s == "KEY_RIGHT"@ {
        Some(39u32)
    } else if s == "KEY_DOWN"@ {
        Some(40u32)
    } else if s == "KEY_LEFT"@ {
        Some(37u32)
    } else if s == "KEY_ENTER"@ {
        Some(13u32)
    } else if s == "KEY_BACK"@ {
        Some(0u32)
    } else if s == "KEY_PLAY"@ {
        Some(0u32)
    } else if s == "KEY_PLAY_PAUSE"@ {
        Some(0u32)
    } else if s == "KEY_PAUSE"@ {
        Some(0u32)
    } else if s == "KEY_RECORD"@ {
        Some(0u32)
    } else if s == "KEY_STOP"@ {
        Some(0u32)
    } else if s == "KEY_REWIND"@ {
        Some(0u32)
    } else if s == "KEY_FAST_FORWARD"@ {
        Some(0u32)
    } else if s == "KEY_SKIP_REWIND"@ {
        Some(0u32)
    } else if s == "KEY_SKIP_FAST_FORWARD"@ {
        Some(0u32)
    } else if s == "KEY_0"@ {
        Some(48u32)
    } else if s == "KEY_1"@ {
        Some(49u32)
    } else if s == "KEY_2"@ {
        Some(50u32)
    } else if s == "KEY_3"@ {
        Some(51u32)
    } else if s == "KEY_4"@ {
        Some(52u32)
    } else if s == "KEY_5"@ {
        Some(53u32)
    } else if s == "KEY_6"@ {
        Some(54u32)
    } else if s == "KEY_7"@ {
        Some(55u32)
    } else if s == "KEY_8"@ {
        Some(56u32)
    } else if s == "KEY_9"@ {
        Some(57u32)
    } else {
        None
    }
}

/// Whether the key symbol is one of the defined ones.
pub open spec fn is_defined_key(s: Seq<char>) -> bool {
    key_code_entry(s) is Some
}

/// The device code of a key symbol: its entry, or 0 for a symbol with none.
pub open spec fn key_code(s: Seq<char>) -> u32 {
    match key_code_entry(s) {
        Some(c) => c,
        None => 0,
    }
}

/// The key mapping is total: a symbol without an entry maps to 0, and one with
/// an entry maps to that entry's code.
pub proof fn lemma_key_code_total(s: Seq<char>)
    ensures
        !is_defined_key(s) ==> key_code(s) == 0,
        is_defined_key(s) ==> key_code(s) == key_code_entry(s)->Some_0,
{
}

fn same_text(a: &String, b: &str) -> (r: bool)
    ensures
        r == (a@ == b@),
{
    let t = String::from_str(b);
    *a == t
}

pub fn keycode_str_to_ui32(keycode: String) -> (r: u32)
    ensures
        r == key_code(keycode@),
{
    if same_text(&keycode, "KEY_POWER") {
        112u32
    } else if same_text(&keycode, "KEY_VOLUME_UP") {
        175u32
    } else if same_text(&keycode, "KEY_VOLUME_DOWN") {
        174u32
    } else if same_text(&keycode, "KEY_MUTE") {
        173u32
    } else if same_text(&keycode, "KEY_CHANNEL_UP") {
        175u32
    } else if same_text(&keycode, "KEY_CHANNEL_DOWN") {
        174u32
    } else if same_text(&keycode, "KEY_MENU") {
        0u32
    } else if same_text(&keycode, "KEY_EXIT") {
        36u32
    } else if same_text(&keycode, "KEY_INFO") {
        0u32
    } else if same_text(&keycode, "KEY_GUIDE") {
        0u32
    } else if same_text(&keycode, "KEY_UP") {
        38u32
    } else if same_text(&keycode, "KEY_PAGE_UP") {
        0u32
    } else if same_text(&keycode, "KEY_PAGE_DOWN") {
        0u32
    } else if same_text(&keycode, "KEY_RIGHT") {
        39u32
    } else if same_text(&keycode, "KEY_DOWN") {
        40u32
    } else if same_text(&keycode, "KEY_LEFT") {
        37u32
    } else if same_text(&keycode, "KEY_ENTER") {
        13u32
    } else if same_text(&keycode, "KEY_BACK") {
        0u32
    } else if same_text(&keycode, "KEY_PLAY") {
        0u32
    } else if same_text(&keycode, "KEY_PLAY_PAUSE") {
        0u32
    } else if same_text(&keycode, "KEY_PAUSE") {
        0u32
    } else if same_text(&keycode, "KEY_RECORD") {
        0u32
    } else if same_text(&keycode, "KEY_STOP") {
        0u32
    } else if same_text(&keycode, "KEY_REWIND") {
        0u32
    } else if same_text(&keycode, "KEY_FAST_FORWARD") {
        0u32
    } else if same_text(&keycode, "KEY_SKIP_REWIND") {
        0u32
    } else if same_text(&keycode, "KEY_SKIP_FAST_FORWARD") {
        0u32
    } else if same_text(&keycode, "KEY_0") {
        48u32
    } else if same_text(&keycode, "KEY_1") {
        49u32
    } else if same_text(&keycode, "KEY_2") {
        50u32
    } else if same_text(&keycode, "KEY_3") {
        51u32
    } else if same_text(&keycode, "KEY_4") {
        52u32
    } else if same_text(&keycode, "KEY_5") {
        53u32
    } else if same_text(&keycode, "KEY_6") {
        54u32
    } else if same_text(&keycode, "KEY_7") {
        55u32
    } else if same_text(&keycode, "KEY_8") {
        56u32
    } else if same_text(&keycode, "KEY_9") {
        57u32
    } else {
        0u32
    }
}

/// The injection frame for a key code under a request identifier.
pub open spec fn key_press_frame(id: nat, key_code: nat) -> Seq<char> {
    frame_head("2.0"@, id, "org.rdk.RDKShell.injectKey"@) + ",\"params\":"@ + params_json(
        key_code,
        Seq::empty(),
    ) + "}"@
}

/// The message of the 400 envelope for a request without a key symbol.
pub open spec fn missing_key_text() -> Seq<char> {
    "request missing 'keyCode' parameter"@
}

/// Starts a key press: a decode error is handed on, a request without a key
/// symbol is answered with a 400 envelope, and otherwise a fresh identifier is
/// taken and the injection frame is to be sent.
pub fn process(params: Result<dab::Request, BridgeError>, ids: &mut RequestIds) -> (r: Action)
    requires
        old(ids).last_issued() < u64::MAX,
    ensures
        match params {
            Err(e) => r matches Action::Respond(Err(f)) && f == e && *final(ids) == *old(ids),
            Ok(p) => match p.keyCode {
                None => *final(ids) == *old(ids) && (r matches Action::Respond(Ok(t)) && t@
                    == error_envelope(400, missing_key_text())),
                Some(k) => issues(*old(ids), *final(ids), final(ids).last_issued() as u64)
                    && (r matches Action::Call(f) && f@ == key_press_frame(
                    final(ids).last_issued(),
                    key_code(k@) as nat,
                )),
            },
        },
{
    match params {
        Err(e) => Action::Respond(Err(e)),
        Ok(p) => match p.keyCode {
            None => Action::Respond(
                dab::respond_error(400, String::from_str("request missing 'keyCode' parameter")),
            ),
            Some(k) => {
                let request = Request {
                    jsonrpc: String::from_str("2.0"),
                    id: get_request_id(ids),
                    method: String::from_str("org.rdk.RDKShell.injectKey"),
                    params: Params { keyCode: keycode_str_to_ui32(k), modifiers: String::new() },
                };
                Action::Call(request.encode())
            },
        },
    }
}

} // verus!
