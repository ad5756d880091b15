use vstd::prelude::*;
use vstd::string::*;

verus! {

/// Why one command could not be answered with its own success payload.
#[derive(Debug, Clone)]
pub enum BridgeError {
    /// The inbound payload is not UTF-8, not JSON, or not of the expected shape.
    Decode(String),
    /// Writing to or reading from the device connection failed.
    Transport(String),
    /// The device answered, but its response says the call failed.
    Remote(String),
}

impl BridgeError {
    /// The text of the error, as it is carried in an error envelope.
    pub open spec fn text(&self) -> Seq<char> {
        match self {
            BridgeError::Decode(m) => m@,
            BridgeError::Transport(m) => m@,
            BridgeError::Remote(m) => "RPC request failed: "@ + m@,
        }
    }

    pub fn message(&self) -> (r: String)
        ensures
            r@ == self.text(),
    {
        match self {
            BridgeError::Decode(m) => m.clone(),
            BridgeError::Transport(m) => m.clone(),
            BridgeError::Remote(m) => {
                let mut r = String::from_str("RPC request failed: ");
                r.append(m.as_str());
                r
            },
        }
    }
}

} // verus!
