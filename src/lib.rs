//! Routing and reply-correlation core of a bridge that turns pub/sub commands
//! into JSON-RPC calls on a device connection and answers with uniform envelopes.
#![allow(non_snake_case)]

pub mod error;
pub mod json;
pub mod dab;
pub mod rpc;
pub mod health_check;
pub mod version;
pub mod restart;
pub mod key_press;
pub mod router;
