//! How a connection is opened.

use vstd::prelude::*;

verus! {

/// Opens connections over TCP. An address that asks for TLS needs one of the
/// TLS features of `tokio-tungstenite`; without any, such an attempt fails.
pub struct WebSocketBuilder;

impl Clone for WebSocketBuilder {
    fn clone(&self) -> (builder: Self)
        ensures
            builder == *self,
    {
        WebSocketBuilder
    }
}

} // verus!
