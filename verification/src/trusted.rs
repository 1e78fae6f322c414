//! What the library takes on trust from outside: the WebSocket types it only
//! carries, and the few calls whose results it relies on.

use std::time::Duration;
use tokio_tungstenite::tungstenite;
use vstd::prelude::*;

verus! {

/// `tungstenite::Error`, carried from the socket to the application unread.
#[verifier::external_type_specification]
#[verifier::external_body]
pub struct ExError(tungstenite::Error);

/// `tungstenite::protocol::CloseFrame`, carried from the socket to the
/// application unread.
#[verifier::external_type_specification]
#[verifier::external_body]
pub struct ExCloseFrame<'t>(tungstenite::protocol::CloseFrame<'t>);

/// `tungstenite::protocol::WebSocketConfig`, carried from the configuration to
/// the connection attempt unread.
#[verifier::external_type_specification]
#[verifier::external_body]
pub struct ExWebSocketConfig(tungstenite::protocol::WebSocketConfig);

/// The duration that `std::time::Duration::from_secs` gives for `secs`.
pub uninterp spec fn duration_of_secs(secs: u64) -> Duration;

/// `std::time::Duration::from_secs` gives the duration of that many whole
/// seconds; it depends on its argument alone.
pub assume_specification[ Duration::from_secs ](secs: u64) -> (duration: Duration)
    ensures
        duration == duration_of_secs(secs),
;

/// The text that the `Display` implementation of `tungstenite::Error` writes,
/// by `std::string::ToString::to_string`.
///
/// Nothing is claimed of the text: for an I/O error it is worded by the
/// operating system.
#[verifier::external_body]
pub fn error_text(error: &tungstenite::Error) -> (text: String) {
    error.to_string()
}

} // verus!
