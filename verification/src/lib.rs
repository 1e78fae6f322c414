//! A reconnecting WebSocket client.
//!
//! The client attempts to reconnect on any error, and informs the application
//! of each, so that it can end the client for good if it wants to.
//!
//! The library decides what the client does and leaves the waiting to its
//! caller: [`client::Run`] is the client as a whole, [`session::Session`] one
//! open connection. Both take events and return actions. What each event leads
//! to is proved in [`client_step_laws`] and [`session_step_laws`], and what
//! holds whatever happens in [`client_laws`] and [`session_laws`].

pub mod backoff;
pub mod client;
pub mod client_laws;
pub mod client_step_laws;
pub mod config;
pub mod connection;
pub mod history;
pub mod session;
pub mod session_laws;
pub mod session_step_laws;
pub mod trusted;
pub mod websocket;
