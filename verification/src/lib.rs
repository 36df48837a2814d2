//! Session handling for a remote-desktop portal backend.
//!
//! A client creates a session, selects devices and sources, and starts it. What it is granted
//! then bounds the input that it may send, over the bus or through an emulated-input connection,
//! and can be written down in a token by which the client gets the same grant again.

pub mod backend;
pub mod eis_server;
pub mod error;
pub mod flags;
pub mod input;
pub mod laws;
pub mod monitor;
pub mod path;
pub mod remotedesktop;
pub mod restore;
pub mod session;
pub mod start;
pub mod text;
pub mod variant;
