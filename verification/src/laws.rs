//! Laws: what the operations of the library promise to whoever uses them.
//!
//! A law is stated of the operation itself: whatever a call may return for some arguments
//! (`call_ensures`) is related to these arguments by characters, lengths, numbers and positions.
pub mod client;
pub mod display;
pub mod errors;
pub mod files;
pub mod flows;
pub mod pairing;
pub mod records;
pub mod server;
pub mod settings;
pub mod text;
pub mod transfer;
