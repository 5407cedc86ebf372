//! Framing of the messages that peers exchange.
pub mod wire;
