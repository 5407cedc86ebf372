//! Pairing two peers by a short spoken code.
pub mod handshake;
pub mod spake;
pub mod wordcode;
pub mod wordlist;
