//! Sending and receiving collections of files.
pub mod engine;
pub mod paths;
pub mod receive;
pub mod record;
pub mod send;
