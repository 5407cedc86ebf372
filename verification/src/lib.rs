use vstd::prelude::*;

pub mod cli;
pub mod commands;
pub mod config;
pub mod error;
pub mod identity;
pub mod laws;
pub mod order;
pub mod pairing;
pub mod protocol;
pub mod receive;
pub mod relay;
pub mod rendezvous;
pub mod rendezvous_client;
pub mod send;
pub mod session;
pub mod text;
pub mod transfer;
pub mod ui;
pub mod wire;

verus! {

/// The version of this crate, as every command reports it.
pub fn crate_version() -> (version: &'static str)
    ensures
        version@ == "0.1.0"@,
{
    "0.1.0"
}

} // verus!
