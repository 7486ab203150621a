use vstd::prelude::*;

pub mod cli;
pub mod components;
pub mod counter;
pub mod input;
pub mod server;
pub mod timer;

verus! {

/// Identifier that the server reserves for itself among connected clients.
pub const SERVER_ID: u64 = 0;

/// Default UDP port for both the server and the client role.
pub const DEFAULT_PORT: u16 = 5003;

/// Protocol identifier that both endpoints must agree on.
pub const PROTOCOL_ID: u64 = 0;

/// Most clients the server transport accepts at once.
pub const MAX_CLIENTS: usize = 10;

} // verus!
