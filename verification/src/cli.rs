use vstd::prelude::*;
use crate::MAX_CLIENTS;
use crate::PROTOCOL_ID;
use crate::SERVER_ID;

verus! {

/// An IP address as plain bytes: four for version 4, eight 16-bit groups
/// for version 6.
#[derive(Clone, Copy, PartialEq, Eq, Debug)]
pub enum IpAddress {
    V4([u8; 4]),
    V6([u16; 8]),
}

/// The loopback address, the only address the server listens on.
pub fn loopback() -> (r: IpAddress)
    ensures
        r matches IpAddress::V4(a) && a@ =~= seq![127u8, 0u8, 0u8, 1u8],
{
    IpAddress::V4([127, 0, 0, 1])
}

/// A UDP endpoint.
#[derive(Clone, Copy, PartialEq, Eq, Debug)]
pub struct SocketAddress {
    pub ip: IpAddress,
    pub port: u16,
}

/// The role this process was started in, as read from the command line.
#[derive(Clone, Copy, PartialEq, Eq, Debug)]
pub enum Cli {
    Server { port: u16 },
    Client { ip: IpAddress, port: u16 },
}

/// Everything the transport needs to come up in the chosen role.
#[derive(Clone, Copy, PartialEq, Eq, Debug)]
pub enum ConnectionPlan {
    Server {
        /// Endpoint the listening socket binds to.
        bind: SocketAddress,
        /// Most simultaneous clients the transport accepts.
        max_clients: usize,
        /// Protocol identifier announced to clients.
        protocol_id: u64,
        /// Identifier this process plays under.
        local_player_id: u64,
    },
    Client {
        /// Endpoint the client socket binds to: the server's address with
        /// an ephemeral port.
        bind: SocketAddress,
        /// Endpoint of the server to connect to.
        server: SocketAddress,
        /// Protocol identifier expected from the server.
        protocol_id: u64,
        /// Identifier this process plays under.
        local_player_id: u64,
    },
}

/// Derives the transport configuration from the parsed command line.
///
/// A server listens on loopback at the requested port and plays as
/// [`SERVER_ID`]. A client binds next to the server's address on an
/// ephemeral port and plays under an identifier taken from the start time:
/// the Unix time in milliseconds, truncated to 64 bits.
pub fn connection_plan(cli: &Cli, unix_millis: u128) -> (plan: ConnectionPlan)
    ensures
        cli matches Cli::Server { port } ==> plan matches ConnectionPlan::Server {
            bind,
            max_clients,
            protocol_id,
            local_player_id,
        } && bind.port == port && (bind.ip matches IpAddress::V4(a) && a@ =~= seq![
            127u8,
            0u8,
            0u8,
            1u8,
        ]) && max_clients == MAX_CLIENTS && protocol_id == PROTOCOL_ID && local_player_id
            == SERVER_ID,
        cli matches Cli::Client { ip, port } ==> plan matches ConnectionPlan::Client {
            bind,
            server,
            protocol_id,
            local_player_id,
        } && server.ip == ip && server.port == port && bind.ip == ip && bind.port == 0
            && protocol_id == PROTOCOL_ID && local_player_id == unix_millis as int
            % 0x1_0000_0000_0000_0000,
{
    match cli {
        Cli::Server { port } => ConnectionPlan::Server {
            bind: SocketAddress { ip: loopback(), port: *port },
            max_clients: MAX_CLIENTS,
            protocol_id: PROTOCOL_ID,
            local_player_id: SERVER_ID,
        },
        Cli::Client { ip, port } => {
            let local: u64 = (unix_millis % 0x1_0000_0000_0000_0000u128) as u64;
            ConnectionPlan::Client {
                bind: SocketAddress { ip: *ip, port: 0 },
                server: SocketAddress { ip: *ip, port: *port },
                protocol_id: PROTOCOL_ID,
                local_player_id: local,
            }
        },
    }
}

} // verus!
