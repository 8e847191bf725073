use vstd::prelude::*;

use crate::direction::MoveDirection;
use crate::position::Position;

verus! {

/// What the acceptor hands the simulation when a client connects: the
/// fresh connection identity and the handle of that session's outbound
/// delivery queue.
#[derive(Clone, Copy, Debug, PartialEq, Eq, Structural)]
pub struct ClientConnectInfo {
    /// The connection's globally unique identity, assigned at accept time.
    pub identity: u128,
    /// An opaque handle the transport layer resolves to the session's
    /// outbound delivery queue.
    pub outbound: u64,
}

impl ClientConnectInfo {
    pub fn new(identity: u128, outbound: u64) -> (r: ClientConnectInfo)
        ensures
            r.identity == identity,
            r.outbound == outbound,
    {
        ClientConnectInfo { identity, outbound }
    }
}

/// One event on the router queue: the single ordered stream of
/// session-originated events the simulation loop consumes.
#[derive(Clone, Copy, Debug, PartialEq, Eq, Structural)]
pub enum RouterEvent {
    /// A client connected and its session is ready to receive.
    Connect(ClientConnectInfo),
    /// A client sent one movement command.
    Move(MoveDirection, u128),
    /// A client's connection ended.
    Disconnect(u128),
}

/// One message sent back to a client.
#[derive(Clone, Copy, Debug, PartialEq, Eq, Structural)]
pub enum ServerMessage {
    /// The authoritative position of the receiving client's entity.
    PlayerUpdate { translation: Position },
}

/// One outbound message the simulation asks the transport layer to write:
/// the message and the delivery-queue handle of the session it goes to.
#[derive(Clone, Copy, Debug, PartialEq, Eq, Structural)]
pub struct Delivery {
    pub outbound: u64,
    pub message: ServerMessage,
}

} // verus!
