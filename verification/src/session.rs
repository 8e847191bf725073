use vstd::prelude::*;
use vstd::string::StringSliceAdditionalSpecFns;

use crate::direction::{direction_of, MoveDirection};
use crate::messages::{ClientConnectInfo, RouterEvent};

verus! {

/// Relies on uuid::Uuid::new_v4 for a freshly generated random identifier,
/// returned as its 128-bit value. Nothing is promised of the result: it
/// depends on the process's randomness source.
#[verifier::external_body]
fn random_identity() -> u128 {
    uuid::Uuid::new_v4().as_u128()
}

/// The router event one inbound text frame produces: none for an empty
/// frame, and a movement command tagged with the session's identity for
/// every other frame.
pub open spec fn spec_inbound_event(identity: u128, frame: Seq<u8>) -> Option<RouterEvent> {
    if frame.len() == 0 {
        None
    } else {
        Some(RouterEvent::Move(direction_of(frame), identity))
    }
}

/// Opens the bookkeeping for one accepted connection: assigns it a fresh
/// randomly generated identity and pairs it with the handle of the
/// session's outbound delivery queue.
pub fn new_session(outbound: u64) -> (info: ClientConnectInfo)
    ensures
        info.outbound == outbound,
{
    let identity = random_identity();
    ClientConnectInfo::new(identity, outbound)
}

/// Translates one inbound text frame from a session's receive half into
/// the router event the session forwards, if any: empty frames are
/// ignored, every other frame becomes a movement command.
pub fn inbound_event(identity: u128, frame: &str) -> (r: Option<RouterEvent>)
    ensures
        r == spec_inbound_event(identity, frame.spec_bytes()),
{
    let b = frame.as_bytes();
    if b.len() == 0 {
        None
    } else {
        Some(RouterEvent::Move(MoveDirection::from_token(frame), identity))
    }
}

} // verus!
