//! Verified core of a real-time position-synchronization server.
//!
//! Clients connect over a message-based transport and send directional
//! movement tokens; the server applies fixed-magnitude position deltas and
//! answers with authoritative position updates. This crate holds the parts
//! of that server that are plain logic: token decoding, position deltas,
//! the identity directory, the simulation event step, and the outbound
//! wire encoding. The asynchronous transport around it hands this crate
//! plain values and delivers what it returns.

pub mod direction;
pub mod position;
pub mod messages;
pub mod directory;
pub mod simulation;
pub mod codec;
pub mod session;

pub use direction::MoveDirection;
pub use position::Position;
pub use messages::{ClientConnectInfo, Delivery, RouterEvent, ServerMessage};
pub use directory::{DirectoryEntry, IdentityDirectory, SimulationEntity};
pub use simulation::Simulation;
pub use codec::{coord_bytes, dec_digits, encoded};
pub use session::{inbound_event, new_session, spec_inbound_event};
