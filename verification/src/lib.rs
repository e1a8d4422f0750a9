//! A websocket event server and client: connection registry, rooms,
//! event dispatch and the wire framing of event messages.
pub mod broadcast_builder;
pub mod client;
pub mod dash;
pub mod error;
pub mod events;
pub mod laws;
pub mod peer;
pub mod peer_context;
pub mod peer_emitter;
pub mod server_states;
pub mod session;
pub mod socket_id;
pub mod wire;

pub use client::Client;
pub use peer::Peer;
pub use server_states::ServerStates;
