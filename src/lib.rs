//! Translation between a QUIC engine's internal structures (frames, packet
//! headers, packet-number spaces, connection and recovery state) and the
//! flat, self-describing values handed to protocol plugins.

pub mod ack;
pub mod value;
pub mod frame;
pub mod codec;
pub mod packet;
pub mod error;
pub mod field;
pub mod state;
