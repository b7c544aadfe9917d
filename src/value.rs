//! The values that cross to plugins: a tagged union over frames, headers,
//! packet-number spaces, packet types, scalars and byte handles.
use vstd::prelude::*;

use crate::ack::AckRange;

verus! {

/// A capability to read (or write) payload bytes that the engine keeps; the
/// bytes themselves are not part of the value.
#[derive(Clone, Copy, Debug, PartialEq, Eq, Structural)]
pub struct Bytes {
    /// Which payload the handle refers to.
    pub tag: u64,
    /// How many bytes a plugin may read through the handle.
    pub max_read_len: u64,
    /// How many bytes a plugin may write through the handle.
    pub max_write_len: u64,
}

/// A read-only handle on `len` payload bytes.
pub open spec fn read_only(tag: u64, len: int) -> Bytes {
    Bytes { tag, max_read_len: len as u64, max_write_len: 0 }
}

/// A read-only handle on `len` payload bytes under `tag`.
pub fn read_only_handle(tag: u64, len: u64) -> (r: Bytes)
    ensures
        r == read_only(tag, len as int),
{
    Bytes { tag, max_read_len: len, max_write_len: 0 }
}

/// ECN counters carried by an ACK frame.
#[derive(Clone, Copy, Debug, PartialEq, Eq, Structural)]
pub struct EcnCount {
    pub ect0_count: u64,
    pub ect1_count: u64,
    pub ectce_count: u64,
}

/// A frame as plugins see it. Payloads are byte handles, never inline bytes.
#[derive(Clone, Debug, PartialEq, Eq)]
pub enum QuicFrame {
    Padding { length: u64 },
    Ping,
    ACK {
        largest_acknowledged: u64,
        ack_delay: u64,
        ack_range_count: u64,
        first_ack_range: u64,
        ack_ranges: Vec<AckRange>,
        ecn_counts: Option<EcnCount>,
    },
    ResetStream { stream_id: u64, application_protocol_error_code: u64, final_size: u64 },
    StopSending { stream_id: u64, application_protocol_error_code: u64 },
    Crypto { offset: u64, length: u64, crypto_data: Bytes },
    NewToken { token_length: u64, token: Bytes },
    Stream {
        stream_id: u64,
        offset: Option<u64>,
        length: Option<u64>,
        fin: bool,
        stream_data: Bytes,
    },
    MaxData { maximum_data: u64 },
    MaxStreamData { stream_id: u64, maximum_stream_data: u64 },
    MaxStreams { unidirectional: bool, maximum_streams: u64 },
    DataBlocked { maximum_data: u64 },
    StreamDataBlocked { stream_id: u64, maximum_stream_data: u64 },
    StreamsBlocked { unidirectional: bool, maximum_streams: u64 },
    NewConnectionId {
        sequence_number: u64,
        retire_prior_to: u64,
        length: u8,
        connection_id: Bytes,
        stateless_reset_token: Bytes,
    },
    RetireConnectionId { sequence_number: u64 },
    PathChallenge { data: u64 },
    PathResponse { data: u64 },
    ConnectionClose {
        error_code: u64,
        frame_type: Option<u64>,
        reason_phrase_length: u64,
        reason_phrase: Bytes,
    },
    HandshakeDone,
    Datagram { length: u64, datagram_data: Bytes },
    Extension { frame_type: u64, tag: u64 },
}

/// The kind of a plugin-visible frame, used to name the frame in errors.
#[derive(Clone, Copy, Debug, PartialEq, Eq, Structural)]
pub enum FrameKind {
    Padding,
    Ping,
    ACK,
    ResetStream,
    StopSending,
    Crypto,
    NewToken,
    Stream,
    MaxData,
    MaxStreamData,
    MaxStreams,
    DataBlocked,
    StreamDataBlocked,
    StreamsBlocked,
    NewConnectionId,
    RetireConnectionId,
    PathChallenge,
    PathResponse,
    ConnectionClose,
    HandshakeDone,
    Datagram,
    Extension,
}

/// Extension block of a header that carries a protected payload.
#[derive(Clone, Copy, Debug, PartialEq, Eq, Structural)]
pub struct HeaderExt {
    pub packet_number: Option<u64>,
    pub packet_number_len: Option<u8>,
    pub token: Option<Bytes>,
    pub key_phase: Option<bool>,
}

/// A packet header as plugins see it.
#[derive(Clone, Copy, Debug, PartialEq, Eq, Structural)]
pub struct Header {
    pub first: u8,
    pub version: Option<u32>,
    pub destination_cid: Bytes,
    pub source_cid: Option<Bytes>,
    pub supported_versions: Option<Bytes>,
    pub ext: Option<HeaderExt>,
}

/// A packet-number space as plugins see it.
#[derive(Clone, Copy, Debug, PartialEq, Eq, Structural)]
pub enum KPacketNumberSpace {
    Initial,
    Handshake,
    ApplicationData,
}

/// A packet type as plugins see it.
#[derive(Clone, Copy, Debug, PartialEq, Eq, Structural)]
pub enum PacketType {
    Initial,
    Retry,
    Handshake,
    ZeroRTT,
    VersionNegotiation,
    Short,
}

/// A value handed to or received from a plugin.
#[derive(Clone, Debug, PartialEq, Eq)]
pub enum PluginValue {
    Bool(bool),
    I32(i32),
    I64(i64),
    U32(u32),
    U64(u64),
    /// A `usize`, carried as a `u64`.
    Usize(u64),
    Bytes(Bytes),
    Frame(QuicFrame),
    Header(Header),
    PacketNumberSpace(KPacketNumberSpace),
    PacketType(PacketType),
}

impl PluginValue {
    /// The boolean inside a `Bool` value.
    pub fn as_bool(&self) -> (r: Option<bool>)
        ensures
            r == (match self {
                PluginValue::Bool(b) => Some(*b),
                _ => None,
            }),
    {
        match self {
            PluginValue::Bool(b) => Some(*b),
            _ => None,
        }
    }

    /// The integer inside a `U32` value.
    pub fn as_u32(&self) -> (r: Option<u32>)
        ensures
            r == (match self {
                PluginValue::U32(x) => Some(*x),
                _ => None,
            }),
    {
        match self {
            PluginValue::U32(x) => Some(*x),
            _ => None,
        }
    }

    /// The integer inside a `U64` value.
    pub fn as_u64(&self) -> (r: Option<u64>)
        ensures
            r == (match self {
                PluginValue::U64(x) => Some(*x),
                _ => None,
            }),
    {
        match self {
            PluginValue::U64(x) => Some(*x),
            _ => None,
        }
    }

    /// The integer inside a `Usize` value, where it fits a `usize`.
    pub fn as_usize(&self) -> (r: Option<usize>)
        ensures
            r == (match self {
                PluginValue::Usize(x) => if *x <= usize::MAX {
                    Some(*x as usize)
                } else {
                    None
                },
                _ => None,
            }),
    {
        match self {
            PluginValue::Usize(x) => if *x <= usize::MAX as u64 {
                Some(*x as usize)
            } else {
                None
            },
            _ => None,
        }
    }
}

} // verus!
