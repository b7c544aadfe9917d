//! The engine's own frame representation.
use vstd::prelude::*;

use crate::ack::{ranges_wf, Range};
use crate::value::EcnCount;

verus! {

/// Longest connection ID that QUIC version 1 allows, in bytes.
pub const MAX_CONN_ID_LEN: usize = 20;

/// Length of a stateless reset token, in bytes.
pub const RESET_TOKEN_LEN: u64 = 16;

/// Handle tag under which the engine exposes a CRYPTO frame's data.
pub const CRYPTO_DATA_TAG: u64 = 1;

/// Handle tag under which the engine exposes a STREAM frame's data.
pub const STREAM_DATA_TAG: u64 = 2;

/// Handle tag under which the engine exposes a DATAGRAM frame's data.
pub const DATAGRAM_DATA_TAG: u64 = 3;

/// Handle tag under which the engine exposes a NEW_TOKEN frame's token.
pub const TOKEN_TAG: u64 = 4;

/// Handle tag under which the engine exposes a NEW_CONNECTION_ID frame's connection ID.
pub const CONNECTION_ID_TAG: u64 = 5;

/// Handle tag under which the engine exposes a NEW_CONNECTION_ID frame's reset token.
pub const RESET_TOKEN_TAG: u64 = 6;

/// Handle tag under which the engine exposes a CONNECTION_CLOSE frame's reason phrase.
pub const REASON_PHRASE_TAG: u64 = 7;

/// A frame as the engine holds it. The `*Header` variants carry the framing
/// metadata of a payload that the engine keeps elsewhere.
#[derive(Clone, Debug, PartialEq, Eq)]
pub enum Frame {
    Padding { len: usize },
    Ping,
    ACK { ack_delay: u64, ranges: Vec<Range>, ecn_counts: Option<EcnCount> },
    ResetStream { stream_id: u64, error_code: u64, final_size: u64 },
    StopSending { stream_id: u64, error_code: u64 },
    Crypto { offset: u64, data: Vec<u8> },
    CryptoHeader { offset: u64, length: usize },
    NewToken { token: Vec<u8> },
    Stream { stream_id: u64, offset: u64, data: Vec<u8>, fin: bool },
    StreamHeader { stream_id: u64, offset: u64, length: usize, fin: bool },
    MaxData { max: u64 },
    MaxStreamData { stream_id: u64, max: u64 },
    MaxStreamsBidi { max: u64 },
    MaxStreamsUni { max: u64 },
    DataBlocked { limit: u64 },
    StreamDataBlocked { stream_id: u64, limit: u64 },
    StreamsBlockedBidi { limit: u64 },
    StreamsBlockedUni { limit: u64 },
    NewConnectionId {
        seq_num: u64,
        retire_prior_to: u64,
        conn_id: Vec<u8>,
        reset_token: [u8; 16],
    },
    RetireConnectionId { seq_num: u64 },
    PathChallenge { data: [u8; 8] },
    PathResponse { data: [u8; 8] },
    ConnectionClose { error_code: u64, frame_type: u64, reason: Vec<u8> },
    ApplicationClose { error_code: u64, reason: Vec<u8> },
    HandshakeDone,
    Datagram { data: Vec<u8> },
    DatagramHeader { length: usize },
    Extension { ty: u64, tag: u64 },
}

impl Frame {
    /// An ACK frame acknowledges at least one well-formed range; a connection
    /// ID fits the protocol's limit.
    pub open spec fn wf(&self) -> bool {
        match self {
            Frame::ACK { ranges, .. } => ranges@.len() > 0 && ranges_wf(ranges@),
            Frame::NewConnectionId { conn_id, .. } => conn_id@.len() <= MAX_CONN_ID_LEN,
            _ => true,
        }
    }

    /// Whether the frame is well formed, as `wf` states it.
    pub fn is_wf(&self) -> (r: bool)
        ensures
            r == self.wf(),
    {
        match self {
            Frame::ACK { ranges, .. } => ranges_are_wf(ranges),
            Frame::NewConnectionId { conn_id, .. } => conn_id.len() <= MAX_CONN_ID_LEN,
            _ => true,
        }
    }
}

/// Whether `ranges` is non-empty and well formed.
pub fn ranges_are_wf(ranges: &Vec<Range>) -> (r: bool)
    ensures
        r == (ranges@.len() > 0 && ranges_wf(ranges@)),
{
    let n = ranges.len();
    if n == 0 {
        return false;
    }
    let mut i: usize = 0;
    while i < n
        invariant
            n == ranges@.len(),
            i <= n,
            forall|j: int| 0 <= j < i ==> (#[trigger] ranges@[j]).start < ranges@[j].end,
            forall|j: int|
                0 <= j < i && j < n - 1 ==> (#[trigger] ranges@[j]).end < ranges@[j + 1].start,
        decreases n - i,
    {
        let cur = ranges[i];
        if cur.start >= cur.end {
            return false;
        }
        if i + 1 < n && cur.end >= ranges[i + 1].start {
            return false;
        }
        i = i + 1;
    }
    true
}

} // verus!
