//! Conversion of frames between the engine's representation and the one
//! plugins see.
use vstd::prelude::*;

use crate::ack::{
    ack_decodable, ack_delta_encode, ack_pairs, ack_reconstruct, decoded_ranges,
    first_ack_range, largest_acknowledged, lemma_ack_round_trip,
};
use crate::frame::{
    Frame, CONNECTION_ID_TAG, CRYPTO_DATA_TAG, DATAGRAM_DATA_TAG, REASON_PHRASE_TAG,
    RESET_TOKEN_LEN, RESET_TOKEN_TAG, STREAM_DATA_TAG, TOKEN_TAG,
};
use crate::value::{read_only, read_only_handle, FrameKind, Header, PluginValue, QuicFrame};

verus! {

/// Why a plugin value could not be turned into an engine frame.
#[derive(Debug, Clone, Copy, PartialEq, Eq, Structural)]
pub enum TryFromCoreQuicheError {
    /// The value is not a frame.
    WrongValueKind,
    /// The frame's metadata has no engine representation (a stream frame
    /// without a length, a length beyond `usize`).
    BadFrame,
    /// The engine cannot rebuild a frame of this kind from its metadata.
    UnsupportedFrame(FrameKind),
    /// The ACK ranges do not describe packet numbers that fit a `u64`, or
    /// their count disagrees with the declared one.
    MalformedAckRanges,
}

/// The integer whose big-endian bytes are `b`.
pub open spec fn be_u64(b: [u8; 8]) -> u64 {
    (b@[0] as u64) << 56u64 | (b@[1] as u64) << 48u64 | (b@[2] as u64) << 40u64 | (b@[3] as u64)
        << 32u64 | (b@[4] as u64) << 24u64 | (b@[5] as u64) << 16u64 | (b@[6] as u64) << 8u64 | (
    b@[7] as u64)
}

/// The big-endian bytes of `x`.
pub open spec fn be_bytes(x: u64) -> Seq<u8> {
    seq![
        (x >> 56u64) as u8,
        (x >> 48u64) as u8,
        (x >> 40u64) as u8,
        (x >> 32u64) as u8,
        (x >> 24u64) as u8,
        (x >> 16u64) as u8,
        (x >> 8u64) as u8,
        x as u8,
    ]
}

/// Reads eight bytes as a big-endian integer.
pub fn u64_from_be_bytes(b: [u8; 8]) -> (r: u64)
    ensures
        r == be_u64(b),
{
    (b[0] as u64) << 56u64 | (b[1] as u64) << 48u64 | (b[2] as u64) << 40u64 | (b[3] as u64)
        << 32u64 | (b[4] as u64) << 24u64 | (b[5] as u64) << 16u64 | (b[6] as u64) << 8u64 | (
    b[7] as u64)
}

/// Writes an integer as eight big-endian bytes.
pub fn u64_to_be_bytes(x: u64) -> (r: [u8; 8])
    ensures
        r@ == be_bytes(x),
{
    let r = [
        (x >> 56u64) as u8,
        (x >> 48u64) as u8,
        (x >> 40u64) as u8,
        (x >> 32u64) as u8,
        (x >> 24u64) as u8,
        (x >> 16u64) as u8,
        (x >> 8u64) as u8,
        x as u8,
    ];
    assert(r@ =~= be_bytes(x));
    r
}

/// Reading the big-endian bytes of an array back gives the array.
pub proof fn lemma_be_bytes_round_trip(b: [u8; 8])
    ensures
        be_bytes(be_u64(b)) == b@,
{
    let (b0, b1, b2, b3, b4, b5, b6, b7) = (b@[0], b@[1], b@[2], b@[3], b@[4], b@[5], b@[6], b@[7]);
    let x = be_u64(b);
    assert(x == (b0 as u64) << 56u64 | (b1 as u64) << 48u64 | (b2 as u64) << 40u64 | (b3 as u64)
        << 32u64 | (b4 as u64) << 24u64 | (b5 as u64) << 16u64 | (b6 as u64) << 8u64 | (b7 as u64));
    assert((x >> 56u64) as u8 == b0 && (x >> 48u64) as u8 == b1 && (x >> 40u64) as u8 == b2 && (x
        >> 32u64) as u8 == b3 && (x >> 24u64) as u8 == b4 && (x >> 16u64) as u8 == b5 && (x
        >> 8u64) as u8 == b6 && x as u8 == b7) by (bit_vector)
        requires
            x == (b0 as u64) << 56u64 | (b1 as u64) << 48u64 | (b2 as u64) << 40u64 | (b3 as u64)
                << 32u64 | (b4 as u64) << 24u64 | (b5 as u64) << 16u64 | (b6 as u64) << 8u64 | (
            b7 as u64),
    ;
    assert(be_bytes(x) =~= b@);
}

/// What `f` looks like to plugins.
pub open spec fn encodes_frame(f: Frame, q: QuicFrame) -> bool {
    match f {
        Frame::Padding { len } => q == QuicFrame::Padding { length: len as u64 },
        Frame::Ping => q == QuicFrame::Ping,
        Frame::ACK { ack_delay, ranges, ecn_counts } => q matches QuicFrame::ACK {
            largest_acknowledged: l,
            ack_delay: d,
            ack_range_count: c,
            first_ack_range: fr,
            ack_ranges: p,
            ecn_counts: e,
        } && l == largest_acknowledged(ranges@) && d == ack_delay && c == ranges@.len() - 1 && fr
            == first_ack_range(ranges@) && p@ == ack_pairs(ranges@) && e == ecn_counts,
        Frame::ResetStream { stream_id, error_code, final_size } => q == QuicFrame::ResetStream {
            stream_id,
            application_protocol_error_code: error_code,
            final_size,
        },
        Frame::StopSending { stream_id, error_code } => q == QuicFrame::StopSending {
            stream_id,
            application_protocol_error_code: error_code,
        },
        Frame::Crypto { offset, data } => q == QuicFrame::Crypto {
            offset,
            length: data.len() as u64,
            crypto_data: read_only(CRYPTO_DATA_TAG, data.len() as int),
        },
        Frame::CryptoHeader { offset, length } => q == QuicFrame::Crypto {
            offset,
            length: length as u64,
            crypto_data: read_only(CRYPTO_DATA_TAG, length as int),
        },
        Frame::NewToken { token } => q == QuicFrame::NewToken {
            token_length: token.len() as u64,
            token: read_only(TOKEN_TAG, token.len() as int),
        },
        Frame::Stream { stream_id, offset, data, fin } => q == QuicFrame::Stream {
            stream_id,
            offset: Some(offset),
            length: Some(data.len() as u64),
            fin,
            stream_data: read_only(STREAM_DATA_TAG, data.len() as int),
        },
        Frame::StreamHeader { stream_id, offset, length, fin } => q == QuicFrame::Stream {
            stream_id,
            offset: Some(offset),
            length: Some(length as u64),
            fin,
            stream_data: read_only(STREAM_DATA_TAG, length as int),
        },
        Frame::MaxData { max } => q == QuicFrame::MaxData { maximum_data: max },
        Frame::MaxStreamData { stream_id, max } => q == QuicFrame::MaxStreamData {
            stream_id,
            maximum_stream_data: max,
        },
        Frame::MaxStreamsBidi { max } => q == QuicFrame::MaxStreams {
            unidirectional: false,
            maximum_streams: max,
        },
        Frame::MaxStreamsUni { max } => q == QuicFrame::MaxStreams {
            unidirectional: true,
            maximum_streams: max,
        },
        Frame::DataBlocked { limit } => q == QuicFrame::DataBlocked { maximum_data: limit },
        Frame::StreamDataBlocked { stream_id, limit } => q == QuicFrame::StreamDataBlocked {
            stream_id,
            maximum_stream_data: limit,
        },
        Frame::StreamsBlockedBidi { limit } => q == QuicFrame::StreamsBlocked {
            unidirectional: false,
            maximum_streams: limit,
        },
        Frame::StreamsBlockedUni { limit } => q == QuicFrame::StreamsBlocked {
            unidirectional: true,
            maximum_streams: limit,
        },
        Frame::NewConnectionId { seq_num, retire_prior_to, conn_id, .. } => q
            == QuicFrame::NewConnectionId {
            sequence_number: seq_num,
            retire_prior_to,
            length: conn_id.len() as u8,
            connection_id: read_only(CONNECTION_ID_TAG, conn_id.len() as int),
            stateless_reset_token: read_only(RESET_TOKEN_TAG, RESET_TOKEN_LEN as int),
        },
        Frame::RetireConnectionId { seq_num } => q == QuicFrame::RetireConnectionId {
            sequence_number: seq_num,
        },
        Frame::PathChallenge { data } => q == QuicFrame::PathChallenge { data: be_u64(data) },
        Frame::PathResponse { data } => q == QuicFrame::PathResponse { data: be_u64(data) },
        Frame::ConnectionClose { error_code, frame_type, reason } => q
            == QuicFrame::ConnectionClose {
            error_code,
            frame_type: Some(frame_type),
            reason_phrase_length: reason.len() as u64,
            reason_phrase: read_only(REASON_PHRASE_TAG, reason.len() as int),
        },
        Frame::ApplicationClose { error_code, reason } => q == QuicFrame::ConnectionClose {
            error_code,
            frame_type: None,
            reason_phrase_length: reason.len() as u64,
            reason_phrase: read_only(REASON_PHRASE_TAG, reason.len() as int),
        },
        Frame::HandshakeDone => q == QuicFrame::HandshakeDone,
        Frame::Datagram { data } => q == QuicFrame::Datagram {
            length: data.len() as u64,
            datagram_data: read_only(DATAGRAM_DATA_TAG, data.len() as int),
        },
        Frame::DatagramHeader { length } => q == QuicFrame::Datagram {
            length: length as u64,
            datagram_data: read_only(DATAGRAM_DATA_TAG, length as int),
        },
        Frame::Extension { ty, tag } => q == QuicFrame::Extension { frame_type: ty, tag },
    }
}

/// Turns an engine frame into the value plugins see. Payloads become
/// read-only handles; ACK ranges are delta-encoded from the highest down.
pub fn encode_frame(f: Frame) -> (v: PluginValue)
    requires
        f.wf(),
    ensures
        v matches PluginValue::Frame(q) && encodes_frame(f, q),
{
    let q = match f {
        Frame::Padding { len } => QuicFrame::Padding { length: len as u64 },
        Frame::Ping => QuicFrame::Ping,
        Frame::ACK { ack_delay, ranges, ecn_counts } => {
            let (largest_acknowledged, first_ack_range, ack_ranges) = ack_delta_encode(&ranges);
            QuicFrame::ACK {
                largest_acknowledged,
                ack_delay,
                ack_range_count: (ranges.len() - 1) as u64,
                first_ack_range,
                ack_ranges,
                ecn_counts,
            }
        },
        Frame::ResetStream { stream_id, error_code, final_size } => QuicFrame::ResetStream {
            stream_id,
            application_protocol_error_code: error_code,
            final_size,
        },
        Frame::StopSending { stream_id, error_code } => QuicFrame::StopSending {
            stream_id,
            application_protocol_error_code: error_code,
        },
        Frame::Crypto { offset, data } => QuicFrame::Crypto {
            offset,
            length: data.len() as u64,
            crypto_data: read_only_handle(CRYPTO_DATA_TAG, data.len() as u64),
        },
        Frame::CryptoHeader { offset, length } => QuicFrame::Crypto {
            offset,
            length: length as u64,
            crypto_data: read_only_handle(CRYPTO_DATA_TAG, length as u64),
        },
        Frame::NewToken { token } => QuicFrame::NewToken {
            token_length: token.len() as u64,
            token: read_only_handle(TOKEN_TAG, token.len() as u64),
        },
        Frame::Stream { stream_id, offset, data, fin } => QuicFrame::Stream {
            stream_id,
            offset: Some(offset),
            length: Some(data.len() as u64),
            fin,
            stream_data: read_only_handle(STREAM_DATA_TAG, data.len() as u64),
        },
        Frame::StreamHeader { stream_id, offset, length, fin } => QuicFrame::Stream {
            stream_id,
            offset: Some(offset),
            length: Some(length as u64),
            fin,
            stream_data: read_only_handle(STREAM_DATA_TAG, length as u64),
        },
        Frame::MaxData { max } => QuicFrame::MaxData { maximum_data: max },
        Frame::MaxStreamData { stream_id, max } => QuicFrame::MaxStreamData {
            stream_id,
            maximum_stream_data: max,
        },
        Frame::MaxStreamsBidi { max } => QuicFrame::MaxStreams {
            unidirectional: false,
            maximum_streams: max,
        },
        Frame::MaxStreamsUni { max } => QuicFrame::MaxStreams {
            unidirectional: true,
            maximum_streams: max,
        },
        Frame::DataBlocked { limit } => QuicFrame::DataBlocked { maximum_data: limit },
        Frame::StreamDataBlocked { stream_id, limit } => QuicFrame::StreamDataBlocked {
            stream_id,
            maximum_stream_data: limit,
        },
        Frame::StreamsBlockedBidi { limit } => QuicFrame::StreamsBlocked {
            unidirectional: false,
            maximum_streams: limit,
        },
        Frame::StreamsBlockedUni { limit } => QuicFrame::StreamsBlocked {
            unidirectional: true,
            maximum_streams: limit,
        },
        Frame::NewConnectionId { seq_num, retire_prior_to, conn_id, .. } =>
            QuicFrame::NewConnectionId {
            sequence_number: seq_num,
            retire_prior_to,
            length: conn_id.len() as u8,
            connection_id: read_only_handle(CONNECTION_ID_TAG, conn_id.len() as u64),
            stateless_reset_token: read_only_handle(RESET_TOKEN_TAG, RESET_TOKEN_LEN),
        },
        Frame::RetireConnectionId { seq_num } => QuicFrame::RetireConnectionId {
            sequence_number: seq_num,
        },
        Frame::PathChallenge { data } => QuicFrame::PathChallenge { data: u64_from_be_bytes(data) },
        Frame::PathResponse { data } => QuicFrame::PathResponse { data: u64_from_be_bytes(data) },
        Frame::ConnectionClose { error_code, frame_type, reason } => QuicFrame::ConnectionClose {
            error_code,
            frame_type: Some(frame_type),
            reason_phrase_length: reason.len() as u64,
            reason_phrase: read_only_handle(REASON_PHRASE_TAG, reason.len() as u64),
        },
        Frame::ApplicationClose { error_code, reason } => QuicFrame::ConnectionClose {
            error_code,
            frame_type: None,
            reason_phrase_length: reason.len() as u64,
            reason_phrase: read_only_handle(REASON_PHRASE_TAG, reason.len() as u64),
        },
        Frame::HandshakeDone => QuicFrame::HandshakeDone,
        Frame::Datagram { data } => QuicFrame::Datagram {
            length: data.len() as u64,
            datagram_data: read_only_handle(DATAGRAM_DATA_TAG, data.len() as u64),
        },
        Frame::DatagramHeader { length } => QuicFrame::Datagram {
            length: length as u64,
            datagram_data: read_only_handle(DATAGRAM_DATA_TAG, length as u64),
        },
        Frame::Extension { ty, tag } => QuicFrame::Extension { frame_type: ty, tag },
    };
    PluginValue::Frame(q)
}

/// What decoding `q` gives.
pub open spec fn decodes_frame(q: QuicFrame, r: Result<Frame, TryFromCoreQuicheError>) -> bool {
    match q {
        QuicFrame::Padding { length } => if length <= usize::MAX {
            r == Ok::<Frame, TryFromCoreQuicheError>(Frame::Padding { len: length as usize })
        } else {
            r == Err::<Frame, TryFromCoreQuicheError>(TryFromCoreQuicheError::BadFrame)
        },
        QuicFrame::Ping => r == Ok::<Frame, TryFromCoreQuicheError>(Frame::Ping),
        QuicFrame::ACK {
            largest_acknowledged,
            ack_delay,
            ack_range_count,
            first_ack_range,
            ack_ranges,
            ecn_counts,
        } => if ack_range_count == ack_ranges@.len() && ack_decodable(
            largest_acknowledged,
            first_ack_range,
            ack_ranges@,
        ) {
            r matches Ok(Frame::ACK { ack_delay: d, ranges, ecn_counts: e }) && d == ack_delay && e
                == ecn_counts && ranges@ == decoded_ranges(
                largest_acknowledged,
                first_ack_range,
                ack_ranges@,
            )
        } else {
            r == Err::<Frame, TryFromCoreQuicheError>(TryFromCoreQuicheError::MalformedAckRanges)
        },
        QuicFrame::ResetStream { stream_id, application_protocol_error_code, final_size } => r
            == Ok::<Frame, TryFromCoreQuicheError>(
            Frame::ResetStream { stream_id, error_code: application_protocol_error_code, final_size },
        ),
        QuicFrame::StopSending { stream_id, application_protocol_error_code } => r == Ok::<
            Frame,
            TryFromCoreQuicheError,
        >(Frame::StopSending { stream_id, error_code: application_protocol_error_code }),
        QuicFrame::Crypto { offset, length, .. } => if length <= usize::MAX {
            r == Ok::<Frame, TryFromCoreQuicheError>(
                Frame::CryptoHeader { offset, length: length as usize },
            )
        } else {
            r == Err::<Frame, TryFromCoreQuicheError>(TryFromCoreQuicheError::BadFrame)
        },
        QuicFrame::NewToken { .. } => r == Err::<Frame, TryFromCoreQuicheError>(
            TryFromCoreQuicheError::UnsupportedFrame(FrameKind::NewToken),
        ),
        QuicFrame::Stream { stream_id, offset, length, fin, .. } => if length is Some && length->0
            <= usize::MAX {
            r == Ok::<Frame, TryFromCoreQuicheError>(
                Frame::StreamHeader {
                    stream_id,
                    offset: match offset {
                        Some(o) => o,
                        None => 0,
                    },
                    length: length->0 as usize,
                    fin,
                },
            )
        } else {
            r == Err::<Frame, TryFromCoreQuicheError>(TryFromCoreQuicheError::BadFrame)
        },
        QuicFrame::MaxData { maximum_data } => r == Ok::<Frame, TryFromCoreQuicheError>(
            Frame::MaxData { max: maximum_data },
        ),
        QuicFrame::MaxStreamData { stream_id, maximum_stream_data } => r == Ok::<
            Frame,
            TryFromCoreQuicheError,
        >(Frame::MaxStreamData { stream_id, max: maximum_stream_data }),
        QuicFrame::MaxStreams { unidirectional, maximum_streams } => if unidirectional {
            r == Ok::<Frame, TryFromCoreQuicheError>(Frame::MaxStreamsUni { max: maximum_streams })
        } else {
            r == Ok::<Frame, TryFromCoreQuicheError>(Frame::MaxStreamsBidi { max: maximum_streams })
        },
        QuicFrame::DataBlocked { maximum_data } => r == Ok::<Frame, TryFromCoreQuicheError>(
            Frame::DataBlocked { limit: maximum_data },
        ),
        QuicFrame::StreamDataBlocked { stream_id, maximum_stream_data } => r == Ok::<
            Frame,
            TryFromCoreQuicheError,
        >(Frame::StreamDataBlocked { stream_id, limit: maximum_stream_data }),
        QuicFrame::StreamsBlocked { unidirectional, maximum_streams } => if unidirectional {
            r == Ok::<Frame, TryFromCoreQuicheError>(
                Frame::StreamsBlockedUni { limit: maximum_streams },
            )
        } else {
            r == Ok::<Frame, TryFromCoreQuicheError>(
                Frame::StreamsBlockedBidi { limit: maximum_streams },
            )
        },
        QuicFrame::NewConnectionId { .. } => r == Err::<Frame, TryFromCoreQuicheError>(
            TryFromCoreQuicheError::UnsupportedFrame(FrameKind::NewConnectionId),
        ),
        QuicFrame::RetireConnectionId { sequence_number } => r == Ok::<
            Frame,
            TryFromCoreQuicheError,
        >(Frame::RetireConnectionId { seq_num: sequence_number }),
        QuicFrame::PathChallenge { data } => r matches Ok(Frame::PathChallenge { data: d }) && d@
            == be_bytes(data),
        QuicFrame::PathResponse { data } => r matches Ok(Frame::PathResponse { data: d }) && d@
            == be_bytes(data),
        QuicFrame::ConnectionClose { error_code, frame_type, reason_phrase_length, .. } =>
            if reason_phrase_length != 0 {
            r == Err::<Frame, TryFromCoreQuicheError>(
                TryFromCoreQuicheError::UnsupportedFrame(FrameKind::ConnectionClose),
            )
        } else {
            match frame_type {
                Some(t) => r matches Ok(
                    Frame::ConnectionClose { error_code: e, frame_type: ft, reason },
                )
                    && e == error_code && ft == t && reason@.len() == 0,
                None => r matches Ok(Frame::ApplicationClose { error_code: e, reason }) && e
                    == error_code && reason@.len() == 0,
            }
        },
        QuicFrame::HandshakeDone => r == Ok::<Frame, TryFromCoreQuicheError>(Frame::HandshakeDone),
        QuicFrame::Datagram { length, .. } => if length <= usize::MAX {
            r == Ok::<Frame, TryFromCoreQuicheError>(
                Frame::DatagramHeader { length: length as usize },
            )
        } else {
            r == Err::<Frame, TryFromCoreQuicheError>(TryFromCoreQuicheError::BadFrame)
        },
        QuicFrame::Extension { frame_type, tag } => r == Ok::<Frame, TryFromCoreQuicheError>(
            Frame::Extension { ty: frame_type, tag },
        ),
    }
}

/// What decoding the plugin value `v` as a frame gives.
pub open spec fn decodes_value(v: PluginValue, r: Result<Frame, TryFromCoreQuicheError>) -> bool {
    match v {
        PluginValue::Frame(q) => decodes_frame(q, r),
        _ => r == Err::<Frame, TryFromCoreQuicheError>(TryFromCoreQuicheError::WrongValueKind),
    }
}

fn length_to_usize(length: u64) -> (r: Result<usize, TryFromCoreQuicheError>)
    ensures
        length <= usize::MAX ==> r == Ok::<usize, TryFromCoreQuicheError>(length as usize),
        length > usize::MAX ==> r == Err::<usize, TryFromCoreQuicheError>(
            TryFromCoreQuicheError::BadFrame,
        ),
{
    if length <= usize::MAX as u64 {
        Ok(length as usize)
    } else {
        Err(TryFromCoreQuicheError::BadFrame)
    }
}

/// Turns a plugin value back into an engine frame. Payload-carrying frames
/// come back as their `*Header` variant, since the value holds only a handle
/// on the payload.
pub fn decode_frame(v: PluginValue) -> (r: Result<Frame, TryFromCoreQuicheError>)
    ensures
        decodes_value(v, r),
        r matches Ok(f) ==> f.wf(),
{
    let q = match v {
        PluginValue::Frame(q) => q,
        _ => return Err(TryFromCoreQuicheError::WrongValueKind),
    };
    let f = match q {
        QuicFrame::Padding { length } => Frame::Padding { len: length_to_usize(length)? },
        QuicFrame::Ping => Frame::Ping,
        QuicFrame::ACK {
            largest_acknowledged,
            ack_delay,
            ack_range_count,
            first_ack_range,
            ack_ranges,
            ecn_counts,
        } => {
            if ack_range_count != ack_ranges.len() as u64 {
                return Err(TryFromCoreQuicheError::MalformedAckRanges);
            }
            match ack_reconstruct(largest_acknowledged, first_ack_range, &ack_ranges) {
                Some(ranges) => {
                    proof {
                        crate::ack::lemma_decoded_wf(
                            largest_acknowledged,
                            first_ack_range,
                            ack_ranges@,
                        );
                    }
                    Frame::ACK { ack_delay, ranges, ecn_counts }
                },
                None => return Err(TryFromCoreQuicheError::MalformedAckRanges),
            }
        },
        QuicFrame::ResetStream { stream_id, application_protocol_error_code, final_size } =>
            Frame::ResetStream { stream_id, error_code: application_protocol_error_code, final_size },
        QuicFrame::StopSending { stream_id, application_protocol_error_code } =>
            Frame::StopSending { stream_id, error_code: application_protocol_error_code },
        QuicFrame::Crypto { offset, length, .. } => Frame::CryptoHeader {
            offset,
            length: length_to_usize(length)?,
        },
        QuicFrame::NewToken { .. } => {
            return Err(TryFromCoreQuicheError::UnsupportedFrame(FrameKind::NewToken));
        },
        QuicFrame::Stream { stream_id, offset, length, fin, .. } => {
            let length = match length {
                Some(l) => length_to_usize(l)?,
                None => return Err(TryFromCoreQuicheError::BadFrame),
            };
            let offset = match offset {
                Some(o) => o,
                None => 0,
            };
            Frame::StreamHeader { stream_id, offset, length, fin }
        },
        QuicFrame::MaxData { maximum_data } => Frame::MaxData { max: maximum_data },
        QuicFrame::MaxStreamData { stream_id, maximum_stream_data } => Frame::MaxStreamData {
            stream_id,
            max: maximum_stream_data,
        },
        QuicFrame::MaxStreams { unidirectional, maximum_streams } => if unidirectional {
            Frame::MaxStreamsUni { max: maximum_streams }
        } else {
            Frame::MaxStreamsBidi { max: maximum_streams }
        },
        QuicFrame::DataBlocked { maximum_data } => Frame::DataBlocked { limit: maximum_data },
        QuicFrame::StreamDataBlocked { stream_id, maximum_stream_data } =>
            Frame::StreamDataBlocked { stream_id, limit: maximum_stream_data },
        QuicFrame::StreamsBlocked { unidirectional, maximum_streams } => if unidirectional {
            Frame::StreamsBlockedUni { limit: maximum_streams }
        } else {
            Frame::StreamsBlockedBidi { limit: maximum_streams }
        },
        QuicFrame::NewConnectionId { .. } => {
            return Err(TryFromCoreQuicheError::UnsupportedFrame(FrameKind::NewConnectionId));
        },
        QuicFrame::RetireConnectionId { sequence_number } => Frame::RetireConnectionId {
            seq_num: sequence_number,
        },
        QuicFrame::PathChallenge { data } => Frame::PathChallenge { data: u64_to_be_bytes(data) },
        QuicFrame::PathResponse { data } => Frame::PathResponse { data: u64_to_be_bytes(data) },
        QuicFrame::ConnectionClose { error_code, frame_type, reason_phrase_length, .. } => {
            if reason_phrase_length != 0 {
                return Err(TryFromCoreQuicheError::UnsupportedFrame(FrameKind::ConnectionClose));
            }
            match frame_type {
                Some(frame_type) => Frame::ConnectionClose {
                    error_code,
                    frame_type,
                    reason: Vec::new(),
                },
                None => Frame::ApplicationClose { error_code, reason: Vec::new() },
            }
        },
        QuicFrame::HandshakeDone => Frame::HandshakeDone,
        QuicFrame::Datagram { length, .. } => Frame::DatagramHeader {
            length: length_to_usize(length)?,
        },
        QuicFrame::Extension { frame_type, tag } => Frame::Extension { ty: frame_type, tag },
    };
    Ok(f)
}

/// What decoding the plugin view of `f` must give back: `f` itself, but for
/// frames whose payload plugins only see through a handle. Those come back as
/// their `*Header` variant (or, where the engine has no such variant and the
/// payload is not empty, as an unsupported frame).
pub open spec fn round_trip_result(f: Frame, r: Result<Frame, TryFromCoreQuicheError>) -> bool {
    match f {
        Frame::ACK { ack_delay, ranges, ecn_counts } => r matches Ok(
            Frame::ACK { ack_delay: d, ranges: rs, ecn_counts: e },
        ) && d == ack_delay && rs@ == ranges@ && e == ecn_counts,
        Frame::Crypto { offset, data } => r == Ok::<Frame, TryFromCoreQuicheError>(
            Frame::CryptoHeader { offset, length: data.len() },
        ),
        Frame::Stream { stream_id, offset, data, fin } => r == Ok::<Frame, TryFromCoreQuicheError>(
            Frame::StreamHeader { stream_id, offset, length: data.len(), fin },
        ),
        Frame::Datagram { data } => r == Ok::<Frame, TryFromCoreQuicheError>(
            Frame::DatagramHeader { length: data.len() },
        ),
        Frame::NewToken { .. } => r == Err::<Frame, TryFromCoreQuicheError>(
            TryFromCoreQuicheError::UnsupportedFrame(FrameKind::NewToken),
        ),
        Frame::NewConnectionId { .. } => r == Err::<Frame, TryFromCoreQuicheError>(
            TryFromCoreQuicheError::UnsupportedFrame(FrameKind::NewConnectionId),
        ),
        Frame::ConnectionClose { error_code, frame_type, reason } => if reason@.len() == 0 {
            r matches Ok(Frame::ConnectionClose { error_code: e, frame_type: t, reason: rs }) && e
                == error_code && t == frame_type && rs@ == reason@
        } else {
            r == Err::<Frame, TryFromCoreQuicheError>(
                TryFromCoreQuicheError::UnsupportedFrame(FrameKind::ConnectionClose),
            )
        },
        Frame::ApplicationClose { error_code, reason } => if reason@.len() == 0 {
            r matches Ok(Frame::ApplicationClose { error_code: e, reason: rs }) && e == error_code
                && rs@ == reason@
        } else {
            r == Err::<Frame, TryFromCoreQuicheError>(
                TryFromCoreQuicheError::UnsupportedFrame(FrameKind::ConnectionClose),
            )
        },
        _ => r == Ok::<Frame, TryFromCoreQuicheError>(f),
    }
}

/// Decoding what encoding a well-formed frame gives returns the frame, up to
/// the payloads that plugins see only through handles.
pub proof fn lemma_frame_round_trip(f: Frame, q: QuicFrame, r: Result<Frame, TryFromCoreQuicheError>)
    requires
        f.wf(),
        encodes_frame(f, q),
        decodes_frame(q, r),
    ensures
        round_trip_result(f, r),
{
    match f {
        Frame::ACK { ranges, .. } => {
            lemma_ack_round_trip(ranges@);
            let l = q->ACK_largest_acknowledged;
            let fr = q->ACK_first_ack_range;
            let p = q->ACK_ack_ranges;
            assert(ranges@[ranges@.len() - 1].start < ranges@[ranges@.len() - 1].end);
            assert(l == largest_acknowledged(ranges@) as u64);
            assert(fr == first_ack_range(ranges@) as u64);
        },
        Frame::PathChallenge { data } => {
            lemma_be_bytes_round_trip(data);
            let d = r->Ok_0->PathChallenge_data;
            assert(d@ =~= data@);
            assert(d == data);
        },
        Frame::PathResponse { data } => {
            lemma_be_bytes_round_trip(data);
            let d = r->Ok_0->PathResponse_data;
            assert(d@ =~= data@);
            assert(d == data);
        },
        Frame::ConnectionClose { reason, .. } => {
            if reason@.len() == 0 {
                let rs = r->Ok_0->ConnectionClose_reason;
                assert(rs@ =~= reason@);
            }
        },
        Frame::ApplicationClose { reason, .. } => {
            if reason@.len() == 0 {
                let rs = r->Ok_0->ApplicationClose_reason;
                assert(rs@ =~= reason@);
            }
        },
        _ => {},
    }
}

/// The `*Header` variant standing for a payload-carrying frame; other frames
/// stand for themselves.
pub open spec fn metadata_variant(f: Frame) -> Frame {
    match f {
        Frame::Crypto { offset, data } => Frame::CryptoHeader { offset, length: data.len() },
        Frame::Stream { stream_id, offset, data, fin } => Frame::StreamHeader {
            stream_id,
            offset,
            length: data.len(),
            fin,
        },
        Frame::Datagram { data } => Frame::DatagramHeader { length: data.len() },
        _ => f,
    }
}

/// A payload-carrying frame and its `*Header` variant look the same to plugins.
pub proof fn lemma_metadata_variant_encodes_alike(f: Frame, q: QuicFrame)
    requires
        encodes_frame(f, q),
    ensures
        encodes_frame(metadata_variant(f), q),
{
}

/// A header value is never decoded as a frame.
pub proof fn lemma_header_is_not_a_frame(h: Header, r: Result<Frame, TryFromCoreQuicheError>)
    requires
        decodes_value(PluginValue::Header(h), r),
    ensures
        r == Err::<Frame, TryFromCoreQuicheError>(TryFromCoreQuicheError::WrongValueKind),
{
}

} // verus!
