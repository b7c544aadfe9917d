use quiche_plugin::ack::{ack_delta_encode, ack_reconstruct, AckRange, Range};
use quiche_plugin::codec::{
    decode_frame, encode_frame, u64_from_be_bytes, u64_to_be_bytes, TryFromCoreQuicheError,
};
use quiche_plugin::frame::{
    Frame, CONNECTION_ID_TAG, CRYPTO_DATA_TAG, DATAGRAM_DATA_TAG, REASON_PHRASE_TAG,
    RESET_TOKEN_TAG, STREAM_DATA_TAG, TOKEN_TAG, ranges_are_wf,
};
use quiche_plugin::value::{Bytes, EcnCount, FrameKind, Header, PluginValue, QuicFrame};

fn r(start: u64, end: u64) -> Range {
    Range { start, end }
}

fn round_trip(f: Frame) -> Result<Frame, TryFromCoreQuicheError> {
    decode_frame(encode_frame(f))
}

fn ro(tag: u64, len: u64) -> Bytes {
    Bytes { tag, max_read_len: len, max_write_len: 0 }
}

#[test]
fn ack_ranges_encode_to_gaps_and_lengths() {
    let (largest, first, pairs) = ack_delta_encode(&vec![r(5, 8), r(10, 13)]);
    assert_eq!(largest, 12);
    assert_eq!(first, 2);
    assert_eq!(pairs, vec![AckRange { gap: 1, ack_range_length: 2 }]);
}

#[test]
fn ack_gaps_and_lengths_decode_to_ranges() {
    let pairs = vec![AckRange { gap: 1, ack_range_length: 2 }];
    assert_eq!(ack_reconstruct(12, 2, &pairs), Some(vec![r(5, 8), r(10, 13)]));
}

#[test]
fn ack_frame_encodes_and_decodes() {
    let f = Frame::ACK { ack_delay: 25, ranges: vec![r(5, 8), r(10, 13)], ecn_counts: None };
    let v = encode_frame(f.clone());
    assert_eq!(
        v,
        PluginValue::Frame(QuicFrame::ACK {
            largest_acknowledged: 12,
            ack_delay: 25,
            ack_range_count: 1,
            first_ack_range: 2,
            ack_ranges: vec![AckRange { gap: 1, ack_range_length: 2 }],
            ecn_counts: None,
        })
    );
    assert_eq!(decode_frame(v), Ok(f));
}

#[test]
fn ack_single_range_and_many_ranges_round_trip() {
    let one = vec![r(0, 1)];
    let (l, f, p) = ack_delta_encode(&one);
    assert_eq!((l, f, p.len()), (0, 0, 0));
    assert_eq!(ack_reconstruct(l, f, &p), Some(one));

    let many = vec![r(0, 3), r(4, 5), r(9, 20), r(22, 23), r(100, 1000)];
    let (l, f, p) = ack_delta_encode(&many);
    assert_eq!(l, 999);
    assert_eq!(f, 899);
    assert_eq!(
        p,
        vec![
            AckRange { gap: 76, ack_range_length: 0 },
            AckRange { gap: 1, ack_range_length: 10 },
            AckRange { gap: 3, ack_range_length: 0 },
            AckRange { gap: 0, ack_range_length: 2 },
        ]
    );
    assert_eq!(ack_reconstruct(l, f, &p), Some(many));
}

#[test]
fn ack_ranges_near_the_largest_packet_number() {
    let top = vec![r(u64::MAX - 10, u64::MAX)];
    let (l, f, p) = ack_delta_encode(&top);
    assert_eq!(l, u64::MAX - 1);
    assert_eq!(ack_reconstruct(l, f, &p), Some(top));
    assert_eq!(ack_reconstruct(u64::MAX, 0, &vec![]), None);
}

#[test]
fn ack_malformed_forms_are_rejected() {
    assert_eq!(ack_reconstruct(3, 4, &vec![]), None);
    assert_eq!(ack_reconstruct(10, 2, &vec![AckRange { gap: 7, ack_range_length: 0 }]), None);
    assert_eq!(ack_reconstruct(10, 2, &vec![AckRange { gap: 5, ack_range_length: 2 }]), None);
    assert_eq!(
        ack_reconstruct(10, 2, &vec![AckRange { gap: 6, ack_range_length: 0 }]),
        Some(vec![r(0, 1), r(8, 11)])
    );
    assert_eq!(
        ack_reconstruct(10, 2, &vec![AckRange { gap: 5, ack_range_length: 0 }]),
        Some(vec![r(1, 2), r(8, 11)])
    );
    let bad = PluginValue::Frame(QuicFrame::ACK {
        largest_acknowledged: 10,
        ack_delay: 0,
        ack_range_count: 1,
        first_ack_range: 2,
        ack_ranges: vec![AckRange { gap: 7, ack_range_length: 0 }],
        ecn_counts: None,
    });
    assert_eq!(decode_frame(bad), Err(TryFromCoreQuicheError::MalformedAckRanges));
    let miscounted = PluginValue::Frame(QuicFrame::ACK {
        largest_acknowledged: 10,
        ack_delay: 0,
        ack_range_count: 2,
        first_ack_range: 2,
        ack_ranges: vec![AckRange { gap: 1, ack_range_length: 0 }],
        ecn_counts: None,
    });
    assert_eq!(decode_frame(miscounted), Err(TryFromCoreQuicheError::MalformedAckRanges));
}

#[test]
fn ack_ecn_counts_are_kept() {
    let ecn = Some(EcnCount { ect0_count: 1, ect1_count: 2, ectce_count: 3 });
    let f = Frame::ACK { ack_delay: 0, ranges: vec![r(7, 9)], ecn_counts: ecn };
    assert_eq!(round_trip(f.clone()), Ok(f));
}

#[test]
fn path_challenge_bytes_round_trip() {
    let data = [1, 2, 3, 4, 5, 6, 7, 8];
    let v = encode_frame(Frame::PathChallenge { data });
    assert_eq!(v, PluginValue::Frame(QuicFrame::PathChallenge { data: 0x0102030405060708 }));
    assert_eq!(decode_frame(v), Ok(Frame::PathChallenge { data }));
    assert_eq!(
        round_trip(Frame::PathResponse { data }),
        Ok(Frame::PathResponse { data })
    );
}

#[test]
fn big_endian_conversions() {
    assert_eq!(u64_from_be_bytes([0, 0, 0, 0, 0, 0, 1, 2]), 258);
    assert_eq!(u64_to_be_bytes(258), [0, 0, 0, 0, 0, 0, 1, 2]);
    assert_eq!(u64_to_be_bytes(u64::MAX), [255; 8]);
}

#[test]
fn metadata_frames_round_trip_exactly() {
    let frames = vec![
        Frame::Padding { len: 17 },
        Frame::Ping,
        Frame::ResetStream { stream_id: 4, error_code: 5, final_size: 6 },
        Frame::StopSending { stream_id: 4, error_code: 9 },
        Frame::CryptoHeader { offset: 100, length: 30 },
        Frame::StreamHeader { stream_id: 8, offset: 3, length: 40, fin: true },
        Frame::MaxData { max: 1 << 40 },
        Frame::MaxStreamData { stream_id: 12, max: 77 },
        Frame::MaxStreamsBidi { max: 10 },
        Frame::MaxStreamsUni { max: 11 },
        Frame::DataBlocked { limit: 5 },
        Frame::StreamDataBlocked { stream_id: 2, limit: 6 },
        Frame::StreamsBlockedBidi { limit: 7 },
        Frame::StreamsBlockedUni { limit: 8 },
        Frame::RetireConnectionId { seq_num: 3 },
        Frame::HandshakeDone,
        Frame::DatagramHeader { length: 1200 },
        Frame::Extension { ty: 0x42, tag: 9 },
        Frame::ConnectionClose { error_code: 1, frame_type: 6, reason: vec![] },
        Frame::ApplicationClose { error_code: 2, reason: vec![] },
    ];
    for f in frames {
        assert_eq!(round_trip(f.clone()), Ok(f));
    }
}

#[test]
fn streams_blocked_keeps_direction() {
    assert_eq!(
        encode_frame(Frame::StreamsBlockedUni { limit: 8 }),
        PluginValue::Frame(QuicFrame::StreamsBlocked { unidirectional: true, maximum_streams: 8 })
    );
    assert_eq!(
        encode_frame(Frame::StreamsBlockedBidi { limit: 8 }),
        PluginValue::Frame(QuicFrame::StreamsBlocked { unidirectional: false, maximum_streams: 8 })
    );
}

#[test]
fn payload_frames_become_read_only_handles() {
    assert_eq!(
        encode_frame(Frame::Crypto { offset: 9, data: vec![1, 2, 3] }),
        PluginValue::Frame(QuicFrame::Crypto {
            offset: 9,
            length: 3,
            crypto_data: ro(CRYPTO_DATA_TAG, 3),
        })
    );
    assert_eq!(
        encode_frame(Frame::Stream { stream_id: 4, offset: 10, data: vec![0; 5], fin: false }),
        PluginValue::Frame(QuicFrame::Stream {
            stream_id: 4,
            offset: Some(10),
            length: Some(5),
            fin: false,
            stream_data: ro(STREAM_DATA_TAG, 5),
        })
    );
    assert_eq!(
        encode_frame(Frame::Datagram { data: vec![7; 4] }),
        PluginValue::Frame(QuicFrame::Datagram { length: 4, datagram_data: ro(DATAGRAM_DATA_TAG, 4) })
    );
    assert_eq!(
        encode_frame(Frame::NewToken { token: vec![1, 2] }),
        PluginValue::Frame(QuicFrame::NewToken { token_length: 2, token: ro(TOKEN_TAG, 2) })
    );
    assert_eq!(
        encode_frame(Frame::NewConnectionId {
            seq_num: 1,
            retire_prior_to: 0,
            conn_id: vec![9; 8],
            reset_token: [0; 16],
        }),
        PluginValue::Frame(QuicFrame::NewConnectionId {
            sequence_number: 1,
            retire_prior_to: 0,
            length: 8,
            connection_id: ro(CONNECTION_ID_TAG, 8),
            stateless_reset_token: ro(RESET_TOKEN_TAG, 16),
        })
    );
    assert_eq!(
        encode_frame(Frame::ApplicationClose { error_code: 3, reason: b"bye".to_vec() }),
        PluginValue::Frame(QuicFrame::ConnectionClose {
            error_code: 3,
            frame_type: None,
            reason_phrase_length: 3,
            reason_phrase: ro(REASON_PHRASE_TAG, 3),
        })
    );
}

#[test]
fn payload_frames_come_back_as_metadata() {
    assert_eq!(
        round_trip(Frame::Crypto { offset: 9, data: vec![1, 2, 3] }),
        Ok(Frame::CryptoHeader { offset: 9, length: 3 })
    );
    assert_eq!(
        round_trip(Frame::Stream { stream_id: 4, offset: 10, data: vec![0; 5], fin: true }),
        Ok(Frame::StreamHeader { stream_id: 4, offset: 10, length: 5, fin: true })
    );
    assert_eq!(
        round_trip(Frame::Datagram { data: vec![7; 4] }),
        Ok(Frame::DatagramHeader { length: 4 })
    );
}

#[test]
fn frames_without_engine_metadata_form_are_unsupported() {
    assert_eq!(
        round_trip(Frame::NewToken { token: vec![1] }),
        Err(TryFromCoreQuicheError::UnsupportedFrame(FrameKind::NewToken))
    );
    assert_eq!(
        round_trip(Frame::NewConnectionId {
            seq_num: 1,
            retire_prior_to: 0,
            conn_id: vec![1; 4],
            reset_token: [3; 16],
        }),
        Err(TryFromCoreQuicheError::UnsupportedFrame(FrameKind::NewConnectionId))
    );
    assert_eq!(
        round_trip(Frame::ConnectionClose { error_code: 1, frame_type: 0, reason: vec![65] }),
        Err(TryFromCoreQuicheError::UnsupportedFrame(FrameKind::ConnectionClose))
    );
}

#[test]
fn header_value_is_the_wrong_kind_for_a_frame() {
    let h = Header {
        first: 0x40,
        version: None,
        destination_cid: ro(8, 0),
        source_cid: None,
        supported_versions: None,
        ext: None,
    };
    assert_eq!(decode_frame(PluginValue::Header(h)), Err(TryFromCoreQuicheError::WrongValueKind));
    assert_eq!(decode_frame(PluginValue::U64(3)), Err(TryFromCoreQuicheError::WrongValueKind));
}

#[test]
fn stream_metadata_without_length_is_a_bad_frame() {
    let v = PluginValue::Frame(QuicFrame::Stream {
        stream_id: 0,
        offset: None,
        length: None,
        fin: false,
        stream_data: ro(STREAM_DATA_TAG, 0),
    });
    assert_eq!(decode_frame(v), Err(TryFromCoreQuicheError::BadFrame));
    let v = PluginValue::Frame(QuicFrame::Stream {
        stream_id: 0,
        offset: None,
        length: Some(4),
        fin: false,
        stream_data: ro(STREAM_DATA_TAG, 4),
    });
    assert_eq!(
        decode_frame(v),
        Ok(Frame::StreamHeader { stream_id: 0, offset: 0, length: 4, fin: false })
    );
}

#[test]
fn range_sequences_are_checked_for_shape() {
    assert!(ranges_are_wf(&vec![r(0, 3), r(4, 6)]));
    assert!(ranges_are_wf(&vec![r(7, 8)]));
    assert!(!ranges_are_wf(&vec![]));
    assert!(!ranges_are_wf(&vec![r(0, 3), r(3, 6)]));
    assert!(!ranges_are_wf(&vec![r(0, 5), r(4, 6)]));
    assert!(!ranges_are_wf(&vec![r(4, 6), r(0, 2)]));
    assert!(!ranges_are_wf(&vec![r(2, 2)]));
}

#[test]
fn frames_are_checked_for_shape() {
    assert!(Frame::Ping.is_wf());
    assert!(!Frame::ACK { ack_delay: 0, ranges: vec![], ecn_counts: None }.is_wf());
    let cid = |n| Frame::NewConnectionId {
        seq_num: 0,
        retire_prior_to: 0,
        conn_id: vec![0; n],
        reset_token: [0; 16],
    };
    assert!(cid(20).is_wf());
    assert!(!cid(21).is_wf());
}

#[test]
fn header_variants_look_like_their_frames() {
    assert_eq!(
        encode_frame(Frame::Crypto { offset: 9, data: vec![1, 2, 3] }),
        encode_frame(Frame::CryptoHeader { offset: 9, length: 3 })
    );
    assert_eq!(
        encode_frame(Frame::Stream { stream_id: 1, offset: 2, data: vec![5; 6], fin: true }),
        encode_frame(Frame::StreamHeader { stream_id: 1, offset: 2, length: 6, fin: true })
    );
    assert_eq!(
        encode_frame(Frame::Datagram { data: vec![5; 6] }),
        encode_frame(Frame::DatagramHeader { length: 6 })
    );
}
