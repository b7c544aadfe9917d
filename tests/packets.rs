use quiche_plugin::error::Error;
use quiche_plugin::packet::{
    encode_epoch, encode_header, encode_packet_type, Epoch, PacketHeader, Type, DCID_TAG,
    HEADER_TOKEN_TAG, SCID_TAG, SUPPORTED_VERSIONS_TAG,
};
use quiche_plugin::value::{Bytes, Header, HeaderExt, KPacketNumberSpace, PacketType, PluginValue};

fn ro(tag: u64, len: u64) -> Bytes {
    Bytes { tag, max_read_len: len, max_write_len: 0 }
}

fn header(ty: Type) -> PacketHeader {
    PacketHeader {
        ty,
        first_byte: 0xc3,
        version: 1,
        dcid: vec![1; 8],
        scid: vec![2; 5],
        pkt_num: 42,
        pkt_num_len: 2,
        token: None,
        versions: None,
        key_phase: false,
    }
}

#[test]
fn epochs_map_both_ways() {
    let pairs = [
        (Epoch::Initial, KPacketNumberSpace::Initial),
        (Epoch::Handshake, KPacketNumberSpace::Handshake),
        (Epoch::Application, KPacketNumberSpace::ApplicationData),
    ];
    for (e, s) in pairs {
        assert_eq!(encode_epoch(e), PluginValue::PacketNumberSpace(s));
        assert_eq!(Epoch::from(s), e);
    }
}

#[test]
fn packet_types_map() {
    assert_eq!(encode_packet_type(Type::Initial), PluginValue::PacketType(PacketType::Initial));
    assert_eq!(encode_packet_type(Type::Retry), PluginValue::PacketType(PacketType::Retry));
    assert_eq!(encode_packet_type(Type::Handshake), PluginValue::PacketType(PacketType::Handshake));
    assert_eq!(encode_packet_type(Type::ZeroRTT), PluginValue::PacketType(PacketType::ZeroRTT));
    assert_eq!(
        encode_packet_type(Type::VersionNegotiation),
        PluginValue::PacketType(PacketType::VersionNegotiation)
    );
    assert_eq!(encode_packet_type(Type::Short), PluginValue::PacketType(PacketType::Short));
}

#[test]
fn short_header_has_no_version_or_source_cid() {
    let mut h = header(Type::Short);
    h.first_byte = 0x41;
    h.key_phase = true;
    assert_eq!(
        encode_header(&h),
        PluginValue::Header(Header {
            first: 0x41,
            version: None,
            destination_cid: ro(DCID_TAG, 8),
            source_cid: None,
            supported_versions: None,
            ext: Some(HeaderExt {
                packet_number: Some(42),
                packet_number_len: Some(2),
                token: None,
                key_phase: Some(true),
            }),
        })
    );
}

#[test]
fn initial_header_carries_version_and_token() {
    let mut h = header(Type::Initial);
    h.token = Some(vec![0; 12]);
    assert_eq!(
        encode_header(&h),
        PluginValue::Header(Header {
            first: 0xc3,
            version: Some(1),
            destination_cid: ro(DCID_TAG, 8),
            source_cid: Some(ro(SCID_TAG, 5)),
            supported_versions: None,
            ext: Some(HeaderExt {
                packet_number: Some(42),
                packet_number_len: Some(2),
                token: Some(ro(HEADER_TOKEN_TAG, 12)),
                key_phase: Some(false),
            }),
        })
    );
}

#[test]
fn version_negotiation_header_lists_versions() {
    let mut h = header(Type::VersionNegotiation);
    h.versions = Some(vec![1, 0xff00001d, 2]);
    assert_eq!(
        encode_header(&h),
        PluginValue::Header(Header {
            first: 0xc3,
            version: Some(0),
            destination_cid: ro(DCID_TAG, 8),
            source_cid: Some(ro(SCID_TAG, 5)),
            supported_versions: Some(ro(SUPPORTED_VERSIONS_TAG, 12)),
            ext: None,
        })
    );
}

#[test]
fn retry_header_has_no_protected_payload() {
    let h = header(Type::Retry);
    match encode_header(&h) {
        PluginValue::Header(v) => {
            assert_eq!(v.ext, None);
            assert_eq!(v.version, Some(1));
        }
        other => panic!("not a header: {other:?}"),
    }
}

#[test]
fn plugin_codes_map_to_errors() {
    assert_eq!(Error::from(-1000), Error::SuspendSendingProcess);
    assert_eq!(Error::from(-1), Error::UnknownPluginError(-1));
    assert_eq!(Error::from(0), Error::UnknownPluginError(0));
}
