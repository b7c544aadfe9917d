//! Packet-level values: packet-number spaces, packet types and headers, and
//! how plugins see them.
use vstd::prelude::*;

use crate::value::{
    read_only, read_only_handle, Header, HeaderExt, KPacketNumberSpace, PacketType, PluginValue,
};

verus! {

/// Handle tag under which the engine exposes a header's destination connection ID.
pub const DCID_TAG: u64 = 8;

/// Handle tag under which the engine exposes a header's source connection ID.
pub const SCID_TAG: u64 = 9;

/// Handle tag under which the engine exposes a version negotiation packet's version list.
pub const SUPPORTED_VERSIONS_TAG: u64 = 10;

/// Handle tag under which the engine exposes a header's token.
pub const HEADER_TOKEN_TAG: u64 = 11;

/// The engine's packet-number spaces.
#[derive(Clone, Copy, Debug, PartialEq, Eq, Structural)]
pub enum Epoch {
    Initial,
    Handshake,
    Application,
}

/// The plugin-side name of an epoch.
pub open spec fn epoch_space(e: Epoch) -> KPacketNumberSpace {
    match e {
        Epoch::Initial => KPacketNumberSpace::Initial,
        Epoch::Handshake => KPacketNumberSpace::Handshake,
        Epoch::Application => KPacketNumberSpace::ApplicationData,
    }
}

/// The epoch that a plugin-side packet-number space names.
pub open spec fn space_epoch(s: KPacketNumberSpace) -> Epoch {
    match s {
        KPacketNumberSpace::Initial => Epoch::Initial,
        KPacketNumberSpace::Handshake => Epoch::Handshake,
        KPacketNumberSpace::ApplicationData => Epoch::Application,
    }
}

impl From<KPacketNumberSpace> for Epoch {
    fn from(value: KPacketNumberSpace) -> (r: Epoch)
        ensures
            r == space_epoch(value),
    {
        match value {
            KPacketNumberSpace::Initial => Epoch::Initial,
            KPacketNumberSpace::Handshake => Epoch::Handshake,
            KPacketNumberSpace::ApplicationData => Epoch::Application,
        }
    }
}

impl vstd::std_specs::convert::FromSpecImpl<KPacketNumberSpace> for Epoch {
    open spec fn obeys_from_spec() -> bool {
        true
    }

    open spec fn from_spec(v: KPacketNumberSpace) -> Epoch {
        space_epoch(v)
    }
}

/// The value plugins see for an epoch.
pub fn encode_epoch(e: Epoch) -> (v: PluginValue)
    ensures
        v == PluginValue::PacketNumberSpace(epoch_space(e)),
{
    let s = match e {
        Epoch::Initial => KPacketNumberSpace::Initial,
        Epoch::Handshake => KPacketNumberSpace::Handshake,
        Epoch::Application => KPacketNumberSpace::ApplicationData,
    };
    PluginValue::PacketNumberSpace(s)
}

/// The two epoch mappings are inverse to each other.
pub proof fn lemma_epoch_bijective(e: Epoch, s: KPacketNumberSpace)
    ensures
        space_epoch(epoch_space(e)) == e,
        epoch_space(space_epoch(s)) == s,
{
}

/// The engine's packet types.
#[derive(Clone, Copy, Debug, PartialEq, Eq, Structural)]
pub enum Type {
    Initial,
    Retry,
    Handshake,
    ZeroRTT,
    VersionNegotiation,
    Short,
}

/// The plugin-side name of a packet type.
pub open spec fn type_kind(t: Type) -> PacketType {
    match t {
        Type::Initial => PacketType::Initial,
        Type::Retry => PacketType::Retry,
        Type::Handshake => PacketType::Handshake,
        Type::ZeroRTT => PacketType::ZeroRTT,
        Type::VersionNegotiation => PacketType::VersionNegotiation,
        Type::Short => PacketType::Short,
    }
}

/// The value plugins see for a packet type.
pub fn encode_packet_type(t: Type) -> (v: PluginValue)
    ensures
        v == PluginValue::PacketType(type_kind(t)),
{
    let k = match t {
        Type::Initial => PacketType::Initial,
        Type::Retry => PacketType::Retry,
        Type::Handshake => PacketType::Handshake,
        Type::ZeroRTT => PacketType::ZeroRTT,
        Type::VersionNegotiation => PacketType::VersionNegotiation,
        Type::Short => PacketType::Short,
    };
    PluginValue::PacketType(k)
}

/// A packet header as the engine parsed it.
#[derive(Clone, Debug, PartialEq, Eq)]
pub struct PacketHeader {
    pub ty: Type,
    /// The header's first byte as it stands on the wire.
    pub first_byte: u8,
    pub version: u32,
    pub dcid: Vec<u8>,
    pub scid: Vec<u8>,
    pub pkt_num: u64,
    pub pkt_num_len: usize,
    pub token: Option<Vec<u8>>,
    pub versions: Option<Vec<u32>>,
    pub key_phase: bool,
}

/// Whether packets of this type carry a protected payload (and so a packet number).
pub open spec fn has_protected_payload(t: Type) -> bool {
    t != Type::VersionNegotiation && t != Type::Retry
}

/// Byte length of a list of `n` versions, or `u64::MAX` where that does not fit.
pub open spec fn versions_byte_len(n: int) -> u64 {
    if n <= u64::MAX / 4 {
        (4 * n) as u64
    } else {
        u64::MAX
    }
}

/// What plugins see of a header.
pub open spec fn header_view(h: PacketHeader) -> Header {
    Header {
        first: h.first_byte,
        version: if h.ty == Type::Short {
            None
        } else if h.ty == Type::VersionNegotiation {
            Some(0u32)
        } else {
            Some(h.version)
        },
        destination_cid: read_only(DCID_TAG, h.dcid.len() as int),
        source_cid: if h.ty == Type::Short {
            None
        } else {
            Some(read_only(SCID_TAG, h.scid.len() as int))
        },
        supported_versions: if h.ty == Type::VersionNegotiation {
            match h.versions {
                Some(v) => Some(
                    read_only(SUPPORTED_VERSIONS_TAG, versions_byte_len(v.len() as int) as int),
                ),
                None => Some(read_only(SUPPORTED_VERSIONS_TAG, 0)),
            }
        } else {
            None
        },
        ext: if has_protected_payload(h.ty) {
            Some(
                HeaderExt {
                    packet_number: Some(h.pkt_num),
                    packet_number_len: if h.pkt_num_len <= u8::MAX {
                        Some(h.pkt_num_len as u8)
                    } else {
                        None
                    },
                    token: match h.token {
                        Some(t) => Some(read_only(HEADER_TOKEN_TAG, t.len() as int)),
                        None => None,
                    },
                    key_phase: Some(h.key_phase),
                },
            )
        } else {
            None
        },
    }
}

/// Turns a header into the value plugins see. Connection IDs, tokens and
/// version lists become read-only handles; a version negotiation packet
/// carries version 0.
pub fn encode_header(h: &PacketHeader) -> (v: PluginValue)
    ensures
        v == PluginValue::Header(header_view(*h)),
{
    let is_short = matches!(h.ty, Type::Short);
    let is_vn = matches!(h.ty, Type::VersionNegotiation);
    let version = if is_short {
        None
    } else if is_vn {
        Some(0u32)
    } else {
        Some(h.version)
    };
    let source_cid = if is_short {
        None
    } else {
        Some(read_only_handle(SCID_TAG, h.scid.len() as u64))
    };
    let supported_versions = if is_vn {
        let n = match &h.versions {
            Some(v) => v.len() as u64,
            None => 0,
        };
        let len = if n <= u64::MAX / 4 {
            4 * n
        } else {
            u64::MAX
        };
        Some(read_only_handle(SUPPORTED_VERSIONS_TAG, len))
    } else {
        None
    };
    let ext = if !is_vn && !matches!(h.ty, Type::Retry) {
        let packet_number_len = if h.pkt_num_len <= u8::MAX as usize {
            Some(h.pkt_num_len as u8)
        } else {
            None
        };
        let token = match &h.token {
            Some(t) => Some(read_only_handle(HEADER_TOKEN_TAG, t.len() as u64)),
            None => None,
        };
        Some(
            HeaderExt {
                packet_number: Some(h.pkt_num),
                packet_number_len,
                token,
                key_phase: Some(h.key_phase),
            },
        )
    } else {
        None
    };
    PluginValue::Header(
        Header {
            first: h.first_byte,
            version,
            destination_cid: read_only_handle(DCID_TAG, h.dcid.len() as u64),
            source_cid,
            supported_versions,
            ext,
        },
    )
}

} // verus!
