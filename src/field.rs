//! The named fields through which plugins read and write engine state.
use vstd::prelude::*;

use crate::value::KPacketNumberSpace;

verus! {

/// Which end's connection IDs a field speaks of.
#[derive(Clone, Copy, Debug, PartialEq, Eq, Structural)]
pub enum Direction {
    Source,
    Destination,
}

/// Which part of a list of IDs or addresses a field speaks of.
#[derive(Clone, Copy, Debug, PartialEq, Eq, Structural)]
pub enum IDList {
    Length,
    MinID,
    MaxID,
    Elem(u64),
    All,
}

/// Which endpoint a field speaks of.
#[derive(Clone, Copy, Debug, PartialEq, Eq, Structural)]
pub enum Host {
    Local,
    Remote,
}

/// A transport parameter.
#[derive(Clone, Copy, Debug, PartialEq, Eq, Structural)]
pub enum TransportParameterField {
    AckDelayExponent,
}

/// A field of one packet-number space.
#[derive(Clone, Copy, Debug, PartialEq, Eq, Structural)]
pub enum PacketNumberSpaceField {
    /// Whether received packets wait to be acknowledged.
    ReceivedPacketNeedAck,
    /// Whether an ACK frame should be sent in this space.
    AckEllicited,
    /// The packet number the next packet sent in this space gets.
    NextPacketNumber,
    /// Whether keys to send in this space are installed.
    HasSendKeys,
    /// Whether the space has something to send.
    ShouldSend,
    /// The largest packet number received in this space.
    LargestRxPacketNumber,
}

/// A field of connection-level state.
#[derive(Clone, Copy, Debug, PartialEq, Eq, Structural)]
pub enum ConnectionField {
    IsServer,
    InternalID,
    Version,
    MaxTxData,
    ConnectionID(Direction, IDList),
    PacketNumberSpace(KPacketNumberSpace, PacketNumberSpaceField),
    TransportParameter(Host, TransportParameterField),
    Token,
    ConnectionError,
    HandshakeWriteLevel,
    IsEstablished,
    IsInEarlyData,
    IsBlocked,
    HasFlushableStreams,
    HasBlockedStreams,
    MaxSendUdpPayloadLength,
    MaxSendBytes,
    Address(Host, IDList),
    RxData,
}

/// A field of one path's congestion and loss-recovery state.
#[derive(Clone, Copy, Debug, PartialEq, Eq, Structural)]
pub enum RecoveryField {
    LatestRtt,
    SmoothedRtt,
    Rttvar,
    MinRtt,
    FirstRttSample,
    MaxAckDelay,
    LossDetectionTimer,
    PtoCount(KPacketNumberSpace),
    TimeOfLastAckElicitingPacket(KPacketNumberSpace),
    LargestAckedPacket(KPacketNumberSpace),
    LossTime(KPacketNumberSpace),
    SentPackets(KPacketNumberSpace, u64),
    MaxDatagramSize,
    EcnCeCounters(KPacketNumberSpace),
    BytesInFlight,
    CongestionWindow,
    CongestionRecoveryStartTime,
    Ssthresh,
}

/// Which path a recovery field is read or written on.
#[derive(Clone, Copy, Debug, PartialEq, Eq, Structural)]
pub enum PathSelector {
    /// The path the connection currently sends on.
    Active,
    /// The path with this identifier.
    Id(usize),
}

/// Why a field could not be read or written.
#[derive(Clone, Copy, Debug, PartialEq, Eq, Structural)]
pub enum AccessError {
    /// The value's kind is not the field's kind.
    BadType,
    /// The value could not be serialized or deserialized.
    SerializeError,
    /// The engine offers no such access to this field.
    UnsupportedField,
    /// No path has the selected identifier.
    UnknownPath,
}

} // verus!
