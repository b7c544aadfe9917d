//! Connection and per-path recovery state, and the field-indexed accessors
//! through which plugins read and write it.
use vstd::prelude::*;

use crate::ack::Range;
use crate::field::{AccessError, ConnectionField, PacketNumberSpaceField, PathSelector, RecoveryField};
use crate::packet::{space_epoch, Epoch};
use crate::value::{KPacketNumberSpace, PluginValue};

verus! {

/// The engine's state for one packet-number space.
#[derive(Clone, Debug, PartialEq, Eq)]
pub struct PacketNumberSpaceState {
    /// Ranges of received packet numbers that still wait to be acknowledged.
    pub recv_pkt_need_ack: Vec<Range>,
    pub ack_elicited: bool,
    pub next_pkt_num: u64,
    pub largest_rx_pkt_num: u64,
    pub has_send_keys: bool,
    /// Whether crypto data waits to be sent in this space.
    pub crypto_flushable: bool,
}

/// One state per packet-number space.
#[derive(Clone, Debug, PartialEq, Eq)]
pub struct PacketNumberSpaces {
    pub initial: PacketNumberSpaceState,
    pub handshake: PacketNumberSpaceState,
    pub application: PacketNumberSpaceState,
}

/// Congestion and loss-recovery state of one path.
#[derive(Clone, Copy, Debug, PartialEq, Eq)]
pub struct Recovery {
    pub congestion_window: usize,
    pub ssthresh: usize,
    pub bytes_in_flight: usize,
    pub max_datagram_size: usize,
    /// Largest acknowledged packet number, per packet-number space.
    pub largest_acked_pkt: [u64; 3],
    /// Key of the plugin context this path's recovery looks up; it owns nothing.
    pub plugin_ctx: Option<u64>,
}

/// The connection state that plugins can reach.
#[derive(Clone, Debug, PartialEq, Eq)]
pub struct Connection {
    pub is_server: bool,
    pub version: u32,
    pub max_tx_data: u64,
    pub rx_data: u64,
    pub handshake_completed: bool,
    pub in_early_data: bool,
    pub max_send_udp_payload_len: usize,
    pub pkt_num_spaces: PacketNumberSpaces,
    /// Recovery state of each path, indexed by path identifier.
    pub paths: Vec<Recovery>,
    /// Identifier of the path the connection currently sends on.
    pub active_path: usize,
    /// Key of the plugin context this connection looks up; it owns nothing.
    pub plugin_ctx: Option<u64>,
}

/// The state of packet-number space `e`.
pub open spec fn pns_of(s: PacketNumberSpaces, e: Epoch) -> PacketNumberSpaceState {
    match e {
        Epoch::Initial => s.initial,
        Epoch::Handshake => s.handshake,
        Epoch::Application => s.application,
    }
}

/// `s` with the state of space `e` replaced by `p`.
pub open spec fn pns_with(
    s: PacketNumberSpaces,
    e: Epoch,
    p: PacketNumberSpaceState,
) -> PacketNumberSpaces {
    match e {
        Epoch::Initial => PacketNumberSpaces { initial: p, ..s },
        Epoch::Handshake => PacketNumberSpaces { handshake: p, ..s },
        Epoch::Application => PacketNumberSpaces { application: p, ..s },
    }
}

/// The position of an epoch in per-epoch arrays.
pub open spec fn epoch_index(e: Epoch) -> int {
    match e {
        Epoch::Initial => 0,
        Epoch::Handshake => 1,
        Epoch::Application => 2,
    }
}

/// What reading field `f` of a packet-number space gives.
pub open spec fn pns_field_value(p: PacketNumberSpaceState, f: PacketNumberSpaceField) -> PluginValue {
    match f {
        PacketNumberSpaceField::ReceivedPacketNeedAck => PluginValue::Bool(
            p.recv_pkt_need_ack@.len() > 0,
        ),
        PacketNumberSpaceField::AckEllicited => PluginValue::Bool(p.ack_elicited),
        PacketNumberSpaceField::NextPacketNumber => PluginValue::U64(p.next_pkt_num),
        PacketNumberSpaceField::HasSendKeys => PluginValue::Bool(p.has_send_keys),
        PacketNumberSpaceField::ShouldSend => PluginValue::Bool(p.crypto_flushable || p.ack_elicited),
        PacketNumberSpaceField::LargestRxPacketNumber => PluginValue::U64(p.largest_rx_pkt_num),
    }
}

/// What reading connection field `f` gives; `None` where the engine offers no read.
pub open spec fn connection_field_value(c: Connection, f: ConnectionField) -> Option<PluginValue> {
    match f {
        ConnectionField::IsServer => Some(PluginValue::Bool(c.is_server)),
        ConnectionField::Version => Some(PluginValue::U32(c.version)),
        ConnectionField::MaxTxData => Some(PluginValue::U64(c.max_tx_data)),
        ConnectionField::PacketNumberSpace(s, pf) => Some(
            pns_field_value(pns_of(c.pkt_num_spaces, space_epoch(s)), pf),
        ),
        ConnectionField::IsEstablished => Some(PluginValue::Bool(c.handshake_completed)),
        ConnectionField::IsInEarlyData => Some(PluginValue::Bool(c.in_early_data)),
        ConnectionField::MaxSendUdpPayloadLength => Some(
            PluginValue::Usize(c.max_send_udp_payload_len as u64),
        ),
        ConnectionField::RxData => Some(PluginValue::U64(c.rx_data)),
        _ => None,
    }
}

/// Whether writing `v` to field `f` of a packet-number space is accepted.
pub open spec fn pns_set_result(f: PacketNumberSpaceField, v: PluginValue) -> Result<(), AccessError> {
    match f {
        PacketNumberSpaceField::AckEllicited => if v is Bool {
            Ok(())
        } else {
            Err(AccessError::BadType)
        },
        PacketNumberSpaceField::NextPacketNumber => if v is U64 {
            Ok(())
        } else {
            Err(AccessError::BadType)
        },
        PacketNumberSpaceField::LargestRxPacketNumber => if v is U64 {
            Ok(())
        } else {
            Err(AccessError::BadType)
        },
        _ => Err(AccessError::UnsupportedField),
    }
}

/// Whether writing `v` to connection field `f` is accepted.
pub open spec fn connection_set_result(f: ConnectionField, v: PluginValue) -> Result<(), AccessError> {
    match f {
        ConnectionField::MaxTxData => if v is U64 {
            Ok(())
        } else {
            Err(AccessError::BadType)
        },
        ConnectionField::PacketNumberSpace(_, pf) => pns_set_result(pf, v),
        _ => Err(AccessError::UnsupportedField),
    }
}

/// A packet-number space after an accepted write of `v` to field `f`.
pub open spec fn pns_after_set(
    p: PacketNumberSpaceState,
    f: PacketNumberSpaceField,
    v: PluginValue,
) -> PacketNumberSpaceState {
    match f {
        PacketNumberSpaceField::AckEllicited => PacketNumberSpaceState { ack_elicited: v->Bool_0, ..p },
        PacketNumberSpaceField::NextPacketNumber => PacketNumberSpaceState {
            next_pkt_num: v->U64_0,
            ..p
        },
        PacketNumberSpaceField::LargestRxPacketNumber => PacketNumberSpaceState {
            largest_rx_pkt_num: v->U64_0,
            ..p
        },
        _ => p,
    }
}

/// A connection after an accepted write of `v` to field `f`.
pub open spec fn connection_after_set(c: Connection, f: ConnectionField, v: PluginValue) -> Connection {
    match f {
        ConnectionField::MaxTxData => Connection { max_tx_data: v->U64_0, ..c },
        ConnectionField::PacketNumberSpace(s, pf) => Connection {
            pkt_num_spaces: pns_with(
                c.pkt_num_spaces,
                space_epoch(s),
                pns_after_set(pns_of(c.pkt_num_spaces, space_epoch(s)), pf, v),
            ),
            ..c
        },
        _ => c,
    }
}

/// What reading recovery field `f` gives; `None` where the engine offers no read.
pub open spec fn recovery_field_value(r: Recovery, f: RecoveryField) -> Option<PluginValue> {
    match f {
        RecoveryField::CongestionWindow => Some(PluginValue::Usize(r.congestion_window as u64)),
        RecoveryField::Ssthresh => Some(PluginValue::Usize(r.ssthresh as u64)),
        RecoveryField::BytesInFlight => Some(PluginValue::Usize(r.bytes_in_flight as u64)),
        RecoveryField::MaxDatagramSize => Some(PluginValue::Usize(r.max_datagram_size as u64)),
        RecoveryField::LargestAckedPacket(s) => Some(
            PluginValue::U64(r.largest_acked_pkt@[epoch_index(space_epoch(s))]),
        ),
        _ => None,
    }
}

/// Whether `v` is a `usize` carried as a `Usize` value.
pub open spec fn is_usize_value(v: PluginValue) -> bool {
    v is Usize && v->Usize_0 <= usize::MAX
}

/// Whether writing `v` to recovery field `f` is accepted.
pub open spec fn recovery_set_result(f: RecoveryField, v: PluginValue) -> Result<(), AccessError> {
    match f {
        RecoveryField::CongestionWindow => if is_usize_value(v) {
            Ok(())
        } else {
            Err(AccessError::BadType)
        },
        RecoveryField::Ssthresh => if is_usize_value(v) {
            Ok(())
        } else {
            Err(AccessError::BadType)
        },
        _ => Err(AccessError::UnsupportedField),
    }
}

/// A path's recovery state after an accepted write of `v` to field `f`.
pub open spec fn recovery_after_set(r: Recovery, f: RecoveryField, v: PluginValue) -> Recovery {
    match f {
        RecoveryField::CongestionWindow => Recovery { congestion_window: v->Usize_0 as usize, ..r },
        RecoveryField::Ssthresh => Recovery { ssthresh: v->Usize_0 as usize, ..r },
        _ => r,
    }
}

/// The path identifier a selector names on connection `c`.
pub open spec fn selected_path(c: Connection, p: PathSelector) -> int {
    match p {
        PathSelector::Active => c.active_path as int,
        PathSelector::Id(i) => i as int,
    }
}

/// Outcome of a read: the value, or `UnsupportedField` where there is none.
pub open spec fn read_result(v: Option<PluginValue>) -> Result<PluginValue, AccessError> {
    match v {
        Some(x) => Ok(x),
        None => Err(AccessError::UnsupportedField),
    }
}

fn epoch_of(s: KPacketNumberSpace) -> (e: Epoch)
    ensures
        e == space_epoch(s),
{
    match s {
        KPacketNumberSpace::Initial => Epoch::Initial,
        KPacketNumberSpace::Handshake => Epoch::Handshake,
        KPacketNumberSpace::ApplicationData => Epoch::Application,
    }
}

fn epoch_slot(e: Epoch) -> (i: usize)
    ensures
        i == epoch_index(e),
{
    match e {
        Epoch::Initial => 0,
        Epoch::Handshake => 1,
        Epoch::Application => 2,
    }
}

impl PacketNumberSpaceState {
    /// Reads one field of this space.
    pub fn get_field(&self, f: PacketNumberSpaceField) -> (v: PluginValue)
        ensures
            v == pns_field_value(*self, f),
    {
        match f {
            PacketNumberSpaceField::ReceivedPacketNeedAck => PluginValue::Bool(
                self.recv_pkt_need_ack.len() > 0,
            ),
            PacketNumberSpaceField::AckEllicited => PluginValue::Bool(self.ack_elicited),
            PacketNumberSpaceField::NextPacketNumber => PluginValue::U64(self.next_pkt_num),
            PacketNumberSpaceField::HasSendKeys => PluginValue::Bool(self.has_send_keys),
            PacketNumberSpaceField::ShouldSend => PluginValue::Bool(
                self.crypto_flushable || self.ack_elicited,
            ),
            PacketNumberSpaceField::LargestRxPacketNumber => PluginValue::U64(
                self.largest_rx_pkt_num,
            ),
        }
    }

    /// Writes one field of this space; rejected writes change nothing.
    pub fn set_field(&mut self, f: PacketNumberSpaceField, v: PluginValue) -> (r: Result<
        (),
        AccessError,
    >)
        ensures
            r == pns_set_result(f, v),
            r is Ok ==> *final(self) == pns_after_set(*old(self), f, v),
            r is Err ==> *final(self) == *old(self),
    {
        match f {
            PacketNumberSpaceField::AckEllicited => match v {
                PluginValue::Bool(b) => {
                    self.ack_elicited = b;
                    Ok(())
                },
                _ => Err(AccessError::BadType),
            },
            PacketNumberSpaceField::NextPacketNumber => match v {
                PluginValue::U64(x) => {
                    self.next_pkt_num = x;
                    Ok(())
                },
                _ => Err(AccessError::BadType),
            },
            PacketNumberSpaceField::LargestRxPacketNumber => match v {
                PluginValue::U64(x) => {
                    self.largest_rx_pkt_num = x;
                    Ok(())
                },
                _ => Err(AccessError::BadType),
            },
            _ => Err(AccessError::UnsupportedField),
        }
    }
}

impl PacketNumberSpaces {
    /// The state of space `e`.
    pub fn get(&self, e: Epoch) -> (p: &PacketNumberSpaceState)
        ensures
            *p == pns_of(*self, e),
    {
        match e {
            Epoch::Initial => &self.initial,
            Epoch::Handshake => &self.handshake,
            Epoch::Application => &self.application,
        }
    }

    /// Writes one field of space `e`; rejected writes change nothing.
    pub fn set_field(&mut self, e: Epoch, f: PacketNumberSpaceField, v: PluginValue) -> (r: Result<
        (),
        AccessError,
    >)
        ensures
            r == pns_set_result(f, v),
            r is Ok ==> *final(self) == pns_with(
                *old(self),
                e,
                pns_after_set(pns_of(*old(self), e), f, v),
            ),
            r is Err ==> *final(self) == *old(self),
    {
        match e {
            Epoch::Initial => self.initial.set_field(f, v),
            Epoch::Handshake => self.handshake.set_field(f, v),
            Epoch::Application => self.application.set_field(f, v),
        }
    }
}

impl Recovery {
    /// Reads one recovery field.
    pub fn get_field(&self, f: RecoveryField) -> (r: Result<PluginValue, AccessError>)
        ensures
            r == read_result(recovery_field_value(*self, f)),
    {
        match f {
            RecoveryField::CongestionWindow => Ok(PluginValue::Usize(self.congestion_window as u64)),
            RecoveryField::Ssthresh => Ok(PluginValue::Usize(self.ssthresh as u64)),
            RecoveryField::BytesInFlight => Ok(PluginValue::Usize(self.bytes_in_flight as u64)),
            RecoveryField::MaxDatagramSize => Ok(PluginValue::Usize(self.max_datagram_size as u64)),
            RecoveryField::LargestAckedPacket(s) => Ok(
                PluginValue::U64(self.largest_acked_pkt[epoch_slot(epoch_of(s))]),
            ),
            _ => Err(AccessError::UnsupportedField),
        }
    }

    /// Writes one recovery field; rejected writes change nothing.
    pub fn set_field(&mut self, f: RecoveryField, v: PluginValue) -> (r: Result<(), AccessError>)
        ensures
            r == recovery_set_result(f, v),
            r is Ok ==> *final(self) == recovery_after_set(*old(self), f, v),
            r is Err ==> *final(self) == *old(self),
    {
        match f {
            RecoveryField::CongestionWindow => match v.as_usize() {
                Some(x) => {
                    self.congestion_window = x;
                    Ok(())
                },
                None => Err(AccessError::BadType),
            },
            RecoveryField::Ssthresh => match v.as_usize() {
                Some(x) => {
                    self.ssthresh = x;
                    Ok(())
                },
                None => Err(AccessError::BadType),
            },
            _ => Err(AccessError::UnsupportedField),
        }
    }
}

impl Connection {
    /// Whether the handshake has completed.
    pub fn is_established(&self) -> (r: bool)
        ensures
            r == self.handshake_completed,
    {
        self.handshake_completed
    }

    /// Reads a connection field; `UnsupportedField` where the engine offers no read.
    pub fn get_connection(&self, field: ConnectionField) -> (r: Result<PluginValue, AccessError>)
        ensures
            r == read_result(connection_field_value(*self, field)),
    {
        match field {
            ConnectionField::IsServer => Ok(PluginValue::Bool(self.is_server)),
            ConnectionField::Version => Ok(PluginValue::U32(self.version)),
            ConnectionField::MaxTxData => Ok(PluginValue::U64(self.max_tx_data)),
            ConnectionField::PacketNumberSpace(s, pf) => {
                let pns = self.pkt_num_spaces.get(epoch_of(s));
                Ok(pns.get_field(pf))
            },
            ConnectionField::IsEstablished => Ok(PluginValue::Bool(self.is_established())),
            ConnectionField::IsInEarlyData => Ok(PluginValue::Bool(self.in_early_data)),
            ConnectionField::MaxSendUdpPayloadLength => Ok(
                PluginValue::Usize(self.max_send_udp_payload_len as u64),
            ),
            ConnectionField::RxData => Ok(PluginValue::U64(self.rx_data)),
            _ => Err(AccessError::UnsupportedField),
        }
    }

    /// Writes a connection field after checking the value's kind; a rejected
    /// write changes nothing.
    pub fn set_connection(&mut self, field: ConnectionField, value: PluginValue) -> (r: Result<
        (),
        AccessError,
    >)
        ensures
            r == connection_set_result(field, value),
            r is Ok ==> *final(self) == connection_after_set(*old(self), field, value),
            r is Err ==> *final(self) == *old(self),
    {
        match field {
            ConnectionField::MaxTxData => match value {
                PluginValue::U64(x) => {
                    self.max_tx_data = x;
                    Ok(())
                },
                _ => Err(AccessError::BadType),
            },
            ConnectionField::PacketNumberSpace(s, pf) => self.pkt_num_spaces.set_field(
                epoch_of(s),
                pf,
                value,
            ),
            _ => Err(AccessError::UnsupportedField),
        }
    }

    /// Resolves a path selector to a path identifier of this connection.
    pub fn path_index(&self, path: PathSelector) -> (r: Result<usize, AccessError>)
        ensures
            0 <= selected_path(*self, path) < self.paths@.len() ==> r == Ok::<usize, AccessError>(
                selected_path(*self, path) as usize,
            ),
            selected_path(*self, path) >= self.paths@.len() ==> r == Err::<usize, AccessError>(
                AccessError::UnknownPath,
            ),
    {
        let i = match path {
            PathSelector::Active => self.active_path,
            PathSelector::Id(i) => i,
        };
        if i < self.paths.len() {
            Ok(i)
        } else {
            Err(AccessError::UnknownPath)
        }
    }

    /// Reads a recovery field of the selected path.
    pub fn get_recovery(&self, path: PathSelector, field: RecoveryField) -> (r: Result<
        PluginValue,
        AccessError,
    >)
        ensures
            selected_path(*self, path) >= self.paths@.len() ==> r == Err::<PluginValue, AccessError>(
                AccessError::UnknownPath,
            ),
            selected_path(*self, path) < self.paths@.len() ==> r == read_result(
                recovery_field_value(self.paths@[selected_path(*self, path)], field),
            ),
    {
        let i = self.path_index(path)?;
        self.paths[i].get_field(field)
    }

    /// Writes a recovery field of the selected path after checking the value's
    /// kind; a rejected write changes nothing.
    pub fn set_recovery(&mut self, path: PathSelector, field: RecoveryField, value: PluginValue) -> (r:
        Result<(), AccessError>)
        ensures
            selected_path(*old(self), path) >= old(self).paths@.len() ==> r == Err::<(), AccessError>(
                AccessError::UnknownPath,
            ),
            selected_path(*old(self), path) < old(self).paths@.len() ==> r == recovery_set_result(
                field,
                value,
            ),
            r is Ok ==> final(self).paths@ == old(self).paths@.update(
                selected_path(*old(self), path),
                recovery_after_set(old(self).paths@[selected_path(*old(self), path)], field, value),
            ),
            r is Ok ==> *final(self) == (Connection { paths: final(self).paths, ..*old(self) }),
            r is Err ==> *final(self) == *old(self),
    {
        let i = self.path_index(path)?;
        let mut rec = self.paths[i];
        let r = rec.set_field(field, value);
        if r.is_ok() {
            self.paths.set(i, rec);
        }
        r
    }

    /// Records the plugin context this connection and each of its paths look
    /// up; to be done again whenever paths are added.
    pub fn set_pluginizable_connection(&mut self, ctx: u64)
        ensures
            final(self).plugin_ctx == Some(ctx),
            final(self).paths@.len() == old(self).paths@.len(),
            forall|i: int|
                0 <= i < old(self).paths@.len() ==> #[trigger] final(self).paths@[i] == (Recovery {
                    plugin_ctx: Some(ctx),
                    ..old(self).paths@[i]
                }),
            *final(self) == (Connection {
                plugin_ctx: Some(ctx),
                paths: final(self).paths,
                ..*old(self)
            }),
    {
        self.plugin_ctx = Some(ctx);
        let n = self.paths.len();
        let mut i: usize = 0;
        while i < n
            invariant
                n == old(self).paths@.len(),
                self.paths@.len() == n,
                i <= n,
                *self == (Connection { plugin_ctx: Some(ctx), paths: self.paths, ..*old(self) }),
                forall|j: int|
                    0 <= j < i ==> #[trigger] self.paths@[j] == (Recovery {
                        plugin_ctx: Some(ctx),
                        ..old(self).paths@[j]
                    }),
                forall|j: int| i <= j < n ==> #[trigger] self.paths@[j] == old(self).paths@[j],
            decreases n - i,
        {
            let mut rec = self.paths[i];
            rec.plugin_ctx = Some(ctx);
            self.paths.set(i, rec);
            i = i + 1;
        }
    }

    /// The plugin context this connection looks up, if one was recorded.
    pub fn get_pluginizable_connection(&self) -> (r: Option<u64>)
        ensures
            r == self.plugin_ctx,
    {
        self.plugin_ctx
    }
}

/// After an accepted write of `v` to a connection field, reading that field
/// gives `v`.
pub proof fn lemma_connection_set_then_get(c: Connection, f: ConnectionField, v: PluginValue)
    requires
        connection_set_result(f, v) is Ok,
    ensures
        connection_field_value(connection_after_set(c, f, v), f) == Some(v),
{
}

/// A value of another kind than `MaxTxData`'s is rejected as `BadType` (and a
/// rejected write leaves the connection unchanged).
pub proof fn lemma_max_tx_data_rejects_other_kinds(v: PluginValue)
    requires
        !(v is U64),
    ensures
        connection_set_result(ConnectionField::MaxTxData, v) == Err::<(), AccessError>(
            AccessError::BadType,
        ),
{
}

/// After an accepted write of `v` to a recovery field, reading that field
/// gives `v`.
pub proof fn lemma_recovery_set_then_get(r: Recovery, f: RecoveryField, v: PluginValue)
    requires
        recovery_set_result(f, v) is Ok,
    ensures
        recovery_field_value(recovery_after_set(r, f, v), f) == Some(v),
{
}

} // verus!
