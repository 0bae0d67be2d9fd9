//! Packet relay: recording a send, and checking and recording a receive, an
//! acknowledgement or a timeout. All of them need an open channel over an
//! open connection. A step that fails changes nothing.

use vstd::prelude::*;
use crate::chan_handshake::channel_in_state;
use crate::channel::{ChannelCounterparty, ChannelEnd, ChannelState, ChannelView, Order};
use crate::commitment::{CommitmentProof, Digest};
use crate::connection::ConnectionEnd;
use crate::error::{ChannelError, ClientError, PacketError, ProofError};
use crate::events::IbcEvent;
use crate::height::Height;
use crate::host::{lemma_channel_put_back, Host, HostView};
use crate::ids::{ChannelId, ClientId, PortId};
use crate::light_client::{
    next_sequence_bytes,
    outcome,
    trusted_state,
    verified,
    verified_absent,
};
use crate::packet::{
    acknowledgement_commitment,
    acknowledgement_digest,
    packet_commitment,
    range,
    select,
    Packet,
};
use crate::path::Path;

verus! {

/// What a successful receive did.
#[derive(Clone, Copy, Debug, PartialEq, Eq, Structural)]
pub enum RecvOutcome {
    /// The packet was new: its receipt was written.
    Received,
    /// The receipt was there already: nothing was done.
    Duplicate,
}

/// Sequence numbers start at one; the largest number is never used, so that
/// the number after a used one always exists.
pub open spec fn valid_sequence(sequence: u64) -> bool {
    0 < sequence < u64::MAX
}

/// The open channel end on which a packet step works, with its connection.
pub open spec fn open_channel(host: HostView, port_id: PortId, channel_id: ChannelId) -> Result<
    (ChannelView, ConnectionEnd),
    PacketError,
> {
    match channel_in_state(host, port_id, channel_id, ChannelState::Open) {
        Ok(found) => Ok(found),
        Err(e) => Err(PacketError::Channel(e)),
    }
}

/// The error of a packet step whose proof was not accepted.
pub open spec fn packet_proof_error(e: ClientError, client_id: ClientId, sequence: u64) -> PacketError {
    match e {
        ClientError::ClientFrozen { .. } => PacketError::Channel(
            ChannelError::FrozenClient { client_id },
        ),
        ClientError::InvalidProof(ProofError::VerificationFailed) => {
            PacketError::PacketVerificationFailure { sequence }
        },
        ClientError::InvalidProof(pe) => PacketError::InvalidProof(pe),
        _ => PacketError::Channel(ChannelError::Client(e)),
    }
}

/// Whether the other end of a channel is the given port and channel.
pub open spec fn leads_to(ch: ChannelView, port_id: PortId, channel_id: ChannelId) -> bool {
    ch.end.counterparty == (ChannelCounterparty { port_id, channel_id: Some(channel_id) })
}

/// What `verify_and_record_send` gives.
pub open spec fn send_result(host: HostView, packet: Packet) -> Result<
    (HostView, IbcEvent),
    PacketError,
> {
    match open_channel(host, packet.source_port, packet.source_channel) {
        Err(e) => Err(e),
        Ok((ch, conn)) => if !leads_to(ch, packet.destination_port, packet.destination_channel) {
            Err(
                PacketError::CounterpartyMismatch {
                    port_id: packet.destination_port,
                    channel_id: packet.destination_channel,
                },
            )
        } else if !valid_sequence(packet.sequence) {
            Err(PacketError::InvalidSequence { sequence: packet.sequence })
        } else if !packet.has_timeout() {
            Err(PacketError::MissingTimeout)
        } else if packet.sequence != ch.next_sequence_send {
            Err(
                PacketError::SequenceMismatch {
                    expected: ch.next_sequence_send,
                    received: packet.sequence,
                },
            )
        } else {
            Ok(
                (
                    host.with_channel(
                        packet.source_channel,
                        ChannelView {
                            next_sequence_send: (packet.sequence + 1) as u64,
                            commitments: ch.commitments.insert(
                                packet.sequence,
                                packet_commitment(packet),
                            ),
                            ..ch
                        },
                    ),
                    IbcEvent::SendPacket {
                        port_id: packet.source_port,
                        channel_id: packet.source_channel,
                        sequence: packet.sequence,
                    },
                ),
            )
        },
    }
}

/// What `verify_and_record_recv` gives.
pub open spec fn recv_result(
    host: HostView,
    packet: Packet,
    proof_height: Height,
    proof: Seq<u8>,
) -> Result<(HostView, RecvOutcome), PacketError> {
    match open_channel(host, packet.destination_port, packet.destination_channel) {
        Err(e) => Err(e),
        Ok((ch, conn)) => if !leads_to(ch, packet.source_port, packet.source_channel) {
            Err(
                PacketError::CounterpartyMismatch {
                    port_id: packet.source_port,
                    channel_id: packet.source_channel,
                },
            )
        } else if !valid_sequence(packet.sequence) {
            Err(PacketError::InvalidSequence { sequence: packet.sequence })
        } else if !packet.timeout_height.spec_is_zero() && packet.timeout_height.spec_le(
            host.height,
        ) {
            Err(
                PacketError::TimedOutHeight {
                    timeout_height: packet.timeout_height,
                    current_height: host.height,
                },
            )
        } else if packet.timeout_timestamp != 0 && packet.timeout_timestamp <= host.timestamp {
            Err(
                PacketError::TimedOutTimestamp {
                    timeout_timestamp: packet.timeout_timestamp,
                    current_timestamp: host.timestamp,
                },
            )
        } else {
            match verified(
                host,
                conn.client_id,
                proof_height,
                proof,
                (Path::Commitment {
                    port_id: packet.source_port,
                    channel_id: packet.source_channel,
                    sequence: packet.sequence,
                }).spec_bytes(conn.counterparty.prefix),
                packet_commitment(packet),
            ) {
                Err(e) => Err(packet_proof_error(e, conn.client_id, packet.sequence)),
                Ok(()) => if ch.receipts.contains(packet.sequence) {
                    Ok((host, RecvOutcome::Duplicate))
                } else if ch.end.ordering == Order::Ordered && packet.sequence
                    != ch.next_sequence_recv {
                    Err(
                        PacketError::SequenceMismatch {
                            expected: ch.next_sequence_recv,
                            received: packet.sequence,
                        },
                    )
                } else {
                    Ok(
                        (
                            host.with_channel(
                                packet.destination_channel,
                                ChannelView {
                                    receipts: ch.receipts.insert(packet.sequence),
                                    next_sequence_recv: if ch.end.ordering == Order::Ordered {
                                        (packet.sequence + 1) as u64
                                    } else {
                                        ch.next_sequence_recv
                                    },
                                    ..ch
                                },
                            ),
                            RecvOutcome::Received,
                        ),
                    )
                },
            }
        },
    }
}

/// The channel end that sent a packet, which must be open, lead to the
/// packet's destination, and still hold the packet's commitment.
pub open spec fn pending_packet(host: HostView, packet: Packet) -> Result<
    (ChannelView, ConnectionEnd),
    PacketError,
> {
    match open_channel(host, packet.source_port, packet.source_channel) {
        Err(e) => Err(e),
        Ok((ch, conn)) => if !leads_to(ch, packet.destination_port, packet.destination_channel) {
            Err(
                PacketError::CounterpartyMismatch {
                    port_id: packet.destination_port,
                    channel_id: packet.destination_channel,
                },
            )
        } else if !valid_sequence(packet.sequence) {
            Err(PacketError::InvalidSequence { sequence: packet.sequence })
        } else if !ch.commitments.contains_key(packet.sequence) {
            Err(PacketError::PacketCommitmentNotFound { sequence: packet.sequence })
        } else if ch.commitments[packet.sequence] != packet_commitment(packet) {
            Err(PacketError::IncorrectPacketCommitment { sequence: packet.sequence })
        } else {
            Ok((ch, conn))
        },
    }
}

/// What `verify_and_record_ack` gives.
pub open spec fn ack_result(
    host: HostView,
    packet: Packet,
    acknowledgement: Seq<u8>,
    proof_height: Height,
    proof: Seq<u8>,
) -> Result<(HostView, IbcEvent), PacketError> {
    match pending_packet(host, packet) {
        Err(e) => Err(e),
        Ok((ch, conn)) => match verified(
            host,
            conn.client_id,
            proof_height,
            proof,
            (Path::Acknowledgement {
                port_id: packet.destination_port,
                channel_id: packet.destination_channel,
                sequence: packet.sequence,
            }).spec_bytes(conn.counterparty.prefix),
            acknowledgement_commitment(acknowledgement),
        ) {
            Err(e) => Err(packet_proof_error(e, conn.client_id, packet.sequence)),
            Ok(()) => if ch.end.ordering == Order::Ordered && packet.sequence
                != ch.next_sequence_ack {
                Err(
                    PacketError::SequenceMismatch {
                        expected: ch.next_sequence_ack,
                        received: packet.sequence,
                    },
                )
            } else {
                Ok(
                    (
                        host.with_channel(
                            packet.source_channel,
                            ChannelView {
                                commitments: ch.commitments.remove(packet.sequence),
                                next_sequence_ack: if ch.end.ordering == Order::Ordered {
                                    (packet.sequence + 1) as u64
                                } else {
                                    ch.next_sequence_ack
                                },
                                ..ch
                            },
                        ),
                        IbcEvent::AcknowledgePacket {
                            port_id: packet.source_port,
                            channel_id: packet.source_channel,
                            sequence: packet.sequence,
                        },
                    ),
                )
            },
        },
    }
}

/// The verdict on the proof that a packet was not received: on an ordered
/// channel, that the receiver still waits for `next_sequence_recv`, which
/// is not above the packet's sequence; on an unordered channel, that the
/// receiver holds no receipt for the packet.
pub open spec fn not_received(
    host: HostView,
    ch: ChannelView,
    conn: ConnectionEnd,
    packet: Packet,
    next_sequence_recv: u64,
    proof_height: Height,
    proof: Seq<u8>,
) -> Result<(), PacketError> {
    if ch.end.ordering == Order::Ordered {
        if next_sequence_recv > packet.sequence {
            Err(PacketError::PacketAlreadyReceived { sequence: packet.sequence })
        } else {
            match verified(
                host,
                conn.client_id,
                proof_height,
                proof,
                (Path::NextSequenceRecv {
                    port_id: packet.destination_port,
                    channel_id: packet.destination_channel,
                }).spec_bytes(conn.counterparty.prefix),
                next_sequence_bytes(next_sequence_recv),
            ) {
                Ok(()) => Ok(()),
                Err(e) => Err(packet_proof_error(e, conn.client_id, packet.sequence)),
            }
        }
    } else {
        match verified_absent(
            host,
            conn.client_id,
            proof_height,
            proof,
            (Path::Receipt {
                port_id: packet.destination_port,
                channel_id: packet.destination_channel,
                sequence: packet.sequence,
            }).spec_bytes(conn.counterparty.prefix),
        ) {
            Ok(()) => Ok(()),
            Err(e) => Err(packet_proof_error(e, conn.client_id, packet.sequence)),
        }
    }
}

/// What `verify_and_record_timeout` gives.
pub open spec fn timeout_result(
    host: HostView,
    packet: Packet,
    next_sequence_recv: u64,
    proof_height: Height,
    proof: Seq<u8>,
) -> Result<(HostView, IbcEvent), PacketError> {
    match pending_packet(host, packet) {
        Err(e) => Err(e),
        Ok((ch, conn)) => match trusted_state(host, conn.client_id, proof_height) {
            Err(e) => Err(packet_proof_error(e, conn.client_id, packet.sequence)),
            Ok(cs) => if !packet.timed_out_at(proof_height, cs.timestamp) {
                Err(
                    PacketError::TimeoutNotReached {
                        timeout_height: packet.timeout_height,
                        proof_height,
                    },
                )
            } else {
                match not_received(
                    host,
                    ch,
                    conn,
                    packet,
                    next_sequence_recv,
                    proof_height,
                    proof,
                ) {
                    Err(e) => Err(e),
                    Ok(()) => Ok(
                        (
                            host.with_channel(
                                packet.source_channel,
                                ChannelView {
                                    commitments: ch.commitments.remove(packet.sequence),
                                    end: if ch.end.ordering == Order::Ordered {
                                        ChannelEnd { state: ChannelState::Closed, ..ch.end }
                                    } else {
                                        ch.end
                                    },
                                    ..ch
                                },
                            ),
                            IbcEvent::TimeoutPacket {
                                port_id: packet.source_port,
                                channel_id: packet.source_channel,
                                sequence: packet.sequence,
                            },
                        ),
                    ),
                }
            },
        },
    }
}

/// What `write_acknowledgement` gives.
pub open spec fn write_ack_result(host: HostView, packet: Packet, acknowledgement: Seq<u8>) -> Result<
    (HostView, IbcEvent),
    PacketError,
> {
    match open_channel(host, packet.destination_port, packet.destination_channel) {
        Err(e) => Err(e),
        Ok((ch, conn)) => if !leads_to(ch, packet.source_port, packet.source_channel) {
            Err(
                PacketError::CounterpartyMismatch {
                    port_id: packet.source_port,
                    channel_id: packet.source_channel,
                },
            )
        } else if !ch.receipts.contains(packet.sequence) {
            Err(PacketError::PacketNotReceived { sequence: packet.sequence })
        } else if ch.acknowledgements.contains_key(packet.sequence) {
            Err(PacketError::AcknowledgementExists { sequence: packet.sequence })
        } else {
            Ok(
                (
                    host.with_channel(
                        packet.destination_channel,
                        ChannelView {
                            acknowledgements: ch.acknowledgements.insert(
                                packet.sequence,
                                acknowledgement_commitment(acknowledgement),
                            ),
                            acknowledged: ch.acknowledged.push(packet.sequence),
                            ..ch
                        },
                    ),
                    IbcEvent::WriteAcknowledgement {
                        port_id: packet.destination_port,
                        channel_id: packet.destination_channel,
                        sequence: packet.sequence,
                    },
                ),
            )
        },
    }
}

fn map_packet_proof_error(e: ClientError, client_id: ClientId, sequence: u64) -> (r: PacketError)
    ensures
        r == packet_proof_error(e, client_id, sequence),
{
    match e {
        ClientError::ClientFrozen { .. } => PacketError::Channel(
            ChannelError::FrozenClient { client_id },
        ),
        ClientError::InvalidProof(ProofError::VerificationFailed) => {
            PacketError::PacketVerificationFailure { sequence }
        },
        ClientError::InvalidProof(pe) => PacketError::InvalidProof(pe),
        _ => PacketError::Channel(ChannelError::Client(e)),
    }
}

fn end_leads_to(end: &ChannelEnd, port_id: PortId, channel_id: ChannelId) -> (r: bool)
    ensures
        r == (end.counterparty == (ChannelCounterparty { port_id, channel_id: Some(channel_id) })),
{
    match end.counterparty.channel_id {
        Some(id) => end.counterparty.port_id == port_id && id == channel_id,
        None => false,
    }
}

impl Host {
    fn open_channel_end(&self, port_id: PortId, channel_id: ChannelId) -> (r: Result<
        (ChannelEnd, ConnectionEnd),
        PacketError,
    >)
        ensures
            match r {
                Ok((end, conn)) => open_channel(self@, port_id, channel_id).is_ok() && open_channel(
                    self@,
                    port_id,
                    channel_id,
                ).unwrap().0.end == end && open_channel(self@, port_id, channel_id).unwrap().1
                    == conn && self@.channels.contains_key(channel_id.index)
                    && self@.channels[channel_id.index] == open_channel(
                    self@,
                    port_id,
                    channel_id,
                ).unwrap().0,
                Err(e) => open_channel(self@, port_id, channel_id) == Err::<
                    (ChannelView, ConnectionEnd),
                    PacketError,
                >(e),
            },
    {
        match self.channel_end_in_state(port_id, channel_id, ChannelState::Open) {
            Ok(found) => Ok(found),
            Err(e) => Err(PacketError::Channel(e)),
        }
    }

    fn pending(&self, packet: &Packet) -> (r: Result<(ChannelEnd, ConnectionEnd), PacketError>)
        ensures
            match r {
                Ok((end, conn)) => pending_packet(self@, *packet).is_ok() && pending_packet(
                    self@,
                    *packet,
                ).unwrap().0.end == end && pending_packet(self@, *packet).unwrap().1 == conn
                    && self@.channels.contains_key(packet.source_channel.index)
                    && self@.channels[packet.source_channel.index] == pending_packet(
                    self@,
                    *packet,
                ).unwrap().0,
                Err(e) => pending_packet(self@, *packet) == Err::<
                    (ChannelView, ConnectionEnd),
                    PacketError,
                >(e),
            },
    {
        let (end, conn) = match self.open_channel_end(packet.source_port, packet.source_channel) {
            Ok(found) => found,
            Err(e) => {
                return Err(e);
            },
        };
        if !end_leads_to(&end, packet.destination_port, packet.destination_channel) {
            return Err(
                PacketError::CounterpartyMismatch {
                    port_id: packet.destination_port,
                    channel_id: packet.destination_channel,
                },
            );
        }
        if packet.sequence == 0 || packet.sequence == u64::MAX {
            return Err(PacketError::InvalidSequence { sequence: packet.sequence });
        }
        let stored = match self.query_packet_commitment(
            packet.source_port,
            packet.source_channel,
            packet.sequence,
        ) {
            Some(d) => d,
            None => {
                return Err(PacketError::PacketCommitmentNotFound { sequence: packet.sequence });
            },
        };
        let commitment = packet.commitment();
        if !stored.same(&commitment) {
            return Err(PacketError::IncorrectPacketCommitment { sequence: packet.sequence });
        }
        Ok((end, conn))
    }

    /// The commitment stored for a packet that was sent and is neither
    /// acknowledged nor timed out.
    pub fn query_packet_commitment(&self, port_id: PortId, channel_id: ChannelId, seq: u64) -> (r:
        Option<Digest>)
        ensures
            match r {
                Some(d) => self@.channel_at(port_id, channel_id).is_some() && self@.channel_at(
                    port_id,
                    channel_id,
                ).unwrap().commitments.contains_key(seq) && self@.channel_at(
                    port_id,
                    channel_id,
                ).unwrap().commitments[seq] == d@,
                None => self@.channel_at(port_id, channel_id).is_none() || !self@.channel_at(
                    port_id,
                    channel_id,
                ).unwrap().commitments.contains_key(seq),
            },
    {
        match self.channel_ref(channel_id) {
            Some(rec) => if rec.port_id == port_id {
                rec.commitment_of(seq)
            } else {
                None
            },
            None => None,
        }
    }

    /// The digest of the acknowledgement written for a received packet.
    pub fn query_packet_acknowledgement(&self, port_id: PortId, channel_id: ChannelId, seq: u64) -> (r:
        Option<Digest>)
        ensures
            match r {
                Some(d) => self@.channel_at(port_id, channel_id).is_some() && self@.channel_at(
                    port_id,
                    channel_id,
                ).unwrap().acknowledgements.contains_key(seq) && self@.channel_at(
                    port_id,
                    channel_id,
                ).unwrap().acknowledgements[seq] == d@,
                None => self@.channel_at(port_id, channel_id).is_none() || !self@.channel_at(
                    port_id,
                    channel_id,
                ).unwrap().acknowledgements.contains_key(seq),
            },
    {
        match self.channel_ref(channel_id) {
            Some(rec) => if rec.port_id == port_id {
                rec.acknowledgement_of(seq)
            } else {
                None
            },
            None => None,
        }
    }

    /// Whether a packet was received.
    pub fn query_packet_receipt(&self, port_id: PortId, channel_id: ChannelId, seq: u64) -> (r: bool)
        ensures
            r == (self@.channel_at(port_id, channel_id).is_some() && self@.channel_at(
                port_id,
                channel_id,
            ).unwrap().receipts.contains(seq)),
    {
        match self.channel_ref(channel_id) {
            Some(rec) => rec.port_id == port_id && rec.has_receipt(seq),
            None => false,
        }
    }

    /// The sequence that a channel end expects to receive next.
    pub fn query_next_sequence_recv(&self, port_id: PortId, channel_id: ChannelId) -> (r: Option<
        u64,
    >)
        ensures
            r == match self@.channel_at(port_id, channel_id) {
                Some(c) => Some(c.next_sequence_recv),
                None => None,
            },
    {
        match self.channel_ref(channel_id) {
            Some(rec) => if rec.port_id == port_id {
                Some(rec.next_sequence_recv)
            } else {
                None
            },
            None => None,
        }
    }

    /// The sequence that a channel end gives to the packet it sends next.
    pub fn query_next_sequence_send(&self, port_id: PortId, channel_id: ChannelId) -> (r: Option<
        u64,
    >)
        ensures
            r == match self@.channel_at(port_id, channel_id) {
                Some(c) => Some(c.next_sequence_send),
                None => None,
            },
    {
        match self.channel_ref(channel_id) {
            Some(rec) => if rec.port_id == port_id {
                Some(rec.next_sequence_send)
            } else {
                None
            },
            None => None,
        }
    }

    /// The sequences below the next one to send whose commitment is still
    /// stored, in ascending order. Empty if there is no such channel.
    pub fn query_packet_commitments(&self, channel_id: ChannelId, port_id: PortId) -> (r: Vec<u64>)
        ensures
            r@ == match self@.channel_at(port_id, channel_id) {
                Some(c) => select(range(1, c.next_sequence_send), c.commitments.dom()),
                None => Seq::empty(),
            },
    {
        let mut out: Vec<u64> = Vec::new();
        match self.channel_ref(channel_id) {
            Some(rec) => {
                if rec.port_id == port_id {
                    let next = rec.next_sequence_send;
                    let mut s: u64 = 1;
                    assert(range(1, 1) =~= Seq::<u64>::empty());
                    while s < next
                        invariant
                            1 <= s,
                            s <= next || (next == 0 && s == 1),
                            out@ == select(range(1, s), rec@.commitments.dom()),
                        decreases next - s,
                    {
                        assert(range(1, (s + 1) as u64).drop_last() =~= range(1, s));
                        assert(range(1, (s + 1) as u64).last() == s);
                        if rec.commitment_of(s).is_some() {
                            out.push(s);
                        }
                        s += 1;
                    }
                    if next == 0 {
                        assert(range(1, 0) =~= range(1, 1));
                    }
                }
            },
            None => {},
        }
        out
    }

    /// The sequences for which an acknowledgement was written, in the order
    /// of writing. Empty if there is no such channel.
    pub fn query_packet_acknowledgements(&self, channel_id: ChannelId, port_id: PortId) -> (r: Vec<
        u64,
    >)
        ensures
            r@ == match self@.channel_at(port_id, channel_id) {
                Some(c) => c.acknowledged,
                None => Seq::empty(),
            },
    {
        match self.channel_ref(channel_id) {
            Some(rec) => if rec.port_id == port_id {
                let out = rec.acknowledged.clone();
                assert(out@ =~= rec.acknowledged@);
                out
            } else {
                Vec::new()
            },
            None => Vec::new(),
        }
    }

    /// Of the given sequences, those for which this channel end holds no
    /// receipt, in the order given. Empty if there is no such channel.
    pub fn query_unreceived_packets(
        &self,
        channel_id: ChannelId,
        port_id: PortId,
        seqs: Vec<u64>,
    ) -> (r: Vec<u64>)
        ensures
            r@ == match self@.channel_at(port_id, channel_id) {
                Some(c) => select(seqs@, c.receipts.complement()),
                None => Seq::empty(),
            },
    {
        let mut out: Vec<u64> = Vec::new();
        match self.channel_ref(channel_id) {
            Some(rec) => {
                if rec.port_id == port_id {
                    let mut i: usize = 0;
                    assert(seqs@.take(0) =~= Seq::<u64>::empty());
                    while i < seqs.len()
                        invariant
                            i <= seqs.len(),
                            out@ == select(seqs@.take(i as int), rec@.receipts.complement()),
                        decreases seqs.len() - i,
                    {
                        let s = seqs[i];
                        assert(seqs@.take(i + 1).drop_last() =~= seqs@.take(i as int));
                        assert(seqs@.take(i + 1).last() == s);
                        if !rec.has_receipt(s) {
                            out.push(s);
                        }
                        i += 1;
                    }
                    assert(seqs@.take(seqs.len() as int) =~= seqs@);
                }
            },
            None => {},
        }
        out
    }

    /// Of the given sequences, those whose commitment this channel end still
    /// holds: the packets whose acknowledgement it has not yet taken. In the
    /// order given; empty if there is no such channel.
    pub fn query_unreceived_acknowledgements(
        &self,
        channel_id: ChannelId,
        port_id: PortId,
        seqs: Vec<u64>,
    ) -> (r: Vec<u64>)
        ensures
            r@ == match self@.channel_at(port_id, channel_id) {
                Some(c) => select(seqs@, c.commitments.dom()),
                None => Seq::empty(),
            },
    {
        let mut out: Vec<u64> = Vec::new();
        match self.channel_ref(channel_id) {
            Some(rec) => {
                if rec.port_id == port_id {
                    let mut i: usize = 0;
                    assert(seqs@.take(0) =~= Seq::<u64>::empty());
                    while i < seqs.len()
                        invariant
                            i <= seqs.len(),
                            out@ == select(seqs@.take(i as int), rec@.commitments.dom()),
                        decreases seqs.len() - i,
                    {
                        let s = seqs[i];
                        assert(seqs@.take(i + 1).drop_last() =~= seqs@.take(i as int));
                        assert(seqs@.take(i + 1).last() == s);
                        if rec.commitment_of(s).is_some() {
                            out.push(s);
                        }
                        i += 1;
                    }
                    assert(seqs@.take(seqs.len() as int) =~= seqs@);
                }
            },
            None => {},
        }
        out
    }

    /// Records that a packet is sent from an open channel end: stores its
    /// commitment and moves on to the next sequence.
    pub fn verify_and_record_send(&mut self, packet: &Packet) -> (r: Result<IbcEvent, PacketError>)
        ensures
            outcome(r, old(self)@, final(self)@, send_result(old(self)@, *packet)),
    {
        let (end, _conn) = match self.open_channel_end(packet.source_port, packet.source_channel) {
            Ok(found) => found,
            Err(e) => {
                return Err(e);
            },
        };
        if !end_leads_to(&end, packet.destination_port, packet.destination_channel) {
            return Err(
                PacketError::CounterpartyMismatch {
                    port_id: packet.destination_port,
                    channel_id: packet.destination_channel,
                },
            );
        }
        if packet.sequence == 0 || packet.sequence == u64::MAX {
            return Err(PacketError::InvalidSequence { sequence: packet.sequence });
        }
        if packet.timeout_height.is_zero() && packet.timeout_timestamp == 0 {
            return Err(PacketError::MissingTimeout);
        }
        let next = match self.query_next_sequence_send(packet.source_port, packet.source_channel) {
            Some(n) => n,
            None => {
                return Err(
                    PacketError::Channel(
                        ChannelError::ChannelNotFound {
                            port_id: packet.source_port,
                            channel_id: packet.source_channel,
                        },
                    ),
                );
            },
        };
        if packet.sequence != next {
            return Err(PacketError::SequenceMismatch { expected: next, received: packet.sequence });
        }
        let commitment = packet.commitment();
        let ghost pre = self@;
        match self.take_channel(packet.source_channel) {
            Some(rec) => {
                let mut rec = rec;
                rec.add_commitment(packet.sequence, commitment);
                rec.next_sequence_send = packet.sequence + 1;
                let ghost after = rec@;
                self.put_channel(packet.source_channel, rec);
                proof {
                    lemma_channel_put_back(pre, packet.source_channel, after);
                }
            },
            None => {},
        }
        Ok(
            IbcEvent::SendPacket {
                port_id: packet.source_port,
                channel_id: packet.source_channel,
                sequence: packet.sequence,
            },
        )
    }

    /// Checks that the sending chain committed to a packet and records its
    /// receipt. On an ordered channel the packet must be the next one
    /// expected. A packet whose receipt is already there is accepted again,
    /// and nothing is done.
    pub fn verify_and_record_recv(&mut self, packet: &Packet, proof: &CommitmentProof) -> (r: Result<
        RecvOutcome,
        PacketError,
    >)
        ensures
            outcome(
                r,
                old(self)@,
                final(self)@,
                recv_result(old(self)@, *packet, proof.height, proof.bytes@),
            ),
    {
        let (end, conn) = match self.open_channel_end(
            packet.destination_port,
            packet.destination_channel,
        ) {
            Ok(found) => found,
            Err(e) => {
                return Err(e);
            },
        };
        if !end_leads_to(&end, packet.source_port, packet.source_channel) {
            return Err(
                PacketError::CounterpartyMismatch {
                    port_id: packet.source_port,
                    channel_id: packet.source_channel,
                },
            );
        }
        if packet.sequence == 0 || packet.sequence == u64::MAX {
            return Err(PacketError::InvalidSequence { sequence: packet.sequence });
        }
        let (height, timestamp) = self.latest_height_and_timestamp();
        if !packet.timeout_height.is_zero() && packet.timeout_height.le(&height) {
            return Err(
                PacketError::TimedOutHeight {
                    timeout_height: packet.timeout_height,
                    current_height: height,
                },
            );
        }
        if packet.timeout_timestamp != 0 && packet.timeout_timestamp <= timestamp {
            return Err(
                PacketError::TimedOutTimestamp {
                    timeout_timestamp: packet.timeout_timestamp,
                    current_timestamp: timestamp,
                },
            );
        }
        let commitment = packet.commitment();
        if let Err(e) = self.verify_packet_commitment(
            conn.client_id,
            conn.counterparty.prefix,
            proof.height,
            proof.bytes.as_slice(),
            packet.source_port,
            packet.source_channel,
            packet.sequence,
            &commitment,
        ) {
            return Err(map_packet_proof_error(e, conn.client_id, packet.sequence));
        }
        if self.query_packet_receipt(
            packet.destination_port,
            packet.destination_channel,
            packet.sequence,
        ) {
            return Ok(RecvOutcome::Duplicate);
        }
        let ordered = end.ordering.is_ordered();
        if ordered {
            let next = match self.query_next_sequence_recv(
                packet.destination_port,
                packet.destination_channel,
            ) {
                Some(n) => n,
                None => 0,
            };
            if packet.sequence != next {
                return Err(
                    PacketError::SequenceMismatch { expected: next, received: packet.sequence },
                );
            }
        }
        let ghost pre = self@;
        match self.take_channel(packet.destination_channel) {
            Some(rec) => {
                let mut rec = rec;
                rec.add_receipt(packet.sequence);
                if ordered {
                    rec.next_sequence_recv = packet.sequence + 1;
                }
                let ghost after = rec@;
                self.put_channel(packet.destination_channel, rec);
                proof {
                    lemma_channel_put_back(pre, packet.destination_channel, after);
                }
            },
            None => {},
        }
        Ok(RecvOutcome::Received)
    }

    /// Records the acknowledgement that the application wrote for a packet
    /// it received.
    pub fn write_acknowledgement(&mut self, packet: &Packet, acknowledgement: &[u8]) -> (r: Result<
        IbcEvent,
        PacketError,
    >)
        ensures
            outcome(
                r,
                old(self)@,
                final(self)@,
                write_ack_result(old(self)@, *packet, acknowledgement@),
            ),
    {
        let (end, _conn) = match self.open_channel_end(
            packet.destination_port,
            packet.destination_channel,
        ) {
            Ok(found) => found,
            Err(e) => {
                return Err(e);
            },
        };
        if !end_leads_to(&end, packet.source_port, packet.source_channel) {
            return Err(
                PacketError::CounterpartyMismatch {
                    port_id: packet.source_port,
                    channel_id: packet.source_channel,
                },
            );
        }
        if !self.query_packet_receipt(
            packet.destination_port,
            packet.destination_channel,
            packet.sequence,
        ) {
            return Err(PacketError::PacketNotReceived { sequence: packet.sequence });
        }
        if self.query_packet_acknowledgement(
            packet.destination_port,
            packet.destination_channel,
            packet.sequence,
        ).is_some() {
            return Err(PacketError::AcknowledgementExists { sequence: packet.sequence });
        }
        let digest = acknowledgement_digest(acknowledgement);
        let ghost pre = self@;
        match self.take_channel(packet.destination_channel) {
            Some(rec) => {
                let mut rec = rec;
                rec.add_acknowledgement(packet.sequence, digest);
                let ghost after = rec@;
                self.put_channel(packet.destination_channel, rec);
                proof {
                    lemma_channel_put_back(pre, packet.destination_channel, after);
                }
            },
            None => {},
        }
        Ok(
            IbcEvent::WriteAcknowledgement {
                port_id: packet.destination_port,
                channel_id: packet.destination_channel,
                sequence: packet.sequence,
            },
        )
    }

    /// Checks that the receiving chain wrote the given acknowledgement for a
    /// packet, and clears the packet's commitment. On an ordered channel the
    /// packet must be the next one to be acknowledged.
    pub fn verify_and_record_ack(
        &mut self,
        packet: &Packet,
        acknowledgement: &[u8],
        proof: &CommitmentProof,
    ) -> (r: Result<IbcEvent, PacketError>)
        ensures
            outcome(
                r,
                old(self)@,
                final(self)@,
                ack_result(old(self)@, *packet, acknowledgement@, proof.height, proof.bytes@),
            ),
    {
        let (end, conn) = match self.pending(packet) {
            Ok(found) => found,
            Err(e) => {
                return Err(e);
            },
        };
        let digest = acknowledgement_digest(acknowledgement);
        if let Err(e) = self.verify_packet_acknowledgement(
            conn.client_id,
            conn.counterparty.prefix,
            proof.height,
            proof.bytes.as_slice(),
            packet.destination_port,
            packet.destination_channel,
            packet.sequence,
            &digest,
        ) {
            return Err(map_packet_proof_error(e, conn.client_id, packet.sequence));
        }
        let ordered = end.ordering.is_ordered();
        let ghost pre = self@;
        match self.take_channel(packet.source_channel) {
            Some(rec) => {
                let mut rec = rec;
                if ordered && packet.sequence != rec.next_sequence_ack {
                    let expected = rec.next_sequence_ack;
                    let ghost same = rec@;
                    self.put_channel(packet.source_channel, rec);
                    proof {
                        lemma_channel_put_back(pre, packet.source_channel, same);
                        assert(pre.channels.insert(packet.source_channel.index, same)
                            =~= pre.channels);
                    }
                    return Err(
                        PacketError::SequenceMismatch { expected, received: packet.sequence },
                    );
                }
                rec.remove_commitment(packet.sequence);
                if ordered {
                    rec.next_sequence_ack = packet.sequence + 1;
                }
                let ghost after = rec@;
                self.put_channel(packet.source_channel, rec);
                proof {
                    lemma_channel_put_back(pre, packet.source_channel, after);
                }
            },
            None => {},
        }
        Ok(
            IbcEvent::AcknowledgePacket {
                port_id: packet.source_port,
                channel_id: packet.source_channel,
                sequence: packet.sequence,
            },
        )
    }

    /// Checks that a packet was not received before its timeout passed on
    /// the receiving chain, and clears the packet's commitment. An ordered
    /// channel is closed by this. `next_sequence_recv` is what the receiving
    /// end of an ordered channel expects next; it is not used on an
    /// unordered channel.
    pub fn verify_and_record_timeout(
        &mut self,
        packet: &Packet,
        next_sequence_recv: u64,
        proof: &CommitmentProof,
    ) -> (r: Result<IbcEvent, PacketError>)
        ensures
            outcome(
                r,
                old(self)@,
                final(self)@,
                timeout_result(
                    old(self)@,
                    *packet,
                    next_sequence_recv,
                    proof.height,
                    proof.bytes@,
                ),
            ),
    {
        let (end, conn) = match self.pending(packet) {
            Ok(found) => found,
            Err(e) => {
                return Err(e);
            },
        };
        let cs = match self.trusted_consensus_state(conn.client_id, proof.height) {
            Ok(cs) => cs,
            Err(e) => {
                return Err(map_packet_proof_error(e, conn.client_id, packet.sequence));
            },
        };
        if !packet.is_timed_out_at(proof.height, cs.timestamp) {
            return Err(
                PacketError::TimeoutNotReached {
                    timeout_height: packet.timeout_height,
                    proof_height: proof.height,
                },
            );
        }
        let ordered = end.ordering.is_ordered();
        if ordered {
            if next_sequence_recv > packet.sequence {
                return Err(PacketError::PacketAlreadyReceived { sequence: packet.sequence });
            }
            if let Err(e) = self.verify_next_sequence_recv(
                conn.client_id,
                conn.counterparty.prefix,
                proof.height,
                proof.bytes.as_slice(),
                packet.destination_port,
                packet.destination_channel,
                next_sequence_recv,
            ) {
                return Err(map_packet_proof_error(e, conn.client_id, packet.sequence));
            }
        } else {
            if let Err(e) = self.verify_packet_receipt_absence(
                conn.client_id,
                conn.counterparty.prefix,
                proof.height,
                proof.bytes.as_slice(),
                packet.destination_port,
                packet.destination_channel,
                packet.sequence,
            ) {
                return Err(map_packet_proof_error(e, conn.client_id, packet.sequence));
            }
        }
        let ghost pre = self@;
        match self.take_channel(packet.source_channel) {
            Some(rec) => {
                let mut rec = rec;
                rec.remove_commitment(packet.sequence);
                if ordered {
                    rec.end.state = ChannelState::Closed;
                }
                let ghost after = rec@;
                self.put_channel(packet.source_channel, rec);
                proof {
                    lemma_channel_put_back(pre, packet.source_channel, after);
                }
            },
            None => {},
        }
        Ok(
            IbcEvent::TimeoutPacket {
                port_id: packet.source_port,
                channel_id: packet.source_channel,
                sequence: packet.sequence,
            },
        )
    }
}

} // verus!
