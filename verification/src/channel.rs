//! Channel ends and the packet bookkeeping that belongs to each.

use vstd::prelude::*;
use vstd::bytes::spec_u64_to_le_bytes;
use std::collections::HashMap;
use std::collections::HashSet;
use crate::commitment::{append_u64, Digest};
use crate::ids::{ChannelId, ConnectionId, PortId};

verus! {

broadcast use vstd::std_specs::hash::group_hash_axioms;

/// How far a channel end has come. `Closed` is final.
#[derive(Clone, Copy, Debug, PartialEq, Eq, Structural)]
pub enum ChannelState {
    Init,
    TryOpen,
    Open,
    Closed,
}

/// Whether packets must be received in the order in which they were sent.
#[derive(Clone, Copy, Debug, PartialEq, Eq, Structural)]
pub enum Order {
    Unordered,
    Ordered,
}

/// The other end of a channel, as this end knows it.
#[derive(Clone, Copy, Debug, PartialEq, Eq, Structural)]
pub struct ChannelCounterparty {
    pub port_id: PortId,
    /// The channel on the other chain, once it is known.
    pub channel_id: Option<ChannelId>,
}

/// One end of a channel between two application modules.
#[derive(Clone, Copy, Debug, PartialEq, Eq, Structural)]
pub struct ChannelEnd {
    pub state: ChannelState,
    pub ordering: Order,
    pub counterparty: ChannelCounterparty,
    /// The connection that the channel runs over.
    pub connection_id: ConnectionId,
    /// The version of the application protocol.
    pub version: u64,
}

/// A channel end with its port and packet bookkeeping.
pub struct ChannelRecord {
    pub port_id: PortId,
    pub end: ChannelEnd,
    pub next_sequence_send: u64,
    pub next_sequence_recv: u64,
    pub next_sequence_ack: u64,
    /// Commitments of the packets sent and not yet acknowledged or timed out.
    pub commitments: HashMap<u64, Digest>,
    /// Sequences of the packets received.
    pub receipts: HashSet<u64>,
    /// Digests of the acknowledgements written for received packets.
    pub acknowledgements: HashMap<u64, Digest>,
    /// The sequences that have an acknowledgement, in the order of writing.
    pub acknowledged: Vec<u64>,
}

/// The mathematical content of a `ChannelRecord`.
pub struct ChannelView {
    pub port_id: PortId,
    pub end: ChannelEnd,
    pub next_sequence_send: u64,
    pub next_sequence_recv: u64,
    pub next_sequence_ack: u64,
    pub commitments: Map<u64, Seq<u8>>,
    pub receipts: Set<u64>,
    pub acknowledgements: Map<u64, Seq<u8>>,
    pub acknowledged: Seq<u64>,
}

/// The bytes of each digest in a map.
pub open spec fn digest_views(m: Map<u64, Digest>) -> Map<u64, Seq<u8>> {
    m.map_values(|d: Digest| d@)
}

impl View for ChannelRecord {
    type V = ChannelView;

    open spec fn view(&self) -> ChannelView {
        ChannelView {
            port_id: self.port_id,
            end: self.end,
            next_sequence_send: self.next_sequence_send,
            next_sequence_recv: self.next_sequence_recv,
            next_sequence_ack: self.next_sequence_ack,
            commitments: digest_views(self.commitments@),
            receipts: self.receipts@,
            acknowledgements: digest_views(self.acknowledgements@),
            acknowledged: self.acknowledged@,
        }
    }
}

impl ChannelView {
    /// The bookkeeping of a channel end that was just created.
    pub open spec fn fresh(port_id: PortId, end: ChannelEnd) -> ChannelView {
        ChannelView {
            port_id,
            end,
            next_sequence_send: 1,
            next_sequence_recv: 1,
            next_sequence_ack: 1,
            commitments: Map::empty(),
            receipts: Set::empty(),
            acknowledgements: Map::empty(),
            acknowledged: Seq::empty(),
        }
    }

    /// The same bookkeeping with another channel end.
    pub open spec fn with_end(self, end: ChannelEnd) -> ChannelView {
        ChannelView { end, ..self }
    }
}

impl ChannelRecord {
    /// The commitment stored for a sequence.
    pub fn commitment_of(&self, sequence: u64) -> (r: Option<Digest>)
        ensures
            match r {
                Some(d) => self@.commitments.contains_key(sequence) && self@.commitments[sequence]
                    == d@,
                None => !self@.commitments.contains_key(sequence),
            },
    {
        match self.commitments.get(&sequence) {
            Some(d) => Some(*d),
            None => None,
        }
    }

    /// The acknowledgement digest stored for a sequence.
    pub fn acknowledgement_of(&self, sequence: u64) -> (r: Option<Digest>)
        ensures
            match r {
                Some(d) => self@.acknowledgements.contains_key(sequence)
                    && self@.acknowledgements[sequence] == d@,
                None => !self@.acknowledgements.contains_key(sequence),
            },
    {
        match self.acknowledgements.get(&sequence) {
            Some(d) => Some(*d),
            None => None,
        }
    }

    /// Whether a receipt is stored for a sequence.
    pub fn has_receipt(&self, sequence: u64) -> (r: bool)
        ensures
            r == self@.receipts.contains(sequence),
    {
        self.receipts.contains(&sequence)
    }

    pub fn add_commitment(&mut self, sequence: u64, commitment: Digest)
        ensures
            final(self)@ == (ChannelView {
                commitments: old(self)@.commitments.insert(sequence, commitment@),
                ..old(self)@
            }),
    {
        self.commitments.insert(sequence, commitment);
        assert(final(self)@.commitments =~= old(self)@.commitments.insert(
            sequence,
            commitment@,
        ));
    }

    pub fn remove_commitment(&mut self, sequence: u64)
        ensures
            final(self)@ == (ChannelView {
                commitments: old(self)@.commitments.remove(sequence),
                ..old(self)@
            }),
    {
        self.commitments.remove(&sequence);
        assert(final(self)@.commitments =~= old(self)@.commitments.remove(sequence));
    }

    pub fn add_receipt(&mut self, sequence: u64)
        ensures
            final(self)@ == (ChannelView {
                receipts: old(self)@.receipts.insert(sequence),
                ..old(self)@
            }),
    {
        self.receipts.insert(sequence);
    }

    pub fn add_acknowledgement(&mut self, sequence: u64, acknowledgement: Digest)
        ensures
            final(self)@ == (ChannelView {
                acknowledgements: old(self)@.acknowledgements.insert(sequence, acknowledgement@),
                acknowledged: old(self)@.acknowledged.push(sequence),
                ..old(self)@
            }),
    {
        self.acknowledgements.insert(sequence, acknowledgement);
        self.acknowledged.push(sequence);
        assert(final(self)@.acknowledgements =~= old(self)@.acknowledgements.insert(
            sequence,
            acknowledgement@,
        ));
    }
}

impl ChannelState {
    /// The place of a state in the life of a channel.
    pub open spec fn rank(self) -> nat {
        match self {
            ChannelState::Init => 1,
            ChannelState::TryOpen => 2,
            ChannelState::Open => 3,
            ChannelState::Closed => 4,
        }
    }

    pub open spec fn spec_byte(self) -> u8 {
        match self {
            ChannelState::Init => 1,
            ChannelState::TryOpen => 2,
            ChannelState::Open => 3,
            ChannelState::Closed => 4,
        }
    }

    pub fn to_byte(&self) -> (b: u8)
        ensures
            b == self.spec_byte(),
    {
        match self {
            ChannelState::Init => 1,
            ChannelState::TryOpen => 2,
            ChannelState::Open => 3,
            ChannelState::Closed => 4,
        }
    }
}

impl Order {
    pub open spec fn spec_is_ordered(self) -> bool {
        self == Order::Ordered
    }

    pub fn is_ordered(&self) -> (r: bool)
        ensures
            r == self.spec_is_ordered(),
    {
        match self {
            Order::Ordered => true,
            Order::Unordered => false,
        }
    }

    pub open spec fn spec_byte(self) -> u8 {
        match self {
            Order::Unordered => 1,
            Order::Ordered => 2,
        }
    }

    pub fn to_byte(&self) -> (b: u8)
        ensures
            b == self.spec_byte(),
    {
        match self {
            Order::Unordered => 1,
            Order::Ordered => 2,
        }
    }
}

impl ChannelEnd {
    /// The bytes that a chain stores for this channel end.
    pub open spec fn spec_bytes(self) -> Seq<u8> {
        seq![self.state.spec_byte(), self.ordering.spec_byte()] + spec_u64_to_le_bytes(
            self.counterparty.port_id.index,
        ) + match self.counterparty.channel_id {
            Some(id) => seq![1u8] + spec_u64_to_le_bytes(id.index),
            None => seq![0u8],
        } + spec_u64_to_le_bytes(self.connection_id.index) + spec_u64_to_le_bytes(self.version)
    }

    pub fn to_bytes(&self) -> (v: Vec<u8>)
        ensures
            v@ == self.spec_bytes(),
    {
        let mut v: Vec<u8> = Vec::new();
        v.push(self.state.to_byte());
        v.push(self.ordering.to_byte());
        append_u64(&mut v, self.counterparty.port_id.index);
        match self.counterparty.channel_id {
            Some(id) => {
                v.push(1u8);
                append_u64(&mut v, id.index);
            },
            None => {
                v.push(0u8);
            },
        }
        append_u64(&mut v, self.connection_id.index);
        append_u64(&mut v, self.version);
        assert(v@ =~= self.spec_bytes());
        v
    }
}

} // verus!
