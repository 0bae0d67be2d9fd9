//! The protocol state that one chain hosts: its own height and history, the
//! light clients it runs, and its connection and channel ends.

use vstd::prelude::*;
use std::collections::HashMap;
use std::collections::HashSet;
use crate::channel::{ChannelEnd, ChannelRecord, ChannelView};
use crate::client::{
    consensus_at,
    find_consensus,
    ClientRecord,
    ClientState,
    ClientView,
    ConsensusEntry,
    ConsensusState,
};
use crate::commitment::Digest;
use crate::connection::ConnectionEnd;
use crate::height::Height;
use crate::ids::{ChannelId, ClientId, CommitmentPrefix, ConnectionId, PortId};

verus! {

broadcast use vstd::std_specs::hash::group_hash_axioms;

/// The state of one chain. Entities are found by the number in their
/// identifier.
pub struct Host {
    chain_id: u64,
    height: Height,
    oldest_height: Height,
    timestamp: u64,
    prefix: CommitmentPrefix,
    history: Vec<ConsensusEntry>,
    clients: HashMap<u64, ClientRecord>,
    connections: HashMap<u64, ConnectionEnd>,
    channels: HashMap<u64, ChannelRecord>,
}

/// The mathematical content of a `Host`.
pub struct HostView {
    pub chain_id: u64,
    /// The current height of the chain.
    pub height: Height,
    /// The oldest height for which the chain still keeps its own state.
    pub oldest_height: Height,
    /// The current time of the chain, in nanoseconds.
    pub timestamp: u64,
    pub prefix: CommitmentPrefix,
    /// The chain's own consensus states, oldest first.
    pub history: Seq<ConsensusEntry>,
    pub clients: Map<u64, ClientView>,
    pub connections: Map<u64, ConnectionEnd>,
    pub channels: Map<u64, ChannelView>,
}

pub open spec fn client_views(m: Map<u64, ClientRecord>) -> Map<u64, ClientView> {
    m.map_values(|r: ClientRecord| r@)
}

pub open spec fn channel_views(m: Map<u64, ChannelRecord>) -> Map<u64, ChannelView> {
    m.map_values(|r: ChannelRecord| r@)
}

impl View for Host {
    type V = HostView;

    closed spec fn view(&self) -> HostView {
        HostView {
            chain_id: self.chain_id,
            height: self.height,
            oldest_height: self.oldest_height,
            timestamp: self.timestamp,
            prefix: self.prefix,
            history: self.history@,
            clients: client_views(self.clients@),
            connections: self.connections@,
            channels: channel_views(self.channels@),
        }
    }
}

impl HostView {
    /// The state of a client, if the client exists.
    pub open spec fn client_state(self, id: ClientId) -> Option<ClientState> {
        if self.clients.contains_key(id.index) {
            Some(self.clients[id.index].state)
        } else {
            None
        }
    }

    /// The consensus state that a client holds for a height.
    pub open spec fn client_consensus(self, id: ClientId, height: Height) -> Option<
        ConsensusState,
    > {
        if self.clients.contains_key(id.index) {
            consensus_at(self.clients[id.index].consensus, height)
        } else {
            None
        }
    }

    pub open spec fn connection(self, id: ConnectionId) -> Option<ConnectionEnd> {
        if self.connections.contains_key(id.index) {
            Some(self.connections[id.index])
        } else {
            None
        }
    }

    pub open spec fn channel(self, id: ChannelId) -> Option<ChannelView> {
        if self.channels.contains_key(id.index) {
            Some(self.channels[id.index])
        } else {
            None
        }
    }

    /// The channel stored under an identifier, if it belongs to the port.
    pub open spec fn channel_at(self, port_id: PortId, channel_id: ChannelId) -> Option<
        ChannelView,
    > {
        if self.channels.contains_key(channel_id.index) && self.channels[channel_id.index].port_id
            == port_id {
            Some(self.channels[channel_id.index])
        } else {
            None
        }
    }

    /// The same state with a connection end stored under an identifier.
    pub open spec fn with_connection(self, id: ConnectionId, end: ConnectionEnd) -> HostView {
        HostView { connections: self.connections.insert(id.index, end), ..self }
    }

    /// The same state with a channel stored under an identifier.
    pub open spec fn with_channel(self, id: ChannelId, channel: ChannelView) -> HostView {
        HostView { channels: self.channels.insert(id.index, channel), ..self }
    }

    /// The same state with a client stored under an identifier.
    pub open spec fn with_client(self, id: ClientId, client: ClientView) -> HostView {
        HostView { clients: self.clients.insert(id.index, client), ..self }
    }
}

impl Host {
    /// A chain at its first height, with no clients, connections or channels.
    pub fn new(
        chain_id: u64,
        prefix: CommitmentPrefix,
        height: Height,
        timestamp: u64,
        root: Digest,
    ) -> (host: Host)
        ensures
            host@ == (HostView {
                chain_id,
                height,
                oldest_height: height,
                timestamp,
                prefix,
                history: seq![ConsensusEntry { height, state: ConsensusState { timestamp, root } }],
                clients: Map::empty(),
                connections: Map::empty(),
                channels: Map::empty(),
            }),
    {
        let mut history: Vec<ConsensusEntry> = Vec::new();
        history.push(ConsensusEntry { height, state: ConsensusState { timestamp, root } });
        let host = Host {
            chain_id,
            height,
            oldest_height: height,
            timestamp,
            prefix,
            history,
            clients: HashMap::new(),
            connections: HashMap::new(),
            channels: HashMap::new(),
        };
        assert(host@.history =~= seq![
            ConsensusEntry { height, state: ConsensusState { timestamp, root } },
        ]);
        assert(host@.clients =~= Map::empty());
        assert(host@.channels =~= Map::empty());
        host
    }

    /// Moves the chain to a higher height and a time that is not earlier,
    /// and records the root of its state there. Returns whether it did; a
    /// height that is not above the current one, or an earlier time, changes
    /// nothing.
    pub fn advance(&mut self, height: Height, timestamp: u64, root: Digest) -> (moved: bool)
        ensures
            moved == (old(self)@.height.spec_lt(height) && old(self)@.timestamp <= timestamp),
            moved ==> final(self)@ == (HostView {
                height,
                timestamp,
                history: old(self)@.history.push(
                    ConsensusEntry { height, state: ConsensusState { timestamp, root } },
                ),
                ..old(self)@
            }),
            !moved ==> final(self)@ == old(self)@,
    {
        if self.height.lt(&height) && self.timestamp <= timestamp {
            self.height = height;
            self.timestamp = timestamp;
            self.history.push(ConsensusEntry { height, state: ConsensusState { timestamp, root } });
            true
        } else {
            false
        }
    }

    /// Gives up the chain's own states below `oldest`. Returns whether it
    /// did; a height below the present limit or above the current height
    /// changes nothing.
    pub fn prune(&mut self, oldest: Height) -> (pruned: bool)
        ensures
            pruned == (old(self)@.oldest_height.spec_le(oldest) && oldest.spec_le(
                old(self)@.height,
            )),
            pruned ==> final(self)@ == (HostView { oldest_height: oldest, ..old(self)@ }),
            !pruned ==> final(self)@ == old(self)@,
    {
        if self.oldest_height.le(&oldest) && oldest.le(&self.height) {
            self.oldest_height = oldest;
            true
        } else {
            false
        }
    }

    pub fn chain_id(&self) -> (r: u64)
        ensures
            r == self@.chain_id,
    {
        self.chain_id
    }

    pub fn height(&self) -> (r: Height)
        ensures
            r == self@.height,
    {
        self.height
    }

    pub fn oldest_height(&self) -> (r: Height)
        ensures
            r == self@.oldest_height,
    {
        self.oldest_height
    }

    pub fn timestamp(&self) -> (r: u64)
        ensures
            r == self@.timestamp,
    {
        self.timestamp
    }

    pub fn prefix(&self) -> (r: CommitmentPrefix)
        ensures
            r == self@.prefix,
    {
        self.prefix
    }

    /// The chain's current height and time.
    pub fn latest_height_and_timestamp(&self) -> (r: (Height, u64))
        ensures
            r == (self@.height, self@.timestamp),
    {
        (self.height, self.timestamp)
    }

    /// The chain's own consensus state at a height.
    pub fn host_consensus_state(&self, height: Height) -> (r: Option<ConsensusState>)
        ensures
            r == consensus_at(self@.history, height),
    {
        find_consensus(&self.history, height)
    }

    /// The state of a client.
    pub fn query_client_state(&self, client_id: ClientId) -> (r: Option<ClientState>)
        ensures
            r == self@.client_state(client_id),
    {
        match self.clients.get(&client_id.index) {
            Some(rec) => Some(rec.state),
            None => None,
        }
    }

    /// The consensus state that a client holds for a height.
    pub fn query_client_consensus(&self, client_id: ClientId, consensus_height: Height) -> (r:
        Option<ConsensusState>)
        ensures
            r == self@.client_consensus(client_id, consensus_height),
    {
        match self.clients.get(&client_id.index) {
            Some(rec) => find_consensus(&rec.consensus, consensus_height),
            None => None,
        }
    }

    /// The connection end stored under an identifier.
    pub fn query_connection_end(&self, connection_id: ConnectionId) -> (r: Option<ConnectionEnd>)
        ensures
            r == self@.connection(connection_id),
    {
        match self.connections.get(&connection_id.index) {
            Some(end) => Some(*end),
            None => None,
        }
    }

    /// The channel end stored under an identifier, if it belongs to the port.
    pub fn query_channel_end(&self, channel_id: ChannelId, port_id: PortId) -> (r: Option<
        ChannelEnd,
    >)
        ensures
            r == match self@.channel_at(port_id, channel_id) {
                Some(c) => Some(c.end),
                None => None,
            },
    {
        match self.channels.get(&channel_id.index) {
            Some(rec) => if rec.port_id == port_id {
                Some(rec.end)
            } else {
                None
            },
            None => None,
        }
    }

    /// Whether any channel is stored under an identifier.
    pub fn has_channel(&self, channel_id: ChannelId) -> (r: bool)
        ensures
            r == self@.channels.contains_key(channel_id.index),
    {
        self.channels.get(&channel_id.index).is_some()
    }

    pub(crate) fn create_channel(&mut self, id: ChannelId, port_id: PortId, end: ChannelEnd)
        ensures
            final(self)@ == old(self)@.with_channel(id, ChannelView::fresh(port_id, end)),
    {
        let rec = ChannelRecord {
            port_id,
            end,
            next_sequence_send: 1,
            next_sequence_recv: 1,
            next_sequence_ack: 1,
            commitments: HashMap::new(),
            receipts: HashSet::new(),
            acknowledgements: HashMap::new(),
            acknowledged: Vec::new(),
        };
        assert(rec@.commitments =~= Map::empty());
        assert(rec@.acknowledgements =~= Map::empty());
        assert(rec@ == ChannelView::fresh(port_id, end));
        self.put_channel(id, rec);
    }

    pub(crate) fn set_channel_end(&mut self, id: ChannelId, end: ChannelEnd)
        requires
            old(self)@.channels.contains_key(id.index),
        ensures
            final(self)@ == old(self)@.with_channel(
                id,
                old(self)@.channels[id.index].with_end(end),
            ),
    {
        let ghost pre = self@;
        match self.take_channel(id) {
            Some(rec) => {
                let mut rec = rec;
                rec.end = end;
                let ghost after = rec@;
                self.put_channel(id, rec);
                assert(pre.channels.remove(id.index).insert(id.index, after)
                    =~= pre.channels.insert(id.index, after));
            },
            None => {},
        }
    }

    pub(crate) fn put_connection(&mut self, id: ConnectionId, end: ConnectionEnd)
        ensures
            final(self)@ == old(self)@.with_connection(id, end),
    {
        self.connections.insert(id.index, end);
    }

    pub(crate) fn put_client(&mut self, id: ClientId, rec: ClientRecord)
        ensures
            final(self)@ == old(self)@.with_client(id, rec@),
    {
        let ghost r = rec@;
        self.clients.insert(id.index, rec);
        assert(final(self)@.clients =~= old(self)@.clients.insert(id.index, r));
    }

    /// Takes a client out of the state, to put it back changed.
    pub(crate) fn take_client(&mut self, id: ClientId) -> (r: Option<ClientRecord>)
        ensures
            match r {
                Some(rec) => old(self)@.clients.contains_key(id.index) && rec@ == old(
                    self,
                )@.clients[id.index],
                None => !old(self)@.clients.contains_key(id.index),
            },
            final(self)@ == (HostView {
                clients: old(self)@.clients.remove(id.index),
                ..old(self)@
            }),
    {
        let r = self.clients.remove(&id.index);
        assert(final(self)@.clients =~= old(self)@.clients.remove(id.index));
        r
    }

    pub(crate) fn channel_ref(&self, id: ChannelId) -> (r: Option<&ChannelRecord>)
        ensures
            match r {
                Some(rec) => self@.channels.contains_key(id.index) && rec@
                    == self@.channels[id.index],
                None => !self@.channels.contains_key(id.index),
            },
    {
        self.channels.get(&id.index)
    }

    pub(crate) fn put_channel(&mut self, id: ChannelId, rec: ChannelRecord)
        ensures
            final(self)@ == old(self)@.with_channel(id, rec@),
    {
        let ghost r = rec@;
        self.channels.insert(id.index, rec);
        assert(final(self)@.channels =~= old(self)@.channels.insert(id.index, r));
    }

    /// Takes a channel out of the state, to put it back changed.
    pub(crate) fn take_channel(&mut self, id: ChannelId) -> (r: Option<ChannelRecord>)
        ensures
            match r {
                Some(rec) => old(self)@.channels.contains_key(id.index) && rec@ == old(
                    self,
                )@.channels[id.index],
                None => !old(self)@.channels.contains_key(id.index),
            },
            final(self)@ == (HostView {
                channels: old(self)@.channels.remove(id.index),
                ..old(self)@
            }),
    {
        let r = self.channels.remove(&id.index);
        assert(final(self)@.channels =~= old(self)@.channels.remove(id.index));
        r
    }
}

/// Putting a channel back where one was taken out gives the state in which
/// the channel was replaced.
pub proof fn lemma_channel_put_back(pre: HostView, id: ChannelId, channel: ChannelView)
    ensures
        (HostView { channels: pre.channels.remove(id.index), ..pre }).with_channel(id, channel)
            == pre.with_channel(id, channel),
{
    assert(pre.channels.remove(id.index).insert(id.index, channel) =~= pre.channels.insert(
        id.index,
        channel,
    ));
}

} // verus!
