use std::collections::BTreeMap;

use hyperspace_core::chan_handshake::{
    MsgChannelCloseConfirm, MsgChannelCloseInit, MsgChannelOpenAck, MsgChannelOpenConfirm,
    MsgChannelOpenInit, MsgChannelOpenTry,
};
use hyperspace_core::channel::{ChannelCounterparty, ChannelEnd, ChannelState, Order};
use hyperspace_core::client::{ClientState, ConsensusState, Header, HeaderVerdict};
use hyperspace_core::commitment::{
    branch_is_right, leaf_digest, node_digest, path_digest, CommitmentProof, Digest,
};
use hyperspace_core::conn_handshake::{
    MsgConnectionOpenAck, MsgConnectionOpenConfirm, MsgConnectionOpenInit, MsgConnectionOpenTry,
};
use hyperspace_core::connection::{
    ConnectionEnd, ConnectionState, Counterparty, FeatureSet, Version,
};
use hyperspace_core::error::{
    ChannelError, ClientError, ConnectionError, PacketError, ProofError,
};
use hyperspace_core::events::IbcEvent;
use hyperspace_core::height::Height;
use hyperspace_core::host::Host;
use hyperspace_core::ids::{ChannelId, ClientId, CommitmentPrefix, ConnectionId, PortId};
use hyperspace_core::packet::{acknowledgement_digest, Packet};
use hyperspace_core::packet_relay::RecvOutcome;
use hyperspace_core::path::Path;

const DEPTH: usize = 32;

/// A sparse hash tree over the leaves of a chain's state.
struct Tree {
    levels: Vec<BTreeMap<u64, Digest>>,
    empty: Vec<Digest>,
}

fn slot(path: &[u8]) -> u64 {
    let key = path_digest(path);
    let mut i = 0u64;
    for k in 0..DEPTH {
        if branch_is_right(&key, k) {
            i |= 1u64 << k;
        }
    }
    i
}

impl Tree {
    fn build(leaves: &[(Vec<u8>, Vec<u8>)]) -> Tree {
        let mut empty = vec![Digest { bytes: [0u8; 32] }];
        for k in 0..DEPTH {
            let e = empty[k];
            empty.push(node_digest(&e, &e));
        }
        let mut level0 = BTreeMap::new();
        for (p, v) in leaves {
            let earlier = level0.insert(slot(p), leaf_digest(p, v));
            assert!(earlier.is_none());
        }
        let mut levels = vec![level0];
        for k in 0..DEPTH {
            let mut next = BTreeMap::new();
            for (&i, _) in levels[k].iter() {
                let parent = i >> 1;
                if next.contains_key(&parent) {
                    continue;
                }
                let l = levels[k].get(&(parent << 1)).copied().unwrap_or(empty[k]);
                let r = levels[k].get(&((parent << 1) | 1)).copied().unwrap_or(empty[k]);
                next.insert(parent, node_digest(&l, &r));
            }
            levels.push(next);
        }
        Tree { levels, empty }
    }

    fn root(&self) -> Digest {
        self.levels[DEPTH].get(&0).copied().unwrap_or(self.empty[DEPTH])
    }

    fn prove(&self, path: &[u8]) -> Vec<u8> {
        let mut i = slot(path);
        let mut out = Vec::new();
        for k in 0..DEPTH {
            let d = self.levels[k].get(&(i ^ 1)).copied().unwrap_or(self.empty[k]);
            out.extend_from_slice(&d.bytes);
            i >>= 1;
        }
        out
    }
}

const CLIENT: ClientId = ClientId { index: 0 };
const CONN: ConnectionId = ConnectionId { index: 0 };
const PORT: PortId = PortId { index: 3 };
const CHAN: ChannelId = ChannelId { index: 0 };
const MAX_SEQ: u64 = 4;

/// A chain under test: its state, the tree over what it last committed, and
/// the heights of the other chain that its client was given.
struct Chain {
    host: Host,
    tree: Tree,
    seen: Vec<Height>,
}

impl Chain {
    fn new(chain_id: u64, prefix: u64, height: u64) -> Chain {
        let tree = Tree::build(&[]);
        let host = Host::new(
            chain_id,
            CommitmentPrefix::new(prefix),
            Height::new(0, height),
            1_000,
            tree.root(),
        );
        Chain { host, tree, seen: Vec::new() }
    }

    fn leaves(&self) -> Vec<(Vec<u8>, Vec<u8>)> {
        let prefix = self.host.prefix();
        let mut out = Vec::new();
        if let Some(cs) = self.host.query_client_state(CLIENT) {
            out.push(((Path::ClientState { client_id: CLIENT }).to_bytes(prefix), cs.to_bytes()));
        }
        for h in self.seen.iter() {
            if let Some(cs) = self.host.query_client_consensus(CLIENT, *h) {
                out.push((
                    (Path::ConsensusState { client_id: CLIENT, height: *h }).to_bytes(prefix),
                    cs.to_bytes(),
                ));
            }
        }
        if let Some(end) = self.host.query_connection_end(CONN) {
            out.push(((Path::Connection { connection_id: CONN }).to_bytes(prefix), end.to_bytes()));
        }
        if let Some(end) = self.host.query_channel_end(CHAN, PORT) {
            out.push((
                (Path::Channel { port_id: PORT, channel_id: CHAN }).to_bytes(prefix),
                end.to_bytes(),
            ));
            let next = self.host.query_next_sequence_recv(PORT, CHAN).unwrap();
            out.push((
                (Path::NextSequenceRecv { port_id: PORT, channel_id: CHAN }).to_bytes(prefix),
                next.to_le_bytes().to_vec(),
            ));
            for s in 1..=MAX_SEQ {
                if let Some(c) = self.host.query_packet_commitment(PORT, CHAN, s) {
                    out.push((
                        (Path::Commitment { port_id: PORT, channel_id: CHAN, sequence: s })
                            .to_bytes(prefix),
                        c.bytes.to_vec(),
                    ));
                }
                if let Some(a) = self.host.query_packet_acknowledgement(PORT, CHAN, s) {
                    out.push((
                        (Path::Acknowledgement { port_id: PORT, channel_id: CHAN, sequence: s })
                            .to_bytes(prefix),
                        a.bytes.to_vec(),
                    ));
                }
                let receipt = if self.host.query_packet_receipt(PORT, CHAN, s) {
                    vec![1u8]
                } else {
                    Vec::new()
                };
                out.push((
                    (Path::Receipt { port_id: PORT, channel_id: CHAN, sequence: s })
                        .to_bytes(prefix),
                    receipt,
                ));
            }
        }
        out
    }

    /// Commits the present state: one block further, with the root of the
    /// tree over the state.
    fn commit(&mut self) {
        self.tree = Tree::build(&self.leaves());
        let h = self.host.height();
        let moved = self.host.advance(
            Height::new(h.revision_number, h.revision_height + 1),
            self.host.timestamp() + 10,
            self.tree.root(),
        );
        assert!(moved);
    }

    fn header(&self) -> Header {
        Header {
            height: self.host.height(),
            timestamp: self.host.timestamp(),
            root: self.tree.root(),
        }
    }

    fn client_for(&self, chain_id: u64) -> (ClientState, ConsensusState) {
        (
            ClientState {
                chain_id,
                trusting_period: 1_000_000,
                latest_height: self.host.height(),
                frozen_height: None,
            },
            ConsensusState { timestamp: self.host.timestamp(), root: self.tree.root() },
        )
    }

    fn prove(&self, path: Path) -> Vec<u8> {
        self.tree.prove(&path.to_bytes(self.host.prefix()))
    }
}

/// Commits the state of `from` and hands the new header to the client on
/// `to`.
fn sync(from: &mut Chain, to: &mut Chain) {
    from.commit();
    let header = from.header();
    let r = to.host.update_client(CLIENT, header, HeaderVerdict::Valid);
    assert_eq!(r, Ok(IbcEvent::UpdateClient { client_id: CLIENT, consensus_height: header.height }));
    to.seen.push(header.height);
}

/// Chain A at height 100 and chain B at height 50, each with a client of
/// the other.
fn two_chains() -> (Chain, Chain) {
    let mut a = Chain::new(1, 7, 100);
    let mut b = Chain::new(2, 9, 50);
    let (cs_b, cons_b) = b.client_for(2);
    let (cs_a, cons_a) = a.client_for(1);
    assert_eq!(
        a.host.create_client(CLIENT, cs_b, cons_b),
        Ok(IbcEvent::CreateClient { client_id: CLIENT, consensus_height: Height::new(0, 50) })
    );
    assert_eq!(
        b.host.create_client(CLIENT, cs_a, cons_a),
        Ok(IbcEvent::CreateClient { client_id: CLIENT, consensus_height: Height::new(0, 100) })
    );
    a.seen.push(Height::new(0, 50));
    b.seen.push(Height::new(0, 100));
    (a, b)
}

fn init_msg(b: &Chain) -> MsgConnectionOpenInit {
    MsgConnectionOpenInit {
        connection_id: CONN,
        client_id: CLIENT,
        counterparty: Counterparty {
            client_id: CLIENT,
            connection_id: None,
            prefix: b.host.prefix(),
        },
        version: None,
        delay_period: 0,
    }
}

/// The message that answers the `Init` end on `a`, with proofs from what `a`
/// last committed.
fn try_msg(a: &Chain) -> MsgConnectionOpenTry {
    let consensus_height = a.host.latest_height(CLIENT).unwrap();
    MsgConnectionOpenTry {
        connection_id: CONN,
        client_id: CLIENT,
        counterparty: Counterparty {
            client_id: CLIENT,
            connection_id: Some(CONN),
            prefix: a.host.prefix(),
        },
        counterparty_version: Version::default_version(),
        delay_period: 0,
        client_state: a.host.query_client_state(CLIENT).unwrap(),
        proof_height: Some(a.host.height()),
        consensus_height: Some(consensus_height),
        connection_proof: a.prove(Path::Connection { connection_id: CONN }),
        client_proof: Some(a.prove(Path::ClientState { client_id: CLIENT })),
        consensus_proof: a.prove(Path::ConsensusState {
            client_id: CLIENT,
            height: consensus_height,
        }),
    }
}

fn ack_msg(b: &Chain) -> MsgConnectionOpenAck {
    let consensus_height = b.host.latest_height(CLIENT).unwrap();
    MsgConnectionOpenAck {
        connection_id: CONN,
        counterparty_connection_id: CONN,
        version: Version::default_version(),
        client_state: b.host.query_client_state(CLIENT).unwrap(),
        proof_height: Some(b.host.height()),
        consensus_height: Some(consensus_height),
        connection_proof: b.prove(Path::Connection { connection_id: CONN }),
        client_proof: Some(b.prove(Path::ClientState { client_id: CLIENT })),
        consensus_proof: b.prove(Path::ConsensusState {
            client_id: CLIENT,
            height: consensus_height,
        }),
    }
}

fn confirm_msg(a: &Chain) -> MsgConnectionOpenConfirm {
    MsgConnectionOpenConfirm {
        connection_id: CONN,
        proof_height: Some(a.host.height()),
        connection_proof: a.prove(Path::Connection { connection_id: CONN }),
    }
}

/// Runs the connection handshake up to and including the given step.
fn connect(a: &mut Chain, b: &mut Chain, steps: usize) {
    if steps >= 1 {
        assert_eq!(
            a.host.conn_open_init(&init_msg(b)),
            Ok(IbcEvent::OpenInitConnection { connection_id: CONN, client_id: CLIENT })
        );
    }
    if steps >= 2 {
        sync(a, b);
        assert_eq!(
            b.host.conn_open_try(&try_msg(a)),
            Ok(IbcEvent::OpenTryConnection { connection_id: CONN, client_id: CLIENT })
        );
    }
    if steps >= 3 {
        sync(b, a);
        assert_eq!(
            a.host.conn_open_ack(&ack_msg(b)),
            Ok(IbcEvent::OpenAckConnection { connection_id: CONN, client_id: CLIENT })
        );
    }
    if steps >= 4 {
        sync(a, b);
        assert_eq!(
            b.host.conn_open_confirm(&confirm_msg(a)),
            Ok(IbcEvent::OpenConfirmConnection { connection_id: CONN, client_id: CLIENT })
        );
    }
}

fn chan_init_msg(ordering: Order) -> MsgChannelOpenInit {
    MsgChannelOpenInit {
        port_id: PORT,
        channel_id: CHAN,
        ordering,
        connection_id: CONN,
        counterparty_port_id: PORT,
        version: 1,
    }
}

fn chan_try_msg(a: &Chain, ordering: Order) -> MsgChannelOpenTry {
    MsgChannelOpenTry {
        port_id: PORT,
        channel_id: CHAN,
        ordering,
        counterparty_ordering: ordering,
        connection_id: CONN,
        counterparty: ChannelCounterparty { port_id: PORT, channel_id: Some(CHAN) },
        version: 1,
        counterparty_version: 1,
        proof_height: Some(a.host.height()),
        channel_proof: a.prove(Path::Channel { port_id: PORT, channel_id: CHAN }),
    }
}

fn chan_ack_msg(b: &Chain) -> MsgChannelOpenAck {
    MsgChannelOpenAck {
        port_id: PORT,
        channel_id: CHAN,
        counterparty_channel_id: CHAN,
        counterparty_version: 1,
        proof_height: Some(b.host.height()),
        channel_proof: b.prove(Path::Channel { port_id: PORT, channel_id: CHAN }),
    }
}

fn chan_confirm_msg(a: &Chain) -> MsgChannelOpenConfirm {
    MsgChannelOpenConfirm {
        port_id: PORT,
        channel_id: CHAN,
        proof_height: Some(a.host.height()),
        channel_proof: a.prove(Path::Channel { port_id: PORT, channel_id: CHAN }),
    }
}

fn chan_event(step: usize) -> IbcEvent {
    match step {
        1 => IbcEvent::OpenInitChannel { port_id: PORT, channel_id: CHAN, connection_id: CONN },
        2 => IbcEvent::OpenTryChannel { port_id: PORT, channel_id: CHAN, connection_id: CONN },
        3 => IbcEvent::OpenAckChannel { port_id: PORT, channel_id: CHAN, connection_id: CONN },
        _ => IbcEvent::OpenConfirmChannel { port_id: PORT, channel_id: CHAN, connection_id: CONN },
    }
}

/// Runs the channel handshake over an open connection up to and including
/// the given step.
fn open_channel(a: &mut Chain, b: &mut Chain, ordering: Order, steps: usize) {
    if steps >= 1 {
        assert_eq!(a.host.chan_open_init(&chan_init_msg(ordering)), Ok(chan_event(1)));
    }
    if steps >= 2 {
        sync(a, b);
        assert_eq!(b.host.chan_open_try(&chan_try_msg(a, ordering)), Ok(chan_event(2)));
    }
    if steps >= 3 {
        sync(b, a);
        assert_eq!(a.host.chan_open_ack(&chan_ack_msg(b)), Ok(chan_event(3)));
    }
    if steps >= 4 {
        sync(a, b);
        assert_eq!(b.host.chan_open_confirm(&chan_confirm_msg(a)), Ok(chan_event(4)));
    }
}

/// Two chains with an open connection and an open channel of the given
/// order.
fn open_path(ordering: Order) -> (Chain, Chain) {
    let (mut a, mut b) = two_chains();
    connect(&mut a, &mut b, 4);
    open_channel(&mut a, &mut b, ordering, 4);
    (a, b)
}

fn packet(sequence: u64) -> Packet {
    Packet {
        sequence,
        source_port: PORT,
        source_channel: CHAN,
        destination_port: PORT,
        destination_channel: CHAN,
        data: vec![0xde, 0xad, sequence as u8],
        timeout_height: Height::new(0, 10_000),
        timeout_timestamp: 0,
    }
}

fn commitment_proof(from: &Chain, sequence: u64) -> CommitmentProof {
    CommitmentProof {
        bytes: from.prove(Path::Commitment { port_id: PORT, channel_id: CHAN, sequence }),
        height: from.host.height(),
    }
}

fn send_event(sequence: u64) -> IbcEvent {
    IbcEvent::SendPacket { port_id: PORT, channel_id: CHAN, sequence }
}

#[test]
fn handshake_opens_both_connection_ends() {
    let (mut a, mut b) = two_chains();
    assert_eq!(a.host.height(), Height::new(0, 100));
    assert_eq!(b.host.height(), Height::new(0, 50));
    connect(&mut a, &mut b, 4);
    let end_a = a.host.query_connection_end(CONN).unwrap();
    let end_b = b.host.query_connection_end(CONN).unwrap();
    assert_eq!(end_a.state, ConnectionState::Open);
    assert_eq!(end_b.state, ConnectionState::Open);
    assert_eq!(end_a.counterparty.connection_id, Some(CONN));
    assert_eq!(end_b.counterparty.connection_id, Some(CONN));
    assert_eq!(end_a.version, Version::default_version());
    assert_eq!(end_b.version, Version::default_version());
    assert_eq!(
        a.host.chan_open_init(&chan_init_msg(Order::Unordered)),
        Ok(chan_event(1))
    );
    assert_eq!(
        b.host.chan_open_init(&chan_init_msg(Order::Ordered)),
        Ok(chan_event(1))
    );
}

#[test]
fn channel_init_needs_an_open_connection() {
    for steps in 0..4 {
        let (mut a, mut b) = two_chains();
        connect(&mut a, &mut b, steps);
        let on_a = a.host.chan_open_init(&chan_init_msg(Order::Unordered));
        let on_b = b.host.chan_open_init(&chan_init_msg(Order::Unordered));
        let missing = Err(ChannelError::Connection(ConnectionError::ConnectionNotFound {
            connection_id: CONN,
        }));
        let not_open = Err(ChannelError::ConnectionNotOpen { connection_id: CONN });
        match steps {
            0 => {
                assert_eq!(on_a, missing);
                assert_eq!(on_b, missing);
            }
            1 => {
                assert_eq!(on_a, not_open);
                assert_eq!(on_b, missing);
            }
            2 => {
                assert_eq!(on_a, not_open);
                assert_eq!(on_b, not_open);
            }
            _ => {
                assert_eq!(on_a, Ok(chan_event(1)));
                assert_eq!(on_b, not_open);
            }
        }
    }
}

#[test]
fn ordered_channel_receives_in_sequence() {
    let (mut a, mut b) = open_path(Order::Ordered);
    for s in 1..=3 {
        assert_eq!(a.host.verify_and_record_send(&packet(s)), Ok(send_event(s)));
    }
    sync(&mut a, &mut b);
    assert_eq!(
        b.host.verify_and_record_recv(&packet(2), &commitment_proof(&a, 2)),
        Err(PacketError::SequenceMismatch { expected: 1, received: 2 })
    );
    assert_eq!(b.host.query_next_sequence_recv(PORT, CHAN), Some(1));
    for s in 1..=3 {
        assert_eq!(
            b.host.verify_and_record_recv(&packet(s), &commitment_proof(&a, s)),
            Ok(RecvOutcome::Received)
        );
    }
    assert_eq!(b.host.query_next_sequence_recv(PORT, CHAN), Some(4));
}

#[test]
fn open_connection_refuses_every_handshake_message() {
    let (mut a, mut b) = two_chains();
    connect(&mut a, &mut b, 4);
    sync(&mut a, &mut b);
    sync(&mut b, &mut a);
    let exists = Err(ConnectionError::ConnectionExistsAlready { connection_id: CONN });
    let before_a = a.host.query_connection_end(CONN);
    let before_b = b.host.query_connection_end(CONN);
    assert_eq!(a.host.conn_open_init(&init_msg(&b)), exists);
    assert_eq!(b.host.conn_open_try(&try_msg(&a)), exists);
    assert_eq!(a.host.conn_open_ack(&ack_msg(&b)), exists);
    assert_eq!(b.host.conn_open_confirm(&confirm_msg(&a)), exists);
    assert_eq!(b.host.conn_open_init(&init_msg(&a)), exists);
    assert_eq!(a.host.conn_open_try(&try_msg(&b)), exists);
    assert_eq!(a.host.query_connection_end(CONN), before_a);
    assert_eq!(b.host.query_connection_end(CONN), before_b);
}

#[test]
fn earlier_connection_ends_refuse_repeated_creation() {
    let (mut a, mut b) = two_chains();
    connect(&mut a, &mut b, 2);
    let exists = Err(ConnectionError::ConnectionExistsAlready { connection_id: CONN });
    assert_eq!(a.host.conn_open_init(&init_msg(&b)), exists);
    assert_eq!(b.host.conn_open_try(&try_msg(&a)), exists);
    assert_eq!(a.host.query_connection_end(CONN).unwrap().state, ConnectionState::Init);
    assert_eq!(b.host.query_connection_end(CONN).unwrap().state, ConnectionState::TryOpen);
}

#[test]
fn open_channel_refuses_every_handshake_message() {
    let (mut a, mut b) = open_path(Order::Unordered);
    sync(&mut a, &mut b);
    sync(&mut b, &mut a);
    let exists = Err(ChannelError::ChannelExistsAlready { port_id: PORT, channel_id: CHAN });
    let before_a = a.host.query_channel_end(CHAN, PORT);
    let before_b = b.host.query_channel_end(CHAN, PORT);
    assert_eq!(before_a.unwrap().state, ChannelState::Open);
    assert_eq!(before_b.unwrap().state, ChannelState::Open);
    assert_eq!(a.host.chan_open_init(&chan_init_msg(Order::Unordered)), exists);
    assert_eq!(b.host.chan_open_try(&chan_try_msg(&a, Order::Unordered)), exists);
    assert_eq!(a.host.chan_open_ack(&chan_ack_msg(&b)), exists);
    assert_eq!(b.host.chan_open_confirm(&chan_confirm_msg(&a)), exists);
    assert_eq!(a.host.query_channel_end(CHAN, PORT), before_a);
    assert_eq!(b.host.query_channel_end(CHAN, PORT), before_b);
}

#[test]
fn channel_ends_after_the_handshake() {
    let (a, b) = open_path(Order::Ordered);
    let expected = ChannelEnd {
        state: ChannelState::Open,
        ordering: Order::Ordered,
        counterparty: ChannelCounterparty { port_id: PORT, channel_id: Some(CHAN) },
        connection_id: CONN,
        version: 1,
    };
    assert_eq!(a.host.query_channel_end(CHAN, PORT), Some(expected));
    assert_eq!(b.host.query_channel_end(CHAN, PORT), Some(expected));
    assert_eq!(a.host.query_channel_end(CHAN, PortId::new(4)), None);
    assert_eq!(a.host.query_next_sequence_send(PORT, CHAN), Some(1));
    assert_eq!(a.host.query_next_sequence_recv(PORT, CHAN), Some(1));
    assert!(a.host.has_channel(CHAN));
    assert!(!a.host.has_channel(ChannelId::new(1)));
}

#[test]
fn receive_twice_is_a_no_op_the_second_time() {
    for ordering in [Order::Unordered, Order::Ordered] {
        let (mut a, mut b) = open_path(ordering);
        assert_eq!(a.host.verify_and_record_send(&packet(1)), Ok(send_event(1)));
        sync(&mut a, &mut b);
        let proof = commitment_proof(&a, 1);
        assert!(!b.host.query_packet_receipt(PORT, CHAN, 1));
        assert_eq!(b.host.verify_and_record_recv(&packet(1), &proof), Ok(RecvOutcome::Received));
        assert!(b.host.query_packet_receipt(PORT, CHAN, 1));
        let next = b.host.query_next_sequence_recv(PORT, CHAN);
        assert_eq!(b.host.verify_and_record_recv(&packet(1), &proof), Ok(RecvOutcome::Duplicate));
        assert!(b.host.query_packet_receipt(PORT, CHAN, 1));
        assert_eq!(b.host.query_next_sequence_recv(PORT, CHAN), next);
        assert_eq!(next, Some(if ordering == Order::Ordered { 2 } else { 1 }));
    }
}

#[test]
fn unreceived_packets_are_those_without_receipt() {
    let (mut a, mut b) = open_path(Order::Unordered);
    for s in 1..=4 {
        assert_eq!(a.host.verify_and_record_send(&packet(s)), Ok(send_event(s)));
    }
    assert_eq!(a.host.query_next_sequence_send(PORT, CHAN), Some(5));
    assert_eq!(a.host.query_packet_commitments(CHAN, PORT), vec![1, 2, 3, 4]);
    sync(&mut a, &mut b);
    assert_eq!(b.host.query_unreceived_packets(CHAN, PORT, vec![1, 2, 3, 4]), vec![1, 2, 3, 4]);
    for s in [3, 2] {
        assert_eq!(
            b.host.verify_and_record_recv(&packet(s), &commitment_proof(&a, s)),
            Ok(RecvOutcome::Received)
        );
    }
    assert_eq!(b.host.query_unreceived_packets(CHAN, PORT, vec![1, 2, 3, 4]), vec![1, 4]);
    assert_eq!(b.host.query_unreceived_packets(CHAN, PORT, vec![4, 3, 9, 1]), vec![4, 9, 1]);
    assert_eq!(b.host.query_unreceived_packets(CHAN, PORT, vec![]), Vec::<u64>::new());
    assert_eq!(
        b.host.query_unreceived_packets(ChannelId::new(8), PORT, vec![1, 2]),
        Vec::<u64>::new()
    );
}

#[test]
fn acknowledgement_clears_the_commitment() {
    let (mut a, mut b) = open_path(Order::Unordered);
    for s in 1..=3 {
        assert_eq!(a.host.verify_and_record_send(&packet(s)), Ok(send_event(s)));
    }
    sync(&mut a, &mut b);
    for s in [2, 3] {
        assert_eq!(
            b.host.verify_and_record_recv(&packet(s), &commitment_proof(&a, s)),
            Ok(RecvOutcome::Received)
        );
    }
    let ack = vec![1u8, 2, 3];
    assert_eq!(
        b.host.write_acknowledgement(&packet(1), &ack),
        Err(PacketError::PacketNotReceived { sequence: 1 })
    );
    for s in [3, 2] {
        assert_eq!(
            b.host.write_acknowledgement(&packet(s), &ack),
            Ok(IbcEvent::WriteAcknowledgement { port_id: PORT, channel_id: CHAN, sequence: s })
        );
    }
    assert_eq!(
        b.host.write_acknowledgement(&packet(2), &ack),
        Err(PacketError::AcknowledgementExists { sequence: 2 })
    );
    assert_eq!(b.host.query_packet_acknowledgements(CHAN, PORT), vec![3, 2]);
    assert_eq!(b.host.query_packet_acknowledgement(PORT, CHAN, 2), Some(acknowledgement_digest(&ack)));
    assert_eq!(b.host.query_packet_acknowledgement(PORT, CHAN, 1), None);
    sync(&mut b, &mut a);
    assert_eq!(a.host.query_unreceived_acknowledgements(CHAN, PORT, vec![1, 2, 3]), vec![1, 2, 3]);
    let proof = CommitmentProof {
        bytes: b.prove(Path::Acknowledgement { port_id: PORT, channel_id: CHAN, sequence: 2 }),
        height: b.host.height(),
    };
    assert_eq!(
        a.host.verify_and_record_ack(&packet(2), &[9u8], &proof),
        Err(PacketError::PacketVerificationFailure { sequence: 2 })
    );
    let mut other = packet(2);
    other.data.push(0);
    assert_eq!(
        a.host.verify_and_record_ack(&other, &ack, &proof),
        Err(PacketError::IncorrectPacketCommitment { sequence: 2 })
    );
    assert_eq!(a.host.query_packet_commitment(PORT, CHAN, 2), Some(packet(2).commitment()));
    assert_eq!(
        a.host.verify_and_record_ack(&packet(2), &ack, &proof),
        Ok(IbcEvent::AcknowledgePacket { port_id: PORT, channel_id: CHAN, sequence: 2 })
    );
    assert_eq!(a.host.query_packet_commitment(PORT, CHAN, 2), None);
    assert_eq!(a.host.query_packet_commitments(CHAN, PORT), vec![1, 3]);
    assert_eq!(a.host.query_unreceived_acknowledgements(CHAN, PORT, vec![1, 2, 3]), vec![1, 3]);
    assert_eq!(
        a.host.verify_and_record_ack(&packet(2), &ack, &proof),
        Err(PacketError::PacketCommitmentNotFound { sequence: 2 })
    );
}

#[test]
fn ordered_acknowledgements_come_in_sequence() {
    let (mut a, mut b) = open_path(Order::Ordered);
    for s in 1..=2 {
        assert_eq!(a.host.verify_and_record_send(&packet(s)), Ok(send_event(s)));
    }
    sync(&mut a, &mut b);
    for s in 1..=2 {
        assert_eq!(
            b.host.verify_and_record_recv(&packet(s), &commitment_proof(&a, s)),
            Ok(RecvOutcome::Received)
        );
        assert!(b.host.write_acknowledgement(&packet(s), &[s as u8]).is_ok());
    }
    sync(&mut b, &mut a);
    let proof = |s: u64| CommitmentProof {
        bytes: b.prove(Path::Acknowledgement { port_id: PORT, channel_id: CHAN, sequence: s }),
        height: b.host.height(),
    };
    assert_eq!(
        a.host.verify_and_record_ack(&packet(2), &[2u8], &proof(2)),
        Err(PacketError::SequenceMismatch { expected: 1, received: 2 })
    );
    assert_eq!(a.host.query_packet_commitments(CHAN, PORT), vec![1, 2]);
    for s in 1..=2 {
        assert_eq!(
            a.host.verify_and_record_ack(&packet(s), &[s as u8], &proof(s)),
            Ok(IbcEvent::AcknowledgePacket { port_id: PORT, channel_id: CHAN, sequence: s })
        );
    }
    assert_eq!(a.host.query_packet_commitments(CHAN, PORT), Vec::<u64>::new());
}

fn short_lived(sequence: u64, b: &Chain) -> Packet {
    let mut p = packet(sequence);
    p.timeout_height = Height::new(0, b.host.height().revision_height + 2);
    p
}

#[test]
fn timeout_on_an_unordered_channel() {
    let (mut a, mut b) = open_path(Order::Unordered);
    let p = short_lived(1, &b);
    assert_eq!(a.host.verify_and_record_send(&p), Ok(send_event(1)));
    sync(&mut b, &mut a);
    let absent = |b: &Chain| CommitmentProof {
        bytes: b.prove(Path::Receipt { port_id: PORT, channel_id: CHAN, sequence: 1 }),
        height: b.host.height(),
    };
    assert_eq!(
        a.host.verify_and_record_timeout(&p, 0, &absent(&b)),
        Err(PacketError::TimeoutNotReached {
            timeout_height: p.timeout_height,
            proof_height: b.host.height(),
        })
    );
    sync(&mut b, &mut a);
    assert_eq!(b.host.height(), p.timeout_height);
    sync(&mut a, &mut b);
    assert_eq!(
        b.host.verify_and_record_recv(&p, &commitment_proof(&a, 1)),
        Err(PacketError::TimedOutHeight {
            timeout_height: p.timeout_height,
            current_height: b.host.height(),
        })
    );
    assert_eq!(
        a.host.verify_and_record_timeout(&p, 0, &absent(&b)),
        Ok(IbcEvent::TimeoutPacket { port_id: PORT, channel_id: CHAN, sequence: 1 })
    );
    assert_eq!(a.host.query_packet_commitment(PORT, CHAN, 1), None);
    assert_eq!(a.host.query_channel_end(CHAN, PORT).unwrap().state, ChannelState::Open);
    assert_eq!(
        a.host.verify_and_record_timeout(&p, 0, &absent(&b)),
        Err(PacketError::PacketCommitmentNotFound { sequence: 1 })
    );
}

#[test]
fn timeout_is_refused_for_a_received_packet() {
    let (mut a, mut b) = open_path(Order::Unordered);
    let p = short_lived(1, &b);
    assert_eq!(a.host.verify_and_record_send(&p), Ok(send_event(1)));
    sync(&mut a, &mut b);
    assert_eq!(
        b.host.verify_and_record_recv(&p, &commitment_proof(&a, 1)),
        Ok(RecvOutcome::Received)
    );
    sync(&mut b, &mut a);
    sync(&mut b, &mut a);
    let proof = CommitmentProof {
        bytes: b.prove(Path::Receipt { port_id: PORT, channel_id: CHAN, sequence: 1 }),
        height: b.host.height(),
    };
    assert_eq!(
        a.host.verify_and_record_timeout(&p, 0, &proof),
        Err(PacketError::PacketVerificationFailure { sequence: 1 })
    );
    assert_eq!(a.host.query_packet_commitment(PORT, CHAN, 1), Some(p.commitment()));
}

#[test]
fn timeout_closes_an_ordered_channel() {
    let (mut a, mut b) = open_path(Order::Ordered);
    let p = short_lived(1, &b);
    assert_eq!(a.host.verify_and_record_send(&p), Ok(send_event(1)));
    sync(&mut b, &mut a);
    sync(&mut b, &mut a);
    let proof = CommitmentProof {
        bytes: b.prove(Path::NextSequenceRecv { port_id: PORT, channel_id: CHAN }),
        height: b.host.height(),
    };
    assert_eq!(
        a.host.verify_and_record_timeout(&p, 2, &proof),
        Err(PacketError::PacketAlreadyReceived { sequence: 1 })
    );
    assert_eq!(
        a.host.verify_and_record_timeout(&p, 0, &proof),
        Err(PacketError::PacketVerificationFailure { sequence: 1 })
    );
    assert_eq!(
        a.host.verify_and_record_timeout(&p, 1, &proof),
        Ok(IbcEvent::TimeoutPacket { port_id: PORT, channel_id: CHAN, sequence: 1 })
    );
    assert_eq!(a.host.query_channel_end(CHAN, PORT).unwrap().state, ChannelState::Closed);
    let closed = ChannelError::ChannelClosed { port_id: PORT, channel_id: CHAN };
    assert_eq!(a.host.verify_and_record_send(&packet(2)), Err(PacketError::Channel(closed)));
    assert_eq!(
        a.host.verify_and_record_recv(&packet(1), &proof),
        Err(PacketError::Channel(closed))
    );
    assert_eq!(
        a.host.chan_close_init(&MsgChannelCloseInit { port_id: PORT, channel_id: CHAN }),
        Err(closed)
    );
    assert_eq!(a.host.chan_open_ack(&chan_ack_msg(&b)), Err(closed));
    sync(&mut a, &mut b);
    assert_eq!(
        b.host.chan_close_confirm(&MsgChannelCloseConfirm {
            port_id: PORT,
            channel_id: CHAN,
            proof_height: Some(a.host.height()),
            channel_proof: a.prove(Path::Channel { port_id: PORT, channel_id: CHAN }),
        }),
        Ok(IbcEvent::CloseConfirmChannel { port_id: PORT, channel_id: CHAN, connection_id: CONN })
    );
    assert_eq!(b.host.query_channel_end(CHAN, PORT).unwrap().state, ChannelState::Closed);
}

#[test]
fn closing_a_channel_by_hand() {
    let (mut a, mut b) = open_path(Order::Unordered);
    assert_eq!(
        a.host.chan_close_init(&MsgChannelCloseInit { port_id: PORT, channel_id: CHAN }),
        Ok(IbcEvent::CloseInitChannel { port_id: PORT, channel_id: CHAN, connection_id: CONN })
    );
    assert_eq!(a.host.query_channel_end(CHAN, PORT).unwrap().state, ChannelState::Closed);
    let stale = MsgChannelCloseConfirm {
        port_id: PORT,
        channel_id: CHAN,
        proof_height: Some(a.host.height()),
        channel_proof: a.prove(Path::Channel { port_id: PORT, channel_id: CHAN }),
    };
    assert_eq!(b.host.chan_close_confirm(&stale), Err(ChannelError::ChannelVerificationFailure));
    assert_eq!(b.host.query_channel_end(CHAN, PORT).unwrap().state, ChannelState::Open);
    let (mut c, mut d) = two_chains();
    connect(&mut c, &mut d, 4);
    open_channel(&mut c, &mut d, Order::Unordered, 1);
    assert_eq!(
        c.host.chan_close_init(&MsgChannelCloseInit { port_id: PORT, channel_id: CHAN }),
        Err(ChannelError::ChannelNotOpen { port_id: PORT, channel_id: CHAN })
    );
    assert_eq!(
        c.host.verify_and_record_send(&packet(1)),
        Err(PacketError::Channel(ChannelError::ChannelNotOpen { port_id: PORT, channel_id: CHAN }))
    );
}

#[test]
fn every_changed_proof_byte_is_rejected() {
    let (mut a, mut b) = open_path(Order::Unordered);
    assert_eq!(a.host.verify_and_record_send(&packet(1)), Ok(send_event(1)));
    sync(&mut a, &mut b);
    let good = commitment_proof(&a, 1);
    assert_eq!(good.bytes.len(), 32 * DEPTH);
    for i in 0..good.bytes.len() {
        let mut bytes = good.bytes.clone();
        bytes[i] ^= 1 << (i % 8);
        let bad = CommitmentProof { bytes, height: good.height };
        assert_eq!(
            b.host.verify_and_record_recv(&packet(1), &bad),
            Err(PacketError::PacketVerificationFailure { sequence: 1 })
        );
    }
    assert!(!b.host.query_packet_receipt(PORT, CHAN, 1));
    let mut cut = good.bytes.clone();
    cut.pop();
    assert_eq!(
        b.host.verify_and_record_recv(&packet(1), &CommitmentProof { bytes: cut, height: good.height }),
        Err(PacketError::InvalidProof(ProofError::Malformed { length: 32 * DEPTH - 1 }))
    );
    let long = vec![0u8; 32 * 257];
    assert_eq!(
        b.host.verify_and_record_recv(&packet(1), &CommitmentProof { bytes: long, height: good.height }),
        Err(PacketError::InvalidProof(ProofError::Malformed { length: 32 * 257 }))
    );
    let mut changed = packet(1);
    changed.data[0] ^= 1;
    assert_eq!(
        b.host.verify_and_record_recv(&changed, &good),
        Err(PacketError::PacketVerificationFailure { sequence: 1 })
    );
    let mut later = packet(1);
    later.timeout_height = Height::new(0, 10_001);
    assert_eq!(
        b.host.verify_and_record_recv(&later, &good),
        Err(PacketError::PacketVerificationFailure { sequence: 1 })
    );
    assert_eq!(b.host.verify_and_record_recv(&packet(1), &good), Ok(RecvOutcome::Received));
}

#[test]
fn frozen_client_rejects_everything() {
    let (mut a, mut b) = open_path(Order::Unordered);
    assert_eq!(a.host.verify_and_record_send(&packet(1)), Ok(send_event(1)));
    sync(&mut a, &mut b);
    let proof = commitment_proof(&a, 1);
    let at = Height::new(0, 500);
    let conflicting = Header { height: at, timestamp: 5, root: Digest { bytes: [7u8; 32] } };
    assert_eq!(
        b.host.update_client(CLIENT, conflicting, HeaderVerdict::Misbehaviour),
        Ok(IbcEvent::ClientMisbehaviour { client_id: CLIENT, frozen_height: at })
    );
    assert_eq!(b.host.query_client_state(CLIENT).unwrap().frozen_height, Some(at));
    let frozen_packet =
        Err(PacketError::Channel(ChannelError::FrozenClient { client_id: CLIENT }));
    assert_eq!(b.host.verify_and_record_recv(&packet(1), &proof), frozen_packet);
    assert!(!b.host.query_packet_receipt(PORT, CHAN, 1));
    let frozen = ClientError::ClientFrozen { client_id: CLIENT, frozen_height: at };
    a.commit();
    assert_eq!(b.host.update_client(CLIENT, a.header(), HeaderVerdict::Valid), Err(frozen));
    assert_eq!(b.host.update_client(CLIENT, a.header(), HeaderVerdict::Misbehaviour), Err(frozen));
    assert_eq!(
        b.host.verify_stored(CLIENT, proof.height, &proof.bytes, &[1u8], &[2u8]),
        Err(frozen)
    );
    assert_eq!(
        b.host.verify_packet_commitment(
            CLIENT,
            a.host.prefix(),
            proof.height,
            &proof.bytes,
            PORT,
            CHAN,
            1,
            &packet(1).commitment()
        ),
        Err(frozen)
    );
    assert_eq!(b.host.trusted_consensus_state(CLIENT, proof.height), Err(frozen));
    let mut init = init_msg(&a);
    init.connection_id = ConnectionId::new(5);
    assert_eq!(
        b.host.conn_open_init(&init),
        Err(ConnectionError::FrozenClient { client_id: CLIENT })
    );
    assert_eq!(
        b.host.chan_close_confirm(&MsgChannelCloseConfirm {
            port_id: PORT,
            channel_id: CHAN,
            proof_height: Some(a.host.height()),
            channel_proof: a.prove(Path::Channel { port_id: PORT, channel_id: CHAN }),
        }),
        Err(ChannelError::FrozenClient { client_id: CLIENT })
    );
    assert_eq!(b.host.query_client_state(CLIENT).unwrap().frozen_height, Some(at));
}

#[test]
fn connection_init_errors() {
    let (mut a, b) = two_chains();
    let mut msg = init_msg(&b);
    msg.client_id = ClientId::new(9);
    assert_eq!(
        a.host.conn_open_init(&msg),
        Err(ConnectionError::Ics02Client(ClientError::ClientNotFound {
            client_id: ClientId::new(9)
        }))
    );
    let mut msg = init_msg(&b);
    msg.version = Some(Version {
        identifier: 1,
        features: FeatureSet { ordered: false, unordered: false },
    });
    assert_eq!(a.host.conn_open_init(&msg), Err(ConnectionError::EmptyFeatures));
    msg.version = Some(Version { identifier: 2, features: FeatureSet::all() });
    assert_eq!(a.host.conn_open_init(&msg), Err(ConnectionError::NoCommonVersion));
    assert_eq!(a.host.query_connection_end(CONN), None);
    msg.version = Some(Version {
        identifier: 1,
        features: FeatureSet { ordered: true, unordered: false },
    });
    msg.delay_period = 12;
    assert!(a.host.conn_open_init(&msg).is_ok());
    assert_eq!(
        a.host.query_connection_end(CONN),
        Some(ConnectionEnd {
            state: ConnectionState::Init,
            client_id: CLIENT,
            counterparty: Counterparty {
                client_id: CLIENT,
                connection_id: None,
                prefix: CommitmentPrefix::new(9),
            },
            version: Version {
                identifier: 1,
                features: FeatureSet { ordered: true, unordered: false },
            },
            delay_period: 12,
        })
    );
}

#[test]
fn connection_try_errors() {
    let (mut a, mut b) = two_chains();
    connect(&mut a, &mut b, 1);
    sync(&mut a, &mut b);
    let mut msg = try_msg(&a);
    msg.proof_height = None;
    assert_eq!(b.host.conn_open_try(&msg), Err(ConnectionError::MissingProofHeight));
    let mut msg = try_msg(&a);
    msg.consensus_height = None;
    assert_eq!(b.host.conn_open_try(&msg), Err(ConnectionError::MissingConsensusHeight));
    let mut msg = try_msg(&a);
    msg.client_proof = None;
    assert_eq!(b.host.conn_open_try(&msg), Err(ConnectionError::NullClientProof));
    let mut msg = try_msg(&a);
    msg.counterparty.connection_id = None;
    assert_eq!(b.host.conn_open_try(&msg), Err(ConnectionError::MissingCounterparty));
    let mut msg = try_msg(&a);
    msg.client_id = ClientId::new(4);
    assert_eq!(
        b.host.conn_open_try(&msg),
        Err(ConnectionError::Ics02Client(ClientError::ClientNotFound {
            client_id: ClientId::new(4)
        }))
    );
    let mut msg = try_msg(&a);
    msg.consensus_height = Some(Height::new(0, 10_000));
    assert_eq!(
        b.host.conn_open_try(&msg),
        Err(ConnectionError::InvalidConsensusHeight {
            target_height: Height::new(0, 10_000),
            current_height: b.host.height(),
        })
    );
    let mut msg = try_msg(&a);
    msg.counterparty_version = Version { identifier: 2, features: FeatureSet::all() };
    assert_eq!(b.host.conn_open_try(&msg), Err(ConnectionError::NoCommonVersion));
    let mut msg = try_msg(&a);
    msg.proof_height = Some(Height::new(0, 9_999));
    assert_eq!(
        b.host.conn_open_try(&msg),
        Err(ConnectionError::Ics02Client(ClientError::HeightOutOfRange {
            height: Height::new(0, 9_999),
            latest_height: a.host.height(),
        }))
    );
    let mut msg = try_msg(&a);
    msg.proof_height = Some(Height::new(0, 3));
    assert_eq!(
        b.host.conn_open_try(&msg),
        Err(ConnectionError::Ics02Client(ClientError::ConsensusStateNotFound {
            client_id: CLIENT,
            height: Height::new(0, 3),
        }))
    );
    let mut msg = try_msg(&a);
    msg.connection_proof = vec![0u8; 33];
    assert_eq!(
        b.host.conn_open_try(&msg),
        Err(ConnectionError::InvalidProof(ProofError::Malformed { length: 33 }))
    );
    let mut msg = try_msg(&a);
    msg.connection_proof[40] ^= 0x80;
    assert_eq!(b.host.conn_open_try(&msg), Err(ConnectionError::ConnectionVerificationFailure));
    let mut msg = try_msg(&a);
    msg.delay_period = 1;
    assert_eq!(b.host.conn_open_try(&msg), Err(ConnectionError::ConnectionVerificationFailure));
    let mut msg = try_msg(&a);
    msg.client_state.chain_id = 77;
    assert_eq!(
        b.host.conn_open_try(&msg),
        Err(ConnectionError::ConnectionMismatch { connection_id: CONN })
    );
    let mut msg = try_msg(&a);
    msg.client_state.trusting_period += 1;
    assert_eq!(
        b.host.conn_open_try(&msg),
        Err(ConnectionError::ClientStateVerificationFailure {
            client_id: CLIENT,
            source: ProofError::VerificationFailed,
        })
    );
    let mut msg = try_msg(&a);
    msg.client_proof = Some(vec![1u8]);
    assert_eq!(
        b.host.conn_open_try(&msg),
        Err(ConnectionError::ClientStateVerificationFailure {
            client_id: CLIENT,
            source: ProofError::Malformed { length: 1 },
        })
    );
    let mut msg = try_msg(&a);
    msg.consensus_proof[0] ^= 1;
    assert_eq!(
        b.host.conn_open_try(&msg),
        Err(ConnectionError::ConsensusStateVerificationFailure {
            height: Height::new(0, 50),
            source: ProofError::VerificationFailed,
        })
    );
    assert_eq!(b.host.query_connection_end(CONN), None);
    assert!(b.host.conn_open_try(&try_msg(&a)).is_ok());
}

#[test]
fn consensus_height_must_be_kept() {
    let (mut a, mut b) = two_chains();
    connect(&mut a, &mut b, 1);
    sync(&mut a, &mut b);
    b.commit();
    assert!(!b.host.prune(Height::new(0, 49)));
    assert!(!b.host.prune(Height::new(0, 52)));
    assert_eq!(b.host.oldest_height(), Height::new(0, 50));
    assert!(b.host.prune(Height::new(0, 51)));
    assert_eq!(b.host.oldest_height(), Height::new(0, 51));
    assert_eq!(
        b.host.conn_open_try(&try_msg(&a)),
        Err(ConnectionError::StaleConsensusHeight {
            target_height: Height::new(0, 50),
            oldest_height: Height::new(0, 51),
        })
    );
    assert!(b.host.advance(Height::new(0, 60), b.host.timestamp(), Digest { bytes: [1u8; 32] }));
    let mut msg = try_msg(&a);
    msg.consensus_height = Some(Height::new(0, 55));
    assert_eq!(
        b.host.conn_open_try(&msg),
        Err(ConnectionError::MissingLocalConsensusState { height: Height::new(0, 55) })
    );
}

#[test]
fn connection_ack_and_confirm_errors() {
    let (mut a, mut b) = two_chains();
    connect(&mut a, &mut b, 2);
    sync(&mut b, &mut a);
    let mut msg = ack_msg(&b);
    msg.connection_id = ConnectionId::new(9);
    assert_eq!(
        a.host.conn_open_ack(&msg),
        Err(ConnectionError::ConnectionNotFound { connection_id: ConnectionId::new(9) })
    );
    assert_eq!(
        b.host.conn_open_ack(&ack_msg(&b)),
        Err(ConnectionError::ConnectionMismatch { connection_id: CONN })
    );
    assert_eq!(
        a.host.conn_open_confirm(&confirm_msg(&b)),
        Err(ConnectionError::ConnectionMismatch { connection_id: CONN })
    );
    let mut msg = confirm_msg(&a);
    msg.connection_id = ConnectionId::new(9);
    assert_eq!(
        b.host.conn_open_confirm(&msg),
        Err(ConnectionError::ConnectionNotFound { connection_id: ConnectionId::new(9) })
    );
    let mut msg = ack_msg(&b);
    msg.version = Version { identifier: 2, features: FeatureSet::all() };
    assert_eq!(a.host.conn_open_ack(&msg), Err(ConnectionError::NoCommonVersion));
    let mut msg = ack_msg(&b);
    msg.version.features = FeatureSet { ordered: false, unordered: false };
    assert_eq!(a.host.conn_open_ack(&msg), Err(ConnectionError::NoCommonVersion));
    let mut msg = ack_msg(&b);
    msg.proof_height = None;
    assert_eq!(a.host.conn_open_ack(&msg), Err(ConnectionError::MissingProofHeight));
    let mut msg = ack_msg(&b);
    msg.consensus_height = None;
    assert_eq!(a.host.conn_open_ack(&msg), Err(ConnectionError::MissingConsensusHeight));
    let mut msg = ack_msg(&b);
    msg.client_proof = None;
    assert_eq!(a.host.conn_open_ack(&msg), Err(ConnectionError::NullClientProof));
    let mut msg = ack_msg(&b);
    msg.client_state.chain_id = 2;
    assert_eq!(
        a.host.conn_open_ack(&msg),
        Err(ConnectionError::ConnectionMismatch { connection_id: CONN })
    );
    let mut msg = ack_msg(&b);
    msg.counterparty_connection_id = ConnectionId::new(1);
    assert_eq!(a.host.conn_open_ack(&msg), Err(ConnectionError::ConnectionVerificationFailure));
    assert_eq!(a.host.query_connection_end(CONN).unwrap().state, ConnectionState::Init);
    assert!(a.host.conn_open_ack(&ack_msg(&b)).is_ok());
    sync(&mut a, &mut b);
    let mut msg = confirm_msg(&a);
    msg.proof_height = None;
    assert_eq!(b.host.conn_open_confirm(&msg), Err(ConnectionError::MissingProofHeight));
    let mut msg = confirm_msg(&a);
    msg.connection_proof[0] ^= 1;
    assert_eq!(b.host.conn_open_confirm(&msg), Err(ConnectionError::ConnectionVerificationFailure));
    assert_eq!(b.host.query_connection_end(CONN).unwrap().state, ConnectionState::TryOpen);
}

#[test]
fn counterparty_connection_id_must_not_diverge() {
    let (mut a, mut b) = two_chains();
    let mut msg = init_msg(&b);
    msg.counterparty.connection_id = Some(ConnectionId::new(5));
    assert!(a.host.conn_open_init(&msg).is_ok());
    sync(&mut b, &mut a);
    assert_eq!(
        a.host.conn_open_ack(&ack_msg(&b)),
        Err(ConnectionError::ConnectionIdMismatch {
            connection_id: ConnectionId::new(5),
            counterparty_connection_id: CONN,
        })
    );
}

/// An open connection whose version offers unordered delivery only.
fn unordered_only() -> (Chain, Chain) {
    let narrow = Version {
        identifier: 1,
        features: FeatureSet { ordered: false, unordered: true },
    };
    let (mut a, mut b) = two_chains();
    let mut msg = init_msg(&b);
    msg.version = Some(narrow);
    assert!(a.host.conn_open_init(&msg).is_ok());
    sync(&mut a, &mut b);
    let mut msg = try_msg(&a);
    msg.counterparty_version = narrow;
    assert!(b.host.conn_open_try(&msg).is_ok());
    assert_eq!(b.host.query_connection_end(CONN).unwrap().version, narrow);
    sync(&mut b, &mut a);
    let mut msg = ack_msg(&b);
    msg.version = narrow;
    assert!(a.host.conn_open_ack(&msg).is_ok());
    sync(&mut a, &mut b);
    assert!(b.host.conn_open_confirm(&confirm_msg(&a)).is_ok());
    (a, b)
}

#[test]
fn channel_handshake_errors() {
    let (mut a, mut b) = unordered_only();
    assert_eq!(
        a.host.chan_open_init(&chan_init_msg(Order::Ordered)),
        Err(ChannelError::OrderingNotSupported { ordered: true })
    );
    open_channel(&mut a, &mut b, Order::Unordered, 1);
    sync(&mut a, &mut b);
    let mut msg = chan_try_msg(&a, Order::Unordered);
    msg.ordering = Order::Ordered;
    assert_eq!(
        b.host.chan_open_try(&msg),
        Err(ChannelError::OrderingMismatch { ordered: true, counterparty_ordered: false })
    );
    assert_eq!(
        b.host.chan_open_try(&chan_try_msg(&a, Order::Ordered)),
        Err(ChannelError::OrderingNotSupported { ordered: true })
    );
    let mut msg = chan_try_msg(&a, Order::Unordered);
    msg.proof_height = None;
    assert_eq!(b.host.chan_open_try(&msg), Err(ChannelError::MissingProofHeight));
    let mut msg = chan_try_msg(&a, Order::Unordered);
    msg.counterparty.channel_id = None;
    assert_eq!(b.host.chan_open_try(&msg), Err(ChannelError::MissingCounterparty));
    let mut msg = chan_try_msg(&a, Order::Unordered);
    msg.connection_id = ConnectionId::new(3);
    assert_eq!(
        b.host.chan_open_try(&msg),
        Err(ChannelError::Connection(ConnectionError::ConnectionNotFound {
            connection_id: ConnectionId::new(3)
        }))
    );
    let mut msg = chan_try_msg(&a, Order::Unordered);
    msg.proof_height = Some(Height::new(0, 9_999));
    assert_eq!(
        b.host.chan_open_try(&msg),
        Err(ChannelError::Client(ClientError::HeightOutOfRange {
            height: Height::new(0, 9_999),
            latest_height: a.host.height(),
        }))
    );
    let mut msg = chan_try_msg(&a, Order::Unordered);
    msg.channel_proof.truncate(31);
    assert_eq!(
        b.host.chan_open_try(&msg),
        Err(ChannelError::InvalidProof(ProofError::Malformed { length: 31 }))
    );
    let mut msg = chan_try_msg(&a, Order::Unordered);
    msg.counterparty_version = 2;
    assert_eq!(b.host.chan_open_try(&msg), Err(ChannelError::ChannelVerificationFailure));
    assert!(!b.host.has_channel(CHAN));
    assert!(b.host.chan_open_try(&chan_try_msg(&a, Order::Unordered)).is_ok());
    sync(&mut b, &mut a);
    let mismatch = Err(ChannelError::ChannelMismatch { port_id: PORT, channel_id: CHAN });
    assert_eq!(b.host.chan_open_ack(&chan_ack_msg(&b)), mismatch);
    assert_eq!(a.host.chan_open_confirm(&chan_confirm_msg(&b)), mismatch);
    let mut msg = chan_ack_msg(&b);
    msg.channel_id = ChannelId::new(6);
    assert_eq!(
        a.host.chan_open_ack(&msg),
        Err(ChannelError::ChannelNotFound { port_id: PORT, channel_id: ChannelId::new(6) })
    );
    let mut msg = chan_ack_msg(&b);
    msg.port_id = PortId::new(8);
    assert_eq!(
        a.host.chan_open_ack(&msg),
        Err(ChannelError::ChannelNotFound { port_id: PortId::new(8), channel_id: CHAN })
    );
    let mut msg = chan_ack_msg(&b);
    msg.proof_height = None;
    assert_eq!(a.host.chan_open_ack(&msg), Err(ChannelError::MissingProofHeight));
    let mut msg = chan_ack_msg(&b);
    msg.counterparty_channel_id = ChannelId::new(1);
    assert_eq!(a.host.chan_open_ack(&msg), Err(ChannelError::ChannelVerificationFailure));
    assert_eq!(a.host.query_channel_end(CHAN, PORT).unwrap().state, ChannelState::Init);
    assert!(a.host.chan_open_ack(&chan_ack_msg(&b)).is_ok());
}

#[test]
fn send_errors() {
    let (mut a, _b) = open_path(Order::Unordered);
    for sequence in [0, u64::MAX] {
        assert_eq!(
            a.host.verify_and_record_send(&packet(sequence)),
            Err(PacketError::InvalidSequence { sequence })
        );
    }
    assert_eq!(
        a.host.verify_and_record_send(&packet(2)),
        Err(PacketError::SequenceMismatch { expected: 1, received: 2 })
    );
    let mut p = packet(1);
    p.destination_channel = ChannelId::new(5);
    assert_eq!(
        a.host.verify_and_record_send(&p),
        Err(PacketError::CounterpartyMismatch { port_id: PORT, channel_id: ChannelId::new(5) })
    );
    let mut p = packet(1);
    p.source_channel = ChannelId::new(9);
    assert_eq!(
        a.host.verify_and_record_send(&p),
        Err(PacketError::Channel(ChannelError::ChannelNotFound {
            port_id: PORT,
            channel_id: ChannelId::new(9),
        }))
    );
    let mut p = packet(1);
    p.timeout_height = Height::zero();
    assert_eq!(a.host.verify_and_record_send(&p), Err(PacketError::MissingTimeout));
    assert_eq!(a.host.query_next_sequence_send(PORT, CHAN), Some(1));
    assert_eq!(a.host.query_packet_commitments(CHAN, PORT), Vec::<u64>::new());
    p.timeout_timestamp = 5;
    assert_eq!(a.host.verify_and_record_send(&p), Ok(send_event(1)));
    assert_eq!(
        a.host.verify_and_record_send(&packet(1)),
        Err(PacketError::SequenceMismatch { expected: 2, received: 1 })
    );
}

#[test]
fn receive_errors() {
    let (mut a, mut b) = open_path(Order::Unordered);
    let mut timed = packet(1);
    timed.timeout_height = Height::zero();
    timed.timeout_timestamp = b.host.timestamp() + 10;
    assert_eq!(a.host.verify_and_record_send(&timed), Ok(send_event(1)));
    assert_eq!(a.host.verify_and_record_send(&packet(2)), Ok(send_event(2)));
    sync(&mut a, &mut b);
    let proof = commitment_proof(&a, 2);
    let mut p = packet(2);
    p.source_channel = ChannelId::new(5);
    assert_eq!(
        b.host.verify_and_record_recv(&p, &proof),
        Err(PacketError::CounterpartyMismatch { port_id: PORT, channel_id: ChannelId::new(5) })
    );
    assert_eq!(
        b.host.verify_and_record_recv(&packet(0), &proof),
        Err(PacketError::InvalidSequence { sequence: 0 })
    );
    assert_eq!(
        b.host.verify_and_record_recv(&packet(3), &proof),
        Err(PacketError::PacketVerificationFailure { sequence: 3 })
    );
    let early = CommitmentProof { bytes: proof.bytes.clone(), height: Height::new(0, 100) };
    assert_eq!(
        b.host.verify_and_record_recv(&packet(2), &early),
        Err(PacketError::PacketVerificationFailure { sequence: 2 })
    );
    let unknown = CommitmentProof { bytes: proof.bytes.clone(), height: Height::new(0, 99) };
    assert_eq!(
        b.host.verify_and_record_recv(&packet(2), &unknown),
        Err(PacketError::Channel(ChannelError::Client(ClientError::ConsensusStateNotFound {
            client_id: CLIENT,
            height: Height::new(0, 99),
        })))
    );
    b.commit();
    assert_eq!(
        b.host.verify_and_record_recv(&timed, &commitment_proof(&a, 1)),
        Err(PacketError::TimedOutTimestamp {
            timeout_timestamp: timed.timeout_timestamp,
            current_timestamp: b.host.timestamp(),
        })
    );
    assert_eq!(b.host.query_unreceived_packets(CHAN, PORT, vec![1, 2]), vec![1, 2]);
    assert_eq!(b.host.verify_and_record_recv(&packet(2), &proof), Ok(RecvOutcome::Received));
}

#[test]
fn client_errors() {
    let (mut a, mut b) = two_chains();
    let (state, consensus) = b.client_for(2);
    assert_eq!(
        a.host.create_client(CLIENT, state, consensus),
        Err(ClientError::ClientAlreadyExists { client_id: CLIENT })
    );
    let other = ClientId::new(1);
    let frozen = ClientState { frozen_height: Some(Height::new(0, 1)), ..state };
    assert_eq!(
        a.host.create_client(other, frozen, consensus),
        Err(ClientError::ClientFrozen { client_id: other, frozen_height: Height::new(0, 1) })
    );
    assert_eq!(a.host.query_client_state(other), None);
    assert_eq!(a.host.latest_height(other), None);
    b.commit();
    let header = b.header();
    assert_eq!(
        a.host.update_client(other, header, HeaderVerdict::Valid),
        Err(ClientError::ClientNotFound { client_id: other })
    );
    assert_eq!(
        a.host.update_client(CLIENT, header, HeaderVerdict::Invalid),
        Err(ClientError::HeaderVerificationFailure { client_id: CLIENT, height: header.height })
    );
    let old = Header { height: Height::new(0, 50), ..header };
    assert_eq!(
        a.host.update_client(CLIENT, old, HeaderVerdict::Valid),
        Err(ClientError::LowHeaderHeight {
            header_height: Height::new(0, 50),
            latest_height: Height::new(0, 50),
        })
    );
    assert_eq!(a.host.latest_height(CLIENT), Some(Height::new(0, 50)));
    assert_eq!(a.host.query_client_consensus(CLIENT, header.height), None);
    assert_eq!(
        a.host.update_client(CLIENT, header, HeaderVerdict::Valid),
        Ok(IbcEvent::UpdateClient { client_id: CLIENT, consensus_height: header.height })
    );
    assert_eq!(a.host.latest_height(CLIENT), Some(Height::new(0, 51)));
    assert_eq!(
        a.host.query_client_consensus(CLIENT, header.height),
        Some(ConsensusState { timestamp: header.timestamp, root: header.root })
    );
    assert_eq!(a.host.query_client_consensus(CLIENT, Height::new(0, 50)), Some(consensus));
    assert_eq!(a.host.trusted_consensus_state(CLIENT, Height::new(0, 50)), Ok(consensus));
    assert_eq!(
        a.host.trusted_consensus_state(CLIENT, Height::new(0, 52)),
        Err(ClientError::HeightOutOfRange {
            height: Height::new(0, 52),
            latest_height: Height::new(0, 51),
        })
    );
    assert_eq!(
        a.host.trusted_consensus_state(CLIENT, Height::new(0, 49)),
        Err(ClientError::ConsensusStateNotFound { client_id: CLIENT, height: Height::new(0, 49) })
    );
    assert_eq!(
        a.host.trusted_consensus_state(other, Height::new(0, 49)),
        Err(ClientError::ClientNotFound { client_id: other })
    );
    assert_eq!(
        a.host.verify_stored(CLIENT, header.height, &[0u8; 32], &[1u8], &[2u8]),
        Err(ClientError::InvalidProof(ProofError::VerificationFailed))
    );
    assert_eq!(
        a.host.verify_stored(CLIENT, header.height, &[0u8; 5], &[1u8], &[2u8]),
        Err(ClientError::InvalidProof(ProofError::Malformed { length: 5 }))
    );
}

#[test]
fn light_client_checks_what_the_other_chain_stores() {
    let (mut a, mut b) = open_path(Order::Ordered);
    assert_eq!(a.host.verify_and_record_send(&packet(1)), Ok(send_event(1)));
    sync(&mut a, &mut b);
    let h = a.host.height();
    let prefix = a.host.prefix();
    let end = a.host.query_connection_end(CONN).unwrap();
    let proof = a.prove(Path::Connection { connection_id: CONN });
    assert_eq!(b.host.verify_connection_state(CLIENT, prefix, h, &proof, CONN, &end), Ok(()));
    let wrong = ConnectionEnd { delay_period: 1, ..end };
    assert_eq!(
        b.host.verify_connection_state(CLIENT, prefix, h, &proof, CONN, &wrong),
        Err(ClientError::InvalidProof(ProofError::VerificationFailed))
    );
    assert_eq!(
        b.host.verify_connection_state(CLIENT, CommitmentPrefix::new(8), h, &proof, CONN, &end),
        Err(ClientError::InvalidProof(ProofError::VerificationFailed))
    );
    let chan = a.host.query_channel_end(CHAN, PORT).unwrap();
    let proof = a.prove(Path::Channel { port_id: PORT, channel_id: CHAN });
    assert_eq!(b.host.verify_channel_state(CLIENT, prefix, h, &proof, PORT, CHAN, &chan), Ok(()));
    let state = a.host.query_client_state(CLIENT).unwrap();
    let proof = a.prove(Path::ClientState { client_id: CLIENT });
    assert_eq!(b.host.verify_client_state(CLIENT, prefix, h, &proof, CLIENT, &state), Ok(()));
    let at = a.seen[0];
    let consensus = a.host.query_client_consensus(CLIENT, at).unwrap();
    let proof = a.prove(Path::ConsensusState { client_id: CLIENT, height: at });
    assert_eq!(
        b.host.verify_consensus_state(CLIENT, prefix, h, &proof, CLIENT, at, &consensus),
        Ok(())
    );
    assert_eq!(b.host.host_consensus_state(at), Some(consensus));
    let proof = a.prove(Path::NextSequenceRecv { port_id: PORT, channel_id: CHAN });
    assert_eq!(b.host.verify_next_sequence_recv(CLIENT, prefix, h, &proof, PORT, CHAN, 1), Ok(()));
    assert_eq!(
        b.host.verify_next_sequence_recv(CLIENT, prefix, h, &proof, PORT, CHAN, 2),
        Err(ClientError::InvalidProof(ProofError::VerificationFailed))
    );
    let proof = a.prove(Path::Receipt { port_id: PORT, channel_id: CHAN, sequence: 1 });
    assert_eq!(b.host.verify_packet_receipt_absence(CLIENT, prefix, h, &proof, PORT, CHAN, 1), Ok(()));
    let proof = a.prove(Path::Commitment { port_id: PORT, channel_id: CHAN, sequence: 1 });
    assert_eq!(
        b.host.verify_packet_commitment(
            CLIENT,
            prefix,
            h,
            &proof,
            PORT,
            CHAN,
            1,
            &packet(1).commitment()
        ),
        Ok(())
    );
    assert_eq!(
        b.host.verify_packet_acknowledgement(
            CLIENT,
            prefix,
            h,
            &proof,
            PORT,
            CHAN,
            1,
            &packet(1).commitment()
        ),
        Err(ClientError::InvalidProof(ProofError::VerificationFailed))
    );
}

#[test]
fn host_moves_forward_only() {
    let root = Digest { bytes: [3u8; 32] };
    let mut h = Host::new(4, CommitmentPrefix::new(1), Height::new(2, 10), 100, root);
    assert_eq!(h.chain_id(), 4);
    assert_eq!(h.prefix(), CommitmentPrefix::new(1));
    assert_eq!(h.latest_height_and_timestamp(), (Height::new(2, 10), 100));
    assert_eq!(h.oldest_height(), Height::new(2, 10));
    assert!(!h.advance(Height::new(2, 10), 200, root));
    assert!(!h.advance(Height::new(1, 99), 200, root));
    assert!(!h.advance(Height::new(2, 11), 99, root));
    assert_eq!(h.latest_height_and_timestamp(), (Height::new(2, 10), 100));
    assert!(h.advance(Height::new(3, 1), 100, Digest { bytes: [4u8; 32] }));
    assert_eq!(h.latest_height_and_timestamp(), (Height::new(3, 1), 100));
    assert_eq!(
        h.host_consensus_state(Height::new(2, 10)),
        Some(ConsensusState { timestamp: 100, root })
    );
    assert_eq!(
        h.host_consensus_state(Height::new(3, 1)),
        Some(ConsensusState { timestamp: 100, root: Digest { bytes: [4u8; 32] } })
    );
    assert_eq!(h.host_consensus_state(Height::new(3, 0)), None);
    assert_eq!(
        h.own_consensus(Height::new(3, 2)),
        Err(ConnectionError::InvalidConsensusHeight {
            target_height: Height::new(3, 2),
            current_height: Height::new(3, 1),
        })
    );
    assert_eq!(
        h.usable_client_state(CLIENT),
        Err(ConnectionError::Ics02Client(ClientError::ClientNotFound { client_id: CLIENT }))
    );
    assert_eq!(
        h.open_connection_end(CONN),
        Err(ChannelError::Connection(ConnectionError::ConnectionNotFound { connection_id: CONN }))
    );
    assert_eq!(
        h.channel_end_in_state(PORT, CHAN, ChannelState::Open),
        Err(ChannelError::ChannelNotFound { port_id: PORT, channel_id: CHAN })
    );
}
