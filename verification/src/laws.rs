//! Laws of the protocol state: statements about all states and all messages,
//! proved from the definitions that the operations' contracts use.

use vstd::prelude::*;
use crate::chan_handshake::{
    chan_close_confirm_result,
    chan_close_init_result,
    chan_open_ack_result,
    chan_open_confirm_result,
    chan_open_init_result,
    chan_open_try_result,
    open_connection,
    MsgChannelCloseConfirm,
    MsgChannelCloseInit,
    MsgChannelOpenAck,
    MsgChannelOpenConfirm,
    MsgChannelOpenInit,
    MsgChannelOpenTry,
};
use crate::channel::{ChannelState, ChannelView};
use crate::commitment::{hash_collision, lemma_tampered_proof_rejected};
use crate::conn_handshake::{
    conn_open_ack_result,
    conn_open_confirm_result,
    conn_open_init_result,
    conn_open_try_result,
    MsgConnectionOpenAck,
    MsgConnectionOpenConfirm,
    MsgConnectionOpenInit,
    MsgConnectionOpenTry,
};
use crate::connection::ConnectionState;
use crate::error::{ChannelError, ConnectionError, PacketError};
use crate::height::Height;
use crate::host::HostView;
use crate::ids::{ChannelId, ClientId, ConnectionId, PortId};
use crate::light_client::outcome;
use crate::packet::{lemma_select_exact, select, Packet};
use crate::packet_relay::{
    ack_result,
    recv_result,
    send_result,
    timeout_result,
    write_ack_result,
    RecvOutcome,
};

verus! {

/// An operation that is bound to fail with `e` returns `e` and leaves the
/// state as it was.
pub open spec fn refused<T, E>(host: HostView, expected: Result<(HostView, T), E>, e: E) -> bool {
    &&& expected == Err::<(HostView, T), E>(e)
    &&& forall|r: Result<T, E>, post: HostView| #[trigger]
        outcome(r, host, post, expected) ==> r == Err::<T, E>(e) && post == host
}

/// Once a connection end is open, every handshake message that names it is
/// refused with `ConnectionExistsAlready`, and the state stays as it is.
pub proof fn lemma_open_connection_refuses_handshake(
    host: HostView,
    id: ConnectionId,
    init: MsgConnectionOpenInit,
    open_try: MsgConnectionOpenTry,
    ack: MsgConnectionOpenAck,
    confirm: MsgConnectionOpenConfirm,
)
    requires
        host.connections.contains_key(id.index),
        host.connections[id.index].state == ConnectionState::Open,
        init.connection_id == id,
        open_try.connection_id == id,
        ack.connection_id == id,
        confirm.connection_id == id,
    ensures
        refused(
            host,
            conn_open_init_result(host, init),
            ConnectionError::ConnectionExistsAlready { connection_id: id },
        ),
        refused(
            host,
            conn_open_try_result(host, open_try),
            ConnectionError::ConnectionExistsAlready { connection_id: id },
        ),
        refused(
            host,
            conn_open_ack_result(host, ack),
            ConnectionError::ConnectionExistsAlready { connection_id: id },
        ),
        refused(
            host,
            conn_open_confirm_result(host, confirm),
            ConnectionError::ConnectionExistsAlready { connection_id: id },
        ),
{
}

/// Once a channel end is open, every message of the opening handshake that
/// names it is refused with `ChannelExistsAlready`, and the state stays as
/// it is. The connections that the messages name are open, as they were
/// when the messages were first accepted.
pub proof fn lemma_open_channel_refuses_handshake(
    host: HostView,
    port_id: PortId,
    id: ChannelId,
    init: MsgChannelOpenInit,
    open_try: MsgChannelOpenTry,
    ack: MsgChannelOpenAck,
    confirm: MsgChannelOpenConfirm,
)
    requires
        host.channels.contains_key(id.index),
        host.channels[id.index].port_id == port_id,
        host.channels[id.index].end.state == ChannelState::Open,
        open_connection(host, host.channels[id.index].end.connection_id).is_ok(),
        open_connection(host, init.connection_id).is_ok(),
        open_connection(host, open_try.connection_id).is_ok(),
        init.channel_id == id && init.port_id == port_id,
        open_try.channel_id == id && open_try.port_id == port_id,
        ack.channel_id == id && ack.port_id == port_id,
        confirm.channel_id == id && confirm.port_id == port_id,
    ensures
        refused(
            host,
            chan_open_init_result(host, init),
            ChannelError::ChannelExistsAlready { port_id, channel_id: id },
        ),
        refused(
            host,
            chan_open_try_result(host, open_try),
            ChannelError::ChannelExistsAlready { port_id, channel_id: id },
        ),
        refused(
            host,
            chan_open_ack_result(host, ack),
            ChannelError::ChannelExistsAlready { port_id, channel_id: id },
        ),
        refused(
            host,
            chan_open_confirm_result(host, confirm),
            ChannelError::ChannelExistsAlready { port_id, channel_id: id },
        ),
{
}

/// How a connection end may change in one step: it stays bound, keeps its
/// client and the client of its other end, and does not move backwards.
pub open spec fn connection_moved_forward(pre: HostView, post: HostView, id: ConnectionId) -> bool {
    &&& post.connections.contains_key(id.index)
    &&& post.connections[id.index].client_id == pre.connections[id.index].client_id
    &&& post.connections[id.index].counterparty.client_id
        == pre.connections[id.index].counterparty.client_id
    &&& post.connections[id.index].state.rank() >= pre.connections[id.index].state.rank()
}

/// No step of the connection handshake unbinds a connection end, changes
/// its clients, or moves it backwards.
pub proof fn lemma_connection_handshake_is_monotonic(
    host: HostView,
    id: ConnectionId,
    init: MsgConnectionOpenInit,
    open_try: MsgConnectionOpenTry,
    ack: MsgConnectionOpenAck,
    confirm: MsgConnectionOpenConfirm,
)
    requires
        host.connections.contains_key(id.index),
    ensures
        conn_open_init_result(host, init).is_ok() ==> connection_moved_forward(
            host,
            conn_open_init_result(host, init).unwrap().0,
            id,
        ),
        conn_open_try_result(host, open_try).is_ok() ==> connection_moved_forward(
            host,
            conn_open_try_result(host, open_try).unwrap().0,
            id,
        ),
        conn_open_ack_result(host, ack).is_ok() ==> connection_moved_forward(
            host,
            conn_open_ack_result(host, ack).unwrap().0,
            id,
        ),
        conn_open_confirm_result(host, confirm).is_ok() ==> connection_moved_forward(
            host,
            conn_open_confirm_result(host, confirm).unwrap().0,
            id,
        ),
{
}

/// How a channel end may change in one step: it stays bound to its port,
/// keeps its delivery order and its connection, and does not move backwards.
pub open spec fn channel_moved_forward(pre: HostView, post: HostView, id: ChannelId) -> bool {
    &&& post.channels.contains_key(id.index)
    &&& post.channels[id.index].port_id == pre.channels[id.index].port_id
    &&& post.channels[id.index].end.ordering == pre.channels[id.index].end.ordering
    &&& post.channels[id.index].end.connection_id == pre.channels[id.index].end.connection_id
    &&& post.channels[id.index].end.state.rank() >= pre.channels[id.index].end.state.rank()
}

/// No step of the channel handshake and no closing step unbinds a channel
/// end, changes its port, order or connection, or moves it backwards.
pub proof fn lemma_channel_handshake_is_monotonic(
    host: HostView,
    id: ChannelId,
    init: MsgChannelOpenInit,
    open_try: MsgChannelOpenTry,
    ack: MsgChannelOpenAck,
    confirm: MsgChannelOpenConfirm,
    close_init: MsgChannelCloseInit,
    close_confirm: MsgChannelCloseConfirm,
)
    requires
        host.channels.contains_key(id.index),
    ensures
        chan_open_init_result(host, init).is_ok() ==> channel_moved_forward(
            host,
            chan_open_init_result(host, init).unwrap().0,
            id,
        ),
        chan_open_try_result(host, open_try).is_ok() ==> channel_moved_forward(
            host,
            chan_open_try_result(host, open_try).unwrap().0,
            id,
        ),
        chan_open_ack_result(host, ack).is_ok() ==> channel_moved_forward(
            host,
            chan_open_ack_result(host, ack).unwrap().0,
            id,
        ),
        chan_open_confirm_result(host, confirm).is_ok() ==> channel_moved_forward(
            host,
            chan_open_confirm_result(host, confirm).unwrap().0,
            id,
        ),
        chan_close_init_result(host, close_init).is_ok() ==> channel_moved_forward(
            host,
            chan_close_init_result(host, close_init).unwrap().0,
            id,
        ),
        chan_close_confirm_result(host, close_confirm).is_ok() ==> channel_moved_forward(
            host,
            chan_close_confirm_result(host, close_confirm).unwrap().0,
            id,
        ),
{
}

/// No packet step unbinds a channel end, changes its port, order or
/// connection, or moves it backwards.
pub proof fn lemma_packet_relay_is_monotonic(
    host: HostView,
    id: ChannelId,
    packet: Packet,
    acknowledgement: Seq<u8>,
    next_sequence_recv: u64,
    proof_height: Height,
    proof: Seq<u8>,
)
    requires
        host.channels.contains_key(id.index),
    ensures
        send_result(host, packet).is_ok() ==> channel_moved_forward(
            host,
            send_result(host, packet).unwrap().0,
            id,
        ),
        recv_result(host, packet, proof_height, proof).is_ok() ==> channel_moved_forward(
            host,
            recv_result(host, packet, proof_height, proof).unwrap().0,
            id,
        ),
        write_ack_result(host, packet, acknowledgement).is_ok() ==> channel_moved_forward(
            host,
            write_ack_result(host, packet, acknowledgement).unwrap().0,
            id,
        ),
        ack_result(host, packet, acknowledgement, proof_height, proof).is_ok()
            ==> channel_moved_forward(
            host,
            ack_result(host, packet, acknowledgement, proof_height, proof).unwrap().0,
            id,
        ),
        timeout_result(host, packet, next_sequence_recv, proof_height, proof).is_ok()
            ==> channel_moved_forward(
            host,
            timeout_result(host, packet, next_sequence_recv, proof_height, proof).unwrap().0,
            id,
        ),
{
}

/// A closed channel end takes no further step: every later handshake or
/// closing message and every packet step that names it is refused.
pub proof fn lemma_closed_channel_is_final(
    host: HostView,
    port_id: PortId,
    id: ChannelId,
    ack: MsgChannelOpenAck,
    confirm: MsgChannelOpenConfirm,
    close_init: MsgChannelCloseInit,
    close_confirm: MsgChannelCloseConfirm,
    outgoing: Packet,
    incoming: Packet,
    acknowledgement: Seq<u8>,
    next_sequence_recv: u64,
    proof_height: Height,
    proof: Seq<u8>,
)
    requires
        host.channels.contains_key(id.index),
        host.channels[id.index].port_id == port_id,
        host.channels[id.index].end.state == ChannelState::Closed,
        ack.channel_id == id && ack.port_id == port_id,
        confirm.channel_id == id && confirm.port_id == port_id,
        close_init.channel_id == id && close_init.port_id == port_id,
        close_confirm.channel_id == id && close_confirm.port_id == port_id,
        outgoing.source_channel == id && outgoing.source_port == port_id,
        incoming.destination_channel == id && incoming.destination_port == port_id,
    ensures
        chan_open_ack_result(host, ack).is_err(),
        chan_open_confirm_result(host, confirm).is_err(),
        chan_close_init_result(host, close_init).is_err(),
        chan_close_confirm_result(host, close_confirm).is_err(),
        send_result(host, outgoing).is_err(),
        recv_result(host, incoming, proof_height, proof).is_err(),
        write_ack_result(host, incoming, acknowledgement).is_err(),
        ack_result(host, outgoing, acknowledgement, proof_height, proof).is_err(),
        timeout_result(host, outgoing, next_sequence_recv, proof_height, proof).is_err(),
{
}

/// Receiving is idempotent: after a packet was received with a proof, the
/// same packet with the same proof is accepted again as a duplicate, and
/// nothing changes.
pub proof fn lemma_receive_is_idempotent(
    host: HostView,
    packet: Packet,
    proof_height: Height,
    proof: Seq<u8>,
)
    requires
        recv_result(host, packet, proof_height, proof).is_ok(),
    ensures
        recv_result(
            recv_result(host, packet, proof_height, proof).unwrap().0,
            packet,
            proof_height,
            proof,
        ) == Ok::<(HostView, RecvOutcome), PacketError>(
            (recv_result(host, packet, proof_height, proof).unwrap().0, RecvOutcome::Duplicate),
        ),
{
    let post = recv_result(host, packet, proof_height, proof).unwrap().0;
    let id = packet.destination_channel;
    assert(post.channels.contains_key(id.index));
    assert(post.channels[id.index].receipts.contains(packet.sequence));
}

/// A successful send uses the next sequence of the channel end, stores the
/// packet's commitment under it, keeps every other commitment, and raises
/// the next sequence by one: no sequence is used twice.
pub proof fn lemma_send_takes_next_sequence(host: HostView, packet: Packet, other: u64)
    requires
        send_result(host, packet).is_ok(),
        other != packet.sequence,
    ensures
        ({
            let pre = host.channels[packet.source_channel.index];
            let post = send_result(host, packet).unwrap().0.channels[packet.source_channel.index];
            &&& packet.sequence == pre.next_sequence_send
            &&& post.next_sequence_send == pre.next_sequence_send + 1
            &&& post.commitments.contains_key(packet.sequence)
            &&& post.commitments.contains_key(other) == pre.commitments.contains_key(other)
            &&& post.receipts == pre.receipts
        }),
{
}

/// The state after sending some packets one after the other, if every send
/// succeeds.
pub open spec fn after_sends(host: HostView, packets: Seq<Packet>) -> Option<HostView>
    decreases packets.len(),
{
    if packets.len() == 0 {
        Some(host)
    } else {
        match after_sends(host, packets.drop_last()) {
            None => None,
            Some(before) => match send_result(before, packets.last()) {
                Ok((after, _)) => Some(after),
                Err(_) => None,
            },
        }
    }
}

/// Sequences are consecutive and never used again: when a number of packets
/// were sent from one channel end, one after the other, they carry the
/// sequences from the one that was next before, in order; the next sequence
/// has grown by their number; the commitments are those from before and
/// those of the packets; and the receipts are untouched.
pub proof fn lemma_sends_use_consecutive_sequences(
    host: HostView,
    id: ChannelId,
    packets: Seq<Packet>,
)
    requires
        host.channels.contains_key(id.index),
        forall|i: int| 0 <= i < packets.len() ==> (#[trigger] packets[i]).source_channel == id,
        after_sends(host, packets).is_some(),
    ensures
        ({
            let pre = host.channels[id.index];
            let post = after_sends(host, packets).unwrap();
            &&& post.channels.contains_key(id.index)
            &&& post.channels[id.index].next_sequence_send == pre.next_sequence_send
                + packets.len()
            &&& forall|i: int|
                0 <= i < packets.len() ==> (#[trigger] packets[i]).sequence
                    == pre.next_sequence_send + i
            &&& forall|s: u64|
                post.channels[id.index].commitments.contains_key(s)
                    <==> pre.commitments.contains_key(s) || pre.next_sequence_send <= s
                    < pre.next_sequence_send + packets.len()
            &&& post.channels[id.index].receipts == pre.receipts
        }),
    decreases packets.len(),
{
    if packets.len() > 0 {
        let init = packets.drop_last();
        assert forall|i: int| 0 <= i < init.len() implies (#[trigger] init[i]).source_channel
            == id by {
            assert(init[i] == packets[i]);
        }
        lemma_sends_use_consecutive_sequences(host, id, init);
        let before = after_sends(host, init).unwrap();
        let last = packets.last();
        assert(last == packets[packets.len() - 1]);
        assert(send_result(before, last).is_ok());
        assert forall|i: int| 0 <= i < packets.len() implies (#[trigger] packets[i]).sequence
            == host.channels[id.index].next_sequence_send + i by {
            if i < init.len() {
                assert(init[i] == packets[i]);
            }
        }
    }
}

/// Only client updates change clients: no step of a handshake and no packet
/// step touches a client state or a consensus state, nor the chain's own
/// height, time and history.
pub proof fn lemma_only_updates_change_clients(
    host: HostView,
    init: MsgConnectionOpenInit,
    open_try: MsgConnectionOpenTry,
    ack: MsgConnectionOpenAck,
    confirm: MsgConnectionOpenConfirm,
    chan_init: MsgChannelOpenInit,
    chan_try: MsgChannelOpenTry,
    chan_ack: MsgChannelOpenAck,
    chan_confirm: MsgChannelOpenConfirm,
    packet: Packet,
    acknowledgement: Seq<u8>,
    next_sequence_recv: u64,
    proof_height: Height,
    proof: Seq<u8>,
)
    ensures
        conn_open_init_result(host, init).is_ok() ==> same_chain_and_clients(
            host,
            conn_open_init_result(host, init).unwrap().0,
        ),
        conn_open_try_result(host, open_try).is_ok() ==> same_chain_and_clients(
            host,
            conn_open_try_result(host, open_try).unwrap().0,
        ),
        conn_open_ack_result(host, ack).is_ok() ==> same_chain_and_clients(
            host,
            conn_open_ack_result(host, ack).unwrap().0,
        ),
        conn_open_confirm_result(host, confirm).is_ok() ==> same_chain_and_clients(
            host,
            conn_open_confirm_result(host, confirm).unwrap().0,
        ),
        chan_open_init_result(host, chan_init).is_ok() ==> same_chain_and_clients(
            host,
            chan_open_init_result(host, chan_init).unwrap().0,
        ),
        chan_open_try_result(host, chan_try).is_ok() ==> same_chain_and_clients(
            host,
            chan_open_try_result(host, chan_try).unwrap().0,
        ),
        chan_open_ack_result(host, chan_ack).is_ok() ==> same_chain_and_clients(
            host,
            chan_open_ack_result(host, chan_ack).unwrap().0,
        ),
        chan_open_confirm_result(host, chan_confirm).is_ok() ==> same_chain_and_clients(
            host,
            chan_open_confirm_result(host, chan_confirm).unwrap().0,
        ),
        send_result(host, packet).is_ok() ==> same_chain_and_clients(
            host,
            send_result(host, packet).unwrap().0,
        ),
        recv_result(host, packet, proof_height, proof).is_ok() ==> same_chain_and_clients(
            host,
            recv_result(host, packet, proof_height, proof).unwrap().0,
        ),
        ack_result(host, packet, acknowledgement, proof_height, proof).is_ok()
            ==> same_chain_and_clients(
            host,
            ack_result(host, packet, acknowledgement, proof_height, proof).unwrap().0,
        ),
        timeout_result(host, packet, next_sequence_recv, proof_height, proof).is_ok()
            ==> same_chain_and_clients(
            host,
            timeout_result(host, packet, next_sequence_recv, proof_height, proof).unwrap().0,
        ),
{
}

/// Two states of a chain with the same clients, height, time and history.
pub open spec fn same_chain_and_clients(pre: HostView, post: HostView) -> bool {
    &&& post.clients == pre.clients
    &&& post.chain_id == pre.chain_id
    &&& post.prefix == pre.prefix
    &&& post.height == pre.height
    &&& post.oldest_height == pre.oldest_height
    &&& post.timestamp == pre.timestamp
    &&& post.history == pre.history
}

/// The unreceived packets among some sequences are exactly those of the
/// sequences for which the channel end holds no receipt.
pub proof fn lemma_unreceived_is_exact(ch: ChannelView, seqs: Seq<u64>, s: u64)
    ensures
        select(seqs, ch.receipts.complement()).contains(s) <==> seqs.contains(s)
            && !ch.receipts.contains(s),
{
    lemma_select_exact(seqs, ch.receipts.complement(), s);
}

/// A receive that was accepted with a proof is refused when any byte of the
/// proof is changed: it fails as a packet verification failure, unless two
/// different byte strings with the same Blake2b digest exist.
pub proof fn lemma_tampered_receive_rejected(
    host: HostView,
    packet: Packet,
    proof_height: Height,
    proof: Seq<u8>,
    tampered: Seq<u8>,
)
    requires
        recv_result(host, packet, proof_height, proof).is_ok(),
        tampered.len() == proof.len(),
        tampered != proof,
    ensures
        recv_result(host, packet, proof_height, tampered) == Err::<
            (HostView, RecvOutcome),
            PacketError,
        >(PacketError::PacketVerificationFailure { sequence: packet.sequence })
            || hash_collision(),
{
    let conn = open_connection(
        host,
        host.channels[packet.destination_channel.index].end.connection_id,
    ).unwrap();
    let cs = crate::light_client::trusted_state(host, conn.client_id, proof_height).unwrap();
    lemma_tampered_proof_rejected(
        cs.root@,
        proof,
        tampered,
        (crate::path::Path::Commitment {
            port_id: packet.source_port,
            channel_id: packet.source_channel,
            sequence: packet.sequence,
        }).spec_bytes(conn.counterparty.prefix),
        crate::packet::packet_commitment(packet),
    );
}

/// While the client of a connection is frozen, no step that checks a proof
/// through it succeeds, whatever the proofs hold: not the connection
/// handshake, not the channel handshake beyond its first step, and no
/// receive, acknowledgement or timeout.
pub proof fn lemma_frozen_client_blocks_every_step(
    host: HostView,
    client_id: ClientId,
    connection_id: ConnectionId,
    channel_id: ChannelId,
    init: MsgConnectionOpenInit,
    open_try: MsgConnectionOpenTry,
    ack: MsgConnectionOpenAck,
    confirm: MsgConnectionOpenConfirm,
    chan_try: MsgChannelOpenTry,
    chan_ack: MsgChannelOpenAck,
    chan_confirm: MsgChannelOpenConfirm,
    chan_close: MsgChannelCloseConfirm,
    outgoing: Packet,
    incoming: Packet,
    acknowledgement: Seq<u8>,
    next_sequence_recv: u64,
    proof_height: Height,
    proof: Seq<u8>,
)
    requires
        host.clients.contains_key(client_id.index),
        host.clients[client_id.index].state.frozen_height.is_some(),
        init.client_id == client_id,
        open_try.client_id == client_id,
        host.connections.contains_key(connection_id.index),
        host.connections[connection_id.index].client_id == client_id,
        ack.connection_id == connection_id,
        confirm.connection_id == connection_id,
        chan_try.connection_id == connection_id,
        host.channels.contains_key(channel_id.index),
        host.channels[channel_id.index].end.connection_id == connection_id,
        chan_ack.channel_id == channel_id,
        chan_confirm.channel_id == channel_id,
        chan_close.channel_id == channel_id,
        outgoing.source_channel == channel_id,
        incoming.destination_channel == channel_id,
    ensures
        conn_open_init_result(host, init).is_err(),
        conn_open_try_result(host, open_try).is_err(),
        conn_open_ack_result(host, ack).is_err(),
        conn_open_confirm_result(host, confirm).is_err(),
        chan_open_try_result(host, chan_try).is_err(),
        chan_open_ack_result(host, chan_ack).is_err(),
        chan_open_confirm_result(host, chan_confirm).is_err(),
        chan_close_confirm_result(host, chan_close).is_err(),
        recv_result(host, incoming, proof_height, proof).is_err(),
        ack_result(host, outgoing, acknowledgement, proof_height, proof).is_err(),
        timeout_result(host, outgoing, next_sequence_recv, proof_height, proof).is_err(),
{
}

} // verus!
