//! What holds of every state that a chain can reach: it holds of a new
//! chain, and every operation that succeeds keeps it.

use vstd::prelude::*;
use crate::chan_handshake::{
    open_connection,
    chan_close_confirm_result,
    chan_close_init_result,
    chan_open_ack_result,
    chan_open_confirm_result,
    chan_open_init_result,
    chan_open_try_result,
    MsgChannelCloseConfirm,
    MsgChannelCloseInit,
    MsgChannelOpenAck,
    MsgChannelOpenConfirm,
    MsgChannelOpenInit,
    MsgChannelOpenTry,
};
use crate::channel::{ChannelState, ChannelView};
use crate::client::{ClientState, ClientView, ConsensusState, Header, HeaderVerdict};
use crate::conn_handshake::{
    conn_open_ack_result,
    conn_open_confirm_result,
    conn_open_init_result,
    conn_open_try_result,
    MsgConnectionOpenAck,
    MsgConnectionOpenConfirm,
    MsgConnectionOpenInit,
    MsgConnectionOpenTry,
};
use crate::connection::{ConnectionEnd, ConnectionState};
use crate::error::{ChannelError, ConnectionError};
use crate::height::Height;
use crate::host::HostView;
use crate::ids::{ClientId, ConnectionId};
use crate::light_client::{client_created, client_updated, trusted_state};
use crate::packet::{lemma_select_exact, range, select, Packet};
use crate::packet_relay::{
    ack_result,
    recv_result,
    send_result,
    timeout_result,
    write_ack_result,
};

verus! {

/// A connection end beyond `Init` knows the connection on the other chain.
pub open spec fn connection_consistent(end: ConnectionEnd) -> bool {
    end.state != ConnectionState::Init ==> end.counterparty.connection_id.is_some()
}

/// A channel end beyond `Init` knows the channel on the other chain; its
/// sequences start at one; every commitment is for a sequence that was
/// sent; the acknowledgements are those listed, and each is for a packet
/// that was received.
pub open spec fn channel_consistent(ch: ChannelView) -> bool {
    &&& ch.end.state != ChannelState::Init ==> ch.end.counterparty.channel_id.is_some()
    &&& ch.next_sequence_send >= 1
    &&& ch.next_sequence_recv >= 1
    &&& ch.next_sequence_ack >= 1
    &&& forall|s: u64| #[trigger]
        ch.commitments.contains_key(s) ==> 1 <= s < ch.next_sequence_send
    &&& forall|s: u64| #[trigger]
        ch.acknowledgements.contains_key(s) <==> ch.acknowledged.contains(s)
    &&& forall|s: u64| #[trigger] ch.acknowledgements.contains_key(s) ==> ch.receipts.contains(s)
}

/// A client holds consensus states only for heights up to its latest
/// height.
pub open spec fn client_consistent(client: ClientView) -> bool {
    forall|i: int|
        0 <= i < client.consensus.len() ==> (#[trigger] client.consensus[i]).height.spec_le(
            client.state.latest_height,
        )
}

/// The invariant of a chain's state.
pub open spec fn consistent(host: HostView) -> bool {
    &&& host.oldest_height.spec_le(host.height)
    &&& forall|i: int|
        0 <= i < host.history.len() ==> (#[trigger] host.history[i]).height.spec_le(host.height)
    &&& forall|k: u64| #[trigger]
        host.clients.contains_key(k) ==> client_consistent(host.clients[k])
    &&& forall|k: u64| #[trigger]
        host.connections.contains_key(k) ==> connection_consistent(host.connections[k])
    &&& forall|k: u64| #[trigger]
        host.channels.contains_key(k) ==> channel_consistent(host.channels[k])
}

/// The state of a new chain.
pub open spec fn initial(host: HostView) -> bool {
    &&& host.oldest_height == host.height
    &&& host.history.len() == 1
    &&& host.history[0].height == host.height
    &&& host.clients == Map::<u64, ClientView>::empty()
    &&& host.connections == Map::<u64, ConnectionEnd>::empty()
    &&& host.channels == Map::<u64, ChannelView>::empty()
}

/// A new chain is consistent.
pub proof fn lemma_initial_state_is_consistent(host: HostView)
    requires
        initial(host),
    ensures
        consistent(host),
{
}

/// Moving to a higher height and pruning keep a state consistent.
pub proof fn lemma_advancing_keeps_consistency(
    host: HostView,
    height: Height,
    timestamp: u64,
    state: ConsensusState,
    oldest: Height,
)
    requires
        consistent(host),
    ensures
        host.height.spec_lt(height) ==> consistent(
            HostView {
                height,
                timestamp,
                history: host.history.push(crate::client::ConsensusEntry { height, state }),
                ..host
            },
        ),
        host.oldest_height.spec_le(oldest) && oldest.spec_le(host.height) ==> consistent(
            HostView { oldest_height: oldest, ..host },
        ),
{
    if host.height.spec_lt(height) {
        let after = host.history.push(crate::client::ConsensusEntry { height, state });
        assert forall|i: int| 0 <= i < after.len() implies (#[trigger] after[i]).height.spec_le(
            height,
        ) by {
            if i < host.history.len() {
                assert(after[i] == host.history[i]);
            }
        }
    }
}

/// Creating and updating clients keep a state consistent.
pub proof fn lemma_client_steps_keep_consistency(
    host: HostView,
    client_id: ClientId,
    client_state: ClientState,
    consensus_state: ConsensusState,
    header: Header,
    verdict: HeaderVerdict,
)
    requires
        consistent(host),
    ensures
        client_created(host, client_id, client_state, consensus_state).is_ok() ==> consistent(
            client_created(host, client_id, client_state, consensus_state).unwrap().0,
        ),
        client_updated(host, client_id, header, verdict).is_ok() ==> consistent(
            client_updated(host, client_id, header, verdict).unwrap().0,
        ),
{
    if client_updated(host, client_id, header, verdict).is_ok() {
        let post = client_updated(host, client_id, header, verdict).unwrap().0;
        let before = host.clients[client_id.index];
        let after = post.clients[client_id.index];
        assert(client_consistent(before));
        assert forall|i: int| 0 <= i < after.consensus.len() implies (
        #[trigger] after.consensus[i]).height.spec_le(after.state.latest_height) by {
            if i < before.consensus.len() {
                assert(after.consensus[i] == before.consensus[i]);
            }
        }
        assert forall|k: u64| #[trigger] post.clients.contains_key(k) implies client_consistent(
            post.clients[k],
        ) by {
            if k != client_id.index {
                assert(host.clients.contains_key(k));
            }
        }
    }
}

/// Every step of the connection handshake keeps a state consistent.
pub proof fn lemma_connection_steps_keep_consistency(
    host: HostView,
    init: MsgConnectionOpenInit,
    open_try: MsgConnectionOpenTry,
    ack: MsgConnectionOpenAck,
    confirm: MsgConnectionOpenConfirm,
)
    requires
        consistent(host),
    ensures
        conn_open_init_result(host, init).is_ok() ==> consistent(
            conn_open_init_result(host, init).unwrap().0,
        ),
        conn_open_try_result(host, open_try).is_ok() ==> consistent(
            conn_open_try_result(host, open_try).unwrap().0,
        ),
        conn_open_ack_result(host, ack).is_ok() ==> consistent(
            conn_open_ack_result(host, ack).unwrap().0,
        ),
        conn_open_confirm_result(host, confirm).is_ok() ==> consistent(
            conn_open_confirm_result(host, confirm).unwrap().0,
        ),
{
    assert(host.connections.contains_key(confirm.connection_id.index)
        ==> connection_consistent(host.connections[confirm.connection_id.index]));
}

/// Every step of the channel handshake and every closing step keeps a state
/// consistent.
pub proof fn lemma_channel_steps_keep_consistency(
    host: HostView,
    init: MsgChannelOpenInit,
    open_try: MsgChannelOpenTry,
    ack: MsgChannelOpenAck,
    confirm: MsgChannelOpenConfirm,
    close_init: MsgChannelCloseInit,
    close_confirm: MsgChannelCloseConfirm,
)
    requires
        consistent(host),
    ensures
        chan_open_init_result(host, init).is_ok() ==> consistent(
            chan_open_init_result(host, init).unwrap().0,
        ),
        chan_open_try_result(host, open_try).is_ok() ==> consistent(
            chan_open_try_result(host, open_try).unwrap().0,
        ),
        chan_open_ack_result(host, ack).is_ok() ==> consistent(
            chan_open_ack_result(host, ack).unwrap().0,
        ),
        chan_open_confirm_result(host, confirm).is_ok() ==> consistent(
            chan_open_confirm_result(host, confirm).unwrap().0,
        ),
        chan_close_init_result(host, close_init).is_ok() ==> consistent(
            chan_close_init_result(host, close_init).unwrap().0,
        ),
        chan_close_confirm_result(host, close_confirm).is_ok() ==> consistent(
            chan_close_confirm_result(host, close_confirm).unwrap().0,
        ),
{
    assert(host.channels.contains_key(ack.channel_id.index) ==> channel_consistent(
        host.channels[ack.channel_id.index],
    ));
    assert(host.channels.contains_key(confirm.channel_id.index) ==> channel_consistent(
        host.channels[confirm.channel_id.index],
    ));
    assert(host.channels.contains_key(close_init.channel_id.index) ==> channel_consistent(
        host.channels[close_init.channel_id.index],
    ));
    assert(host.channels.contains_key(close_confirm.channel_id.index) ==> channel_consistent(
        host.channels[close_confirm.channel_id.index],
    ));
}

/// Every packet step keeps a state consistent.
pub proof fn lemma_packet_steps_keep_consistency(
    host: HostView,
    packet: Packet,
    acknowledgement: Seq<u8>,
    next_sequence_recv: u64,
    proof_height: Height,
    proof: Seq<u8>,
)
    requires
        consistent(host),
    ensures
        send_result(host, packet).is_ok() ==> consistent(send_result(host, packet).unwrap().0),
        recv_result(host, packet, proof_height, proof).is_ok() ==> consistent(
            recv_result(host, packet, proof_height, proof).unwrap().0,
        ),
        write_ack_result(host, packet, acknowledgement).is_ok() ==> consistent(
            write_ack_result(host, packet, acknowledgement).unwrap().0,
        ),
        ack_result(host, packet, acknowledgement, proof_height, proof).is_ok() ==> consistent(
            ack_result(host, packet, acknowledgement, proof_height, proof).unwrap().0,
        ),
        timeout_result(host, packet, next_sequence_recv, proof_height, proof).is_ok()
            ==> consistent(
            timeout_result(host, packet, next_sequence_recv, proof_height, proof).unwrap().0,
        ),
{
    assert(host.channels.contains_key(packet.source_channel.index) ==> channel_consistent(
        host.channels[packet.source_channel.index],
    ));
    assert(host.channels.contains_key(packet.destination_channel.index) ==> channel_consistent(
        host.channels[packet.destination_channel.index],
    ));
    if write_ack_result(host, packet, acknowledgement).is_ok() {
        let pre = host.channels[packet.destination_channel.index];
        let post = write_ack_result(host, packet, acknowledgement).unwrap().0.channels[
            packet.destination_channel.index];
        assert forall|s: u64| #[trigger]
            post.acknowledgements.contains_key(s) <==> post.acknowledged.contains(s) by {
            if pre.acknowledged.contains(s) {
                let i = choose|i: int| 0 <= i < pre.acknowledged.len() && pre.acknowledged[i] == s;
                assert(post.acknowledged[i] == s);
            }
            if post.acknowledged.contains(s) {
                let i = choose|i: int|
                    0 <= i < post.acknowledged.len() && post.acknowledged[i] == s;
                if i < pre.acknowledged.len() {
                    assert(pre.acknowledged[i] == s);
                }
            }
            assert(post.acknowledged[pre.acknowledged.len() as int] == packet.sequence);
        }
    }
}

/// A proof is checked only against a root that the client holds for the
/// height of the proof: the client is not frozen, and the height is not
/// above the latest height that the client has verified.
pub proof fn lemma_proofs_need_verified_heights(
    host: HostView,
    client_id: ClientId,
    proof_height: Height,
)
    requires
        trusted_state(host, client_id, proof_height).is_ok(),
    ensures
        host.clients.contains_key(client_id.index),
        host.clients[client_id.index].state.frozen_height.is_none(),
        proof_height.spec_le(host.clients[client_id.index].state.latest_height),
        host.client_consensus(client_id, proof_height) == Some(
            trusted_state(host, client_id, proof_height).unwrap(),
        ),
{
}

/// In a consistent state an open connection knows its other end: looking
/// it up for a channel never fails for want of the other connection's
/// identifier.
pub proof fn lemma_open_connection_knows_other_end(host: HostView, connection_id: ConnectionId)
    requires
        consistent(host),
    ensures
        open_connection(host, connection_id) != Err::<ConnectionEnd, ChannelError>(
            ChannelError::Connection(ConnectionError::MissingCounterparty),
        ),
{
    if host.connections.contains_key(connection_id.index) {
        assert(connection_consistent(host.connections[connection_id.index]));
    }
}

/// In a consistent state the list of the sequences from one up to the next
/// one to send, taken where a commitment is stored, misses no commitment.
pub proof fn lemma_commitments_are_listed(ch: ChannelView, s: u64)
    requires
        channel_consistent(ch),
    ensures
        select(range(1, ch.next_sequence_send), ch.commitments.dom()).contains(s)
            <==> ch.commitments.contains_key(s),
{
    let all = range(1, ch.next_sequence_send);
    lemma_select_exact(all, ch.commitments.dom(), s);
    if ch.commitments.contains_key(s) {
        assert(all[s - 1] == s);
    }
}

} // verus!
